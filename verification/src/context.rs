//! The variables that a document sees while it is expanded.

use vstd::prelude::*;
use crate::variable::{fields_view, put, put_text, record, text_field, Variable, VariableView};
use crate::frontmatter::{
    DocConfig, DocConfigView, FrontMatter, FrontMatterView, PageConfig, PageConfigView,
    PageMargin, PageMarginView, PageOrientation, PageSize, PageSizeView,
};

verus! {

/// What one render call knows of its document: the settings of the preamble
/// and the directory that holds the document.
#[derive(Debug)]
pub struct Context {
    pub frontmatter: FrontMatter,
    pub current_dir: String,
}

/// What a `Context` holds, as plain text.
pub struct ContextView {
    pub frontmatter: FrontMatterView,
    pub current_dir: Seq<char>,
}

impl View for Context {
    type V = ContextView;

    open spec fn view(&self) -> ContextView {
        ContextView { frontmatter: self.frontmatter@, current_dir: self.current_dir@ }
    }
}

/// The word by which a template reads an orientation.
pub open spec fn orientation_word(orientation: PageOrientation) -> Seq<char> {
    match orientation {
        PageOrientation::Portrait => "portrait"@,
        PageOrientation::Landscape => "landscape"@,
    }
}

/// A page size as a template reads it: `name` and `orientation`, or `width`
/// and `height`.
pub open spec fn page_size_variable(size: PageSizeView) -> VariableView {
    match size {
        PageSizeView::Named { name, orientation } => VariableView::Record(
            seq![text_field("name"@, name), text_field("orientation"@, orientation_word(orientation))],
        ),
        PageSizeView::Explicit { width, height } => VariableView::Record(
            seq![text_field("width"@, width), text_field("height"@, height)],
        ),
    }
}

/// The margins as a template reads them: `top`, `right`, `bottom`, `left`.
pub open spec fn page_margin_variable(margin: PageMarginView) -> VariableView {
    VariableView::Record(
        seq![
            text_field("top"@, margin.top),
            text_field("right"@, margin.right),
            text_field("bottom"@, margin.bottom),
            text_field("left"@, margin.left),
        ],
    )
}

/// The page settings as a template reads them: `size` and `margin`.
pub open spec fn page_variable(page: PageConfigView) -> VariableView {
    VariableView::Record(
        seq![
            ("size"@, page_size_variable(page.size)),
            ("margin"@, page_margin_variable(page.margin)),
        ],
    )
}

/// The document settings as a template reads them: `title`.
pub open spec fn document_variable(document: DocConfigView) -> VariableView {
    VariableView::Record(seq![text_field("title"@, document.title)])
}

/// The settings as a template reads them: `document` and `page`.
pub open spec fn frontmatter_variable(frontmatter: FrontMatterView) -> VariableView {
    VariableView::Record(
        seq![
            ("document"@, document_variable(frontmatter.document)),
            ("page"@, page_variable(frontmatter.page)),
        ],
    )
}

/// Everything a template can read: the settings under `frontmatter`, and the
/// directory of the document under `current_dir`.
pub open spec fn context_variables(context: ContextView) -> VariableView {
    VariableView::Record(
        seq![
            ("frontmatter"@, frontmatter_variable(context.frontmatter)),
            text_field("current_dir"@, context.current_dir),
        ],
    )
}

fn orientation_text(orientation: PageOrientation) -> (word: String)
    ensures
        word@ == orientation_word(orientation),
{
    match orientation {
        PageOrientation::Portrait => "portrait".to_owned(),
        PageOrientation::Landscape => "landscape".to_owned(),
    }
}

fn page_size_entry(size: &PageSize) -> (value: Variable)
    ensures
        value@ == page_size_variable(size@),
{
    let mut fields: Vec<(String, Variable)> = Vec::new();
    assert(fields_view(fields@) =~= Seq::empty());
    match size {
        PageSize::Named { name, orientation } => {
            let word = orientation_text(*orientation);
            put_text(&mut fields, "name", name);
            put_text(&mut fields, "orientation", &word);
            assert(fields_view(fields@) =~= seq![
                text_field("name"@, name@),
                text_field("orientation"@, orientation_word(*orientation)),
            ]);
        },
        PageSize::Explicit { width, height } => {
            put_text(&mut fields, "width", width);
            put_text(&mut fields, "height", height);
            assert(fields_view(fields@) =~= seq![
                text_field("width"@, width@),
                text_field("height"@, height@),
            ]);
        },
    }
    record(fields)
}

fn page_margin_entry(margin: &PageMargin) -> (value: Variable)
    ensures
        value@ == page_margin_variable(margin@),
{
    let mut fields: Vec<(String, Variable)> = Vec::new();
    assert(fields_view(fields@) =~= Seq::empty());
    put_text(&mut fields, "top", &margin.top);
    put_text(&mut fields, "right", &margin.right);
    put_text(&mut fields, "bottom", &margin.bottom);
    put_text(&mut fields, "left", &margin.left);
    assert(fields_view(fields@) =~= seq![
        text_field("top"@, margin.top@),
        text_field("right"@, margin.right@),
        text_field("bottom"@, margin.bottom@),
        text_field("left"@, margin.left@),
    ]);
    record(fields)
}

fn page_entry(page: &PageConfig) -> (value: Variable)
    ensures
        value@ == page_variable(page@),
{
    let mut fields: Vec<(String, Variable)> = Vec::new();
    assert(fields_view(fields@) =~= Seq::empty());
    put(&mut fields, "size", page_size_entry(&page.size));
    put(&mut fields, "margin", page_margin_entry(&page.margin));
    assert(fields_view(fields@) =~= seq![
        ("size"@, page_size_variable(page.size@)),
        ("margin"@, page_margin_variable(page.margin@)),
    ]);
    record(fields)
}

fn document_entry(document: &DocConfig) -> (value: Variable)
    ensures
        value@ == document_variable(document@),
{
    let mut fields: Vec<(String, Variable)> = Vec::new();
    assert(fields_view(fields@) =~= Seq::empty());
    put_text(&mut fields, "title", &document.title);
    assert(fields_view(fields@) =~= seq![text_field("title"@, document.title@)]);
    record(fields)
}

fn frontmatter_entry(frontmatter: &FrontMatter) -> (value: Variable)
    ensures
        value@ == frontmatter_variable(frontmatter@),
{
    let mut fields: Vec<(String, Variable)> = Vec::new();
    assert(fields_view(fields@) =~= Seq::empty());
    put(&mut fields, "document", document_entry(&frontmatter.document));
    put(&mut fields, "page", page_entry(&frontmatter.page));
    assert(fields_view(fields@) =~= seq![
        ("document"@, document_variable(frontmatter.document@)),
        ("page"@, page_variable(frontmatter.page@)),
    ]);
    record(fields)
}

impl Context {
    /// The variables that a template reads during this render call.
    pub fn variables(&self) -> (value: Variable)
        ensures
            value@ == context_variables(self@),
    {
        let mut fields: Vec<(String, Variable)> = Vec::new();
        assert(fields_view(fields@) =~= Seq::empty());
        put(&mut fields, "frontmatter", frontmatter_entry(&self.frontmatter));
        put_text(&mut fields, "current_dir", &self.current_dir);
        assert(fields_view(fields@) =~= seq![
            ("frontmatter"@, frontmatter_variable(self.frontmatter@)),
            text_field("current_dir"@, self.current_dir@),
        ]);
        record(fields)
    }
}

} // verus!
