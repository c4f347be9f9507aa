//! What a preamble says: the settings that it names, and how the settings of
//! a document come from them and from the defaults.

use vstd::prelude::*;
use crate::error::{failure, FailureKind, ProcessorError, ProcessorErrorType};
use crate::frontmatter::{
    default_frontmatter, default_page_margin, default_page_size, DocConfig, DocConfigView,
    FrontMatter, FrontMatterView, PageConfig, PageConfigView, PageMargin, PageMarginView,
    PageSize, PageSizeView,
};

verus! {

/// What a preamble says of the margins: a dimension for each side that it
/// names.
#[derive(Debug)]
pub struct PreambleMargin {
    pub top: Option<String>,
    pub right: Option<String>,
    pub bottom: Option<String>,
    pub left: Option<String>,
}

/// What a preamble says of the page.
#[derive(Debug)]
pub struct PreamblePage {
    pub size: Option<PageSize>,
    pub margin: Option<PreambleMargin>,
}

/// What a preamble says of the document as a whole.
#[derive(Debug)]
pub struct PreambleDocument {
    pub title: Option<String>,
}

/// A parsed preamble: the settings that it names, and no others.
#[derive(Debug)]
pub struct Preamble {
    pub document: Option<PreambleDocument>,
    pub page: Option<PreamblePage>,
}

/// What a `PreambleMargin` holds, as plain text.
pub struct PreambleMarginView {
    pub top: Option<Seq<char>>,
    pub right: Option<Seq<char>>,
    pub bottom: Option<Seq<char>>,
    pub left: Option<Seq<char>>,
}

/// What a `PreamblePage` holds, as plain text.
pub struct PreamblePageView {
    pub size: Option<PageSizeView>,
    pub margin: Option<PreambleMarginView>,
}

/// What a `PreambleDocument` holds, as plain text.
pub struct PreambleDocumentView {
    pub title: Option<Seq<char>>,
}

/// What a `Preamble` holds, as plain text.
pub struct PreambleView {
    pub document: Option<PreambleDocumentView>,
    pub page: Option<PreamblePageView>,
}

/// A text that may be missing, as plain text.
pub open spec fn given_text(given: Option<String>) -> Option<Seq<char>> {
    match given {
        Some(text) => Some(text@),
        None => None,
    }
}

impl View for PreambleMargin {
    type V = PreambleMarginView;

    open spec fn view(&self) -> PreambleMarginView {
        PreambleMarginView {
            top: given_text(self.top),
            right: given_text(self.right),
            bottom: given_text(self.bottom),
            left: given_text(self.left),
        }
    }
}

impl View for PreamblePage {
    type V = PreamblePageView;

    open spec fn view(&self) -> PreamblePageView {
        PreamblePageView {
            size: match self.size {
                Some(size) => Some(size@),
                None => None,
            },
            margin: match self.margin {
                Some(margin) => Some(margin@),
                None => None,
            },
        }
    }
}

impl View for PreambleDocument {
    type V = PreambleDocumentView;

    open spec fn view(&self) -> PreambleDocumentView {
        PreambleDocumentView { title: given_text(self.title) }
    }
}

impl View for Preamble {
    type V = PreambleView;

    open spec fn view(&self) -> PreambleView {
        PreambleView {
            document: match self.document {
                Some(document) => Some(document@),
                None => None,
            },
            page: match self.page {
                Some(page) => Some(page@),
                None => None,
            },
        }
    }
}

/// The text that was given, or the default in its place.
pub open spec fn text_or(given: Option<Seq<char>>, default: Seq<char>) -> Seq<char> {
    match given {
        Some(text) => text,
        None => default,
    }
}

/// The margins that a preamble asks for: each side as it is named, and the
/// default for every side that is not.
pub open spec fn margin_of(given: Option<PreambleMarginView>) -> PageMarginView {
    match given {
        Some(margin) => PageMarginView {
            top: text_or(margin.top, default_page_margin().top),
            right: text_or(margin.right, default_page_margin().right),
            bottom: text_or(margin.bottom, default_page_margin().bottom),
            left: text_or(margin.left, default_page_margin().left),
        },
        None => default_page_margin(),
    }
}

/// The page size that a preamble asks for, the default where it names none.
pub open spec fn size_of(given: Option<PageSizeView>) -> PageSizeView {
    match given {
        Some(size) => size,
        None => default_page_size(),
    }
}

/// The page settings that a preamble asks for.
pub open spec fn page_of(given: Option<PreamblePageView>) -> PageConfigView {
    match given {
        Some(page) => PageConfigView { size: size_of(page.size), margin: margin_of(page.margin) },
        None => PageConfigView { size: default_page_size(), margin: default_page_margin() },
    }
}

/// The document settings that a preamble asks for.
pub open spec fn document_of(given: Option<PreambleDocumentView>) -> DocConfigView {
    match given {
        Some(document) => DocConfigView {
            title: text_or(document.title, default_frontmatter().document.title),
        },
        None => default_frontmatter().document,
    }
}

/// The settings that a preamble asks for: every setting as the preamble names
/// it, and the default for every setting that it leaves out.
pub open spec fn settings_of(preamble: PreambleView) -> FrontMatterView {
    FrontMatterView { document: document_of(preamble.document), page: page_of(preamble.page) }
}

/// The settings that parsing a preamble comes to: those that the preamble
/// asks for, or the failure `MalformedPreamble` with the parser's reason.
pub open spec fn settings_result_is(
    result: Result<FrontMatter, ProcessorError>,
    parsed: Result<Preamble, String>,
) -> bool {
    match parsed {
        Ok(preamble) => result matches Ok(given) && given@ == settings_of(preamble@),
        Err(reason) => result matches Err(failed) && failed@ == failure(
            FailureKind::MalformedPreamble,
            reason@,
        ),
    }
}

fn given_or(given: Option<String>, default: &str) -> (text: String)
    ensures
        text@ == text_or(given_text(given), default@),
{
    match given {
        Some(text) => text,
        None => default.to_owned(),
    }
}

impl PageMargin {
    /// The margins that a preamble asks for.
    pub fn from_preamble(given: Option<PreambleMargin>) -> (margin: Self)
        ensures
            margin@ == margin_of(
                match given {
                    Some(sides) => Some(sides@),
                    None => None,
                },
            ),
    {
        match given {
            Some(sides) => PageMargin {
                top: given_or(sides.top, "0.75in"),
                right: given_or(sides.right, "0.75in"),
                bottom: given_or(sides.bottom, "0.75in"),
                left: given_or(sides.left, "0.75in"),
            },
            None => PageMargin::default(),
        }
    }
}

impl PageConfig {
    /// The page settings that a preamble asks for.
    pub fn from_preamble(given: Option<PreamblePage>) -> (page: Self)
        ensures
            page@ == page_of(
                match given {
                    Some(named) => Some(named@),
                    None => None,
                },
            ),
    {
        match given {
            Some(page) => PageConfig {
                size: match page.size {
                    Some(size) => size,
                    None => PageSize::default(),
                },
                margin: PageMargin::from_preamble(page.margin),
            },
            None => PageConfig::default(),
        }
    }
}

impl DocConfig {
    /// The document settings that a preamble asks for.
    pub fn from_preamble(given: Option<PreambleDocument>) -> (document: Self)
        ensures
            document@ == document_of(
                match given {
                    Some(named) => Some(named@),
                    None => None,
                },
            ),
    {
        match given {
            Some(document) => DocConfig { title: given_or(document.title, "Untitled Document") },
            None => DocConfig::default(),
        }
    }
}

impl FrontMatter {
    /// The settings that a preamble asks for: what it names, and the default
    /// for what it leaves out.
    pub fn from_preamble(preamble: Preamble) -> (settings: Self)
        ensures
            settings@ == settings_of(preamble@),
    {
        FrontMatter {
            document: DocConfig::from_preamble(preamble.document),
            page: PageConfig::from_preamble(preamble.page),
        }
    }

    /// The settings of a document whose preamble, if it has one, was parsed
    /// with the given result. A document without a preamble has the default
    /// settings; one whose preamble the parser refused fails with
    /// `MalformedPreamble`.
    pub fn of_preamble(parsed: Option<Result<Preamble, String>>) -> (result: Result<
        FrontMatter,
        ProcessorError,
    >)
        ensures
            match parsed {
                None => result matches Ok(settings) && settings@ == default_frontmatter(),
                Some(outcome) => settings_result_is(result, outcome),
            },
    {
        match parsed {
            None => Ok(FrontMatter::default()),
            Some(Ok(preamble)) => Ok(FrontMatter::from_preamble(preamble)),
            Some(Err(reason)) => Err(
                ProcessorError { error: ProcessorErrorType::MalformedPreamble(reason) },
            ),
        }
    }
}

/// A preamble that names nothing asks for the default settings, and so does
/// one that names a document or a page without saying anything of it.
pub proof fn law_empty_preamble_is_default()
    ensures
        settings_of(PreambleView { document: None, page: None }) == default_frontmatter(),
        settings_of(
            PreambleView {
                document: Some(PreambleDocumentView { title: None }),
                page: Some(PreamblePageView { size: None, margin: None }),
            },
        ) == default_frontmatter(),
        settings_of(
            PreambleView {
                document: None,
                page: Some(
                    PreamblePageView {
                        size: None,
                        margin: Some(
                            PreambleMarginView { top: None, right: None, bottom: None, left: None },
                        ),
                    },
                ),
            },
        ) == default_frontmatter(),
{
}

/// A setting that a preamble names is kept as it is named, whatever else the
/// preamble names or leaves out.
pub proof fn law_named_settings_are_kept(preamble: PreambleView)
    ensures
        preamble.document matches Some(document) ==> (document.title matches Some(title)
            ==> settings_of(preamble).document.title == title),
        preamble.page matches Some(page) ==> (page.size matches Some(size) ==> settings_of(
            preamble,
        ).page.size == size),
        preamble.page matches Some(page) ==> (page.margin matches Some(margin) ==> {
            &&& margin.top matches Some(top) ==> settings_of(preamble).page.margin.top == top
            &&& margin.right matches Some(right) ==> settings_of(preamble).page.margin.right
                == right
            &&& margin.bottom matches Some(bottom) ==> settings_of(preamble).page.margin.bottom
                == bottom
            &&& margin.left matches Some(left) ==> settings_of(preamble).page.margin.left == left
        }),
{
}

} // verus!
