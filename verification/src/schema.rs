//! The shape that a preamble must have: which settings it may name, and what
//! each of them must be.

use vstd::prelude::*;
use vstd::string::StringExecFns;
use crate::error::{failure, FailureKind, FailureModel, ProcessorError};
use crate::frontmatter::{FrontMatter, FrontMatterView, PageOrientation, PageSize, PageSizeView};
use crate::preamble::{
    settings_of, Preamble, PreambleDocument, PreambleDocumentView, PreambleMargin,
    PreambleMarginView, PreamblePage, PreamblePageView, PreambleView,
};
use crate::yaml::{
    entries_view, entry, entry_from, find, lemma_map_view, parse_yaml, scalar_text,
    text_of_scalar, yaml_of, YamlNode, YamlView,
};

verus! {

/// The complaint about a setting that should be a text and is none.
pub open spec fn not_a_text(setting: Seq<char>) -> Seq<char> {
    setting + ": expected a text"@
}

/// The complaint about a section that should be a mapping and is none.
pub open spec fn not_a_mapping(section: Seq<char>) -> Seq<char> {
    section + ": expected a mapping"@
}

/// The complaint about a page size of neither shape.
pub open spec fn not_a_size() -> Seq<char> {
    "page.size: expected name and orientation, or width and height"@
}

/// A text setting under `key`: nothing where the mapping has no such key or
/// nothing stands under it, the text of the scalar under it, and the
/// complaint where what stands under it is no scalar.
pub open spec fn text_setting(
    entries: Seq<(YamlView, YamlView)>,
    key: Seq<char>,
    setting: Seq<char>,
) -> Result<Option<Seq<char>>, Seq<char>> {
    match entry(entries, key) {
        None => Ok(None),
        Some(YamlView::Null) => Ok(None),
        Some(node) => match scalar_text(node) {
            Some(text) => Ok(Some(text)),
            None => Err(not_a_text(setting)),
        },
    }
}

/// The entries of a section: none for a section that names nothing, those of
/// a mapping, and nothing at all for a node that is neither.
pub open spec fn section_entries(node: YamlView) -> Option<Seq<(YamlView, YamlView)>> {
    match node {
        YamlView::Null => Some(Seq::empty()),
        YamlView::Mapping(entries) => Some(entries),
        _ => None,
    }
}

/// The orientation that a word names.
pub open spec fn orientation_named(word: Seq<char>) -> Option<PageOrientation> {
    if word == "portrait"@ {
        Some(PageOrientation::Portrait)
    } else if word == "landscape"@ {
        Some(PageOrientation::Landscape)
    } else {
        None
    }
}

/// The named page size that a mapping gives: it needs a scalar under `name`
/// and one of the two orientations, as a text, under `orientation`.
pub open spec fn named_size(entries: Seq<(YamlView, YamlView)>) -> Option<PageSizeView> {
    match (entry(entries, "name"@), entry(entries, "orientation"@)) {
        (Some(name), Some(YamlView::Text(word))) => match (
            scalar_text(name),
            orientation_named(word),
        ) {
            (Some(text), Some(orientation)) => Some(
                PageSizeView::Named { name: text, orientation },
            ),
            _ => None,
        },
        _ => None,
    }
}

/// The explicit page size that a mapping gives: it needs a scalar under
/// `width` and one under `height`.
pub open spec fn explicit_size(entries: Seq<(YamlView, YamlView)>) -> Option<PageSizeView> {
    match (entry(entries, "width"@), entry(entries, "height"@)) {
        (Some(width), Some(height)) => match (scalar_text(width), scalar_text(height)) {
            (Some(wide), Some(high)) => Some(PageSizeView::Explicit { width: wide, height: high }),
            _ => None,
        },
        _ => None,
    }
}

/// The page size under `size`: nothing where none is named, a named size
/// where the mapping gives one, else an explicit size where it gives one, and
/// the complaint for any other shape.
pub open spec fn size_setting(node: Option<YamlView>) -> Result<Option<PageSizeView>, Seq<char>> {
    match node {
        None => Ok(None),
        Some(YamlView::Null) => Ok(None),
        Some(YamlView::Mapping(entries)) => match named_size(entries) {
            Some(size) => Ok(Some(size)),
            None => match explicit_size(entries) {
                Some(size) => Ok(Some(size)),
                None => Err(not_a_size()),
            },
        },
        Some(_) => Err(not_a_size()),
    }
}

/// The margins under `margin`: a text for each side that is named. The first
/// side that is no text, in the order top, right, bottom, left, gives the
/// complaint.
pub open spec fn margin_setting(node: Option<YamlView>) -> Result<
    Option<PreambleMarginView>,
    Seq<char>,
> {
    match node {
        None => Ok(None),
        Some(given) => match section_entries(given) {
            None => Err(not_a_mapping("page.margin"@)),
            Some(entries) => match text_setting(entries, "top"@, "page.margin.top"@) {
                Err(complaint) => Err(complaint),
                Ok(top) => match text_setting(entries, "right"@, "page.margin.right"@) {
                    Err(complaint) => Err(complaint),
                    Ok(right) => match text_setting(entries, "bottom"@, "page.margin.bottom"@) {
                        Err(complaint) => Err(complaint),
                        Ok(bottom) => match text_setting(entries, "left"@, "page.margin.left"@) {
                            Err(complaint) => Err(complaint),
                            Ok(left) => Ok(Some(PreambleMarginView { top, right, bottom, left })),
                        },
                    },
                },
            },
        },
    }
}

/// The page settings under `page`: the size, then the margins.
pub open spec fn page_setting(node: Option<YamlView>) -> Result<Option<PreamblePageView>, Seq<char>> {
    match node {
        None => Ok(None),
        Some(given) => match section_entries(given) {
            None => Err(not_a_mapping("page"@)),
            Some(entries) => match size_setting(entry(entries, "size"@)) {
                Err(complaint) => Err(complaint),
                Ok(size) => match margin_setting(entry(entries, "margin"@)) {
                    Err(complaint) => Err(complaint),
                    Ok(margin) => Ok(Some(PreamblePageView { size, margin })),
                },
            },
        },
    }
}

/// The document settings under `document`.
pub open spec fn document_setting(node: Option<YamlView>) -> Result<
    Option<PreambleDocumentView>,
    Seq<char>,
> {
    match node {
        None => Ok(None),
        Some(given) => match section_entries(given) {
            None => Err(not_a_mapping("document"@)),
            Some(entries) => match text_setting(entries, "title"@, "document.title"@) {
                Err(complaint) => Err(complaint),
                Ok(title) => Ok(Some(PreambleDocumentView { title })),
            },
        },
    }
}

/// The preamble that a YAML tree stands for. The tree is a mapping, or
/// empty; under `document` and `page` it names settings, each of the shape
/// that the setting asks for; what it holds under other keys is passed over.
/// The first setting of another shape, the document before the page, gives
/// the complaint.
pub open spec fn preamble_in(tree: YamlView) -> Result<PreambleView, Seq<char>> {
    match section_entries(tree) {
        None => Err(not_a_mapping("preamble"@)),
        Some(entries) => match document_setting(entry(entries, "document"@)) {
            Err(complaint) => Err(complaint),
            Ok(document) => match page_setting(entry(entries, "page"@)) {
                Err(complaint) => Err(complaint),
                Ok(page) => Ok(PreambleView { document, page }),
            },
        },
    }
}

/// The preamble that a YAML text stands for, or the complaint of the reader
/// or about the shape.
pub open spec fn preamble_in_text(text: Seq<char>) -> Result<PreambleView, Seq<char>> {
    match yaml_of(text) {
        Err(complaint) => Err(complaint),
        Ok(tree) => preamble_in(tree),
    }
}

fn complaint(subject: &str, expectation: &str) -> (words: String)
    ensures
        words@ == subject@ + expectation@,
{
    let mut words = subject.to_owned();
    words.append(expectation);
    words
}

fn text_under(entries: &Vec<(YamlNode, YamlNode)>, key: &str, setting: &str) -> (text: Result<
    Option<String>,
    String,
>)
    ensures
        match text_setting(entries_view(entries@), key@, setting@) {
            Ok(None) => text matches Ok(None),
            Ok(Some(expected)) => text matches Ok(Some(given)) && given@ == expected,
            Err(words) => text matches Err(given) && given@ == words,
        },
{
    match find(entries, key) {
        None => Ok(None),
        Some(node) => match node {
            YamlNode::Null => Ok(None),
            _ => match text_of_scalar(node) {
                Some(text) => Ok(Some(text)),
                None => Err(complaint(setting, ": expected a text")),
            },
        },
    }
}

fn orientation_of(word: &String) -> (orientation: Option<PageOrientation>)
    ensures
        orientation == orientation_named(word@),
{
    if *word == "portrait".to_owned() {
        Some(PageOrientation::Portrait)
    } else if *word == "landscape".to_owned() {
        Some(PageOrientation::Landscape)
    } else {
        None
    }
}

fn named_size_in(entries: &Vec<(YamlNode, YamlNode)>) -> (size: Option<PageSize>)
    ensures
        match named_size(entries_view(entries@)) {
            Some(expected) => size matches Some(given) && given@ == expected,
            None => size is None,
        },
{
    let name = match find(entries, "name") {
        Some(node) => node,
        None => { return None; },
    };
    let word = match find(entries, "orientation") {
        Some(YamlNode::Text(word)) => word,
        _ => { return None; },
    };
    match (text_of_scalar(name), orientation_of(word)) {
        (Some(text), Some(orientation)) => Some(PageSize::Named { name: text, orientation }),
        _ => None,
    }
}

fn explicit_size_in(entries: &Vec<(YamlNode, YamlNode)>) -> (size: Option<PageSize>)
    ensures
        match explicit_size(entries_view(entries@)) {
            Some(expected) => size matches Some(given) && given@ == expected,
            None => size is None,
        },
{
    let width = match find(entries, "width") {
        Some(node) => node,
        None => { return None; },
    };
    let height = match find(entries, "height") {
        Some(node) => node,
        None => { return None; },
    };
    match (text_of_scalar(width), text_of_scalar(height)) {
        (Some(wide), Some(high)) => Some(PageSize::Explicit { width: wide, height: high }),
        _ => None,
    }
}

/// The view of a node that may be missing.
pub open spec fn node_view(node: Option<&YamlNode>) -> Option<YamlView> {
    match node {
        Some(given) => Some(given@),
        None => None,
    }
}

fn size_under(node: Option<&YamlNode>) -> (size: Result<Option<PageSize>, String>)
    ensures
        match size_setting(node_view(node)) {
            Ok(None) => size matches Ok(None),
            Ok(Some(expected)) => size matches Ok(Some(given)) && given@ == expected,
            Err(words) => size matches Err(given) && given@ == words,
        },
{
    match node {
        None => Ok(None),
        Some(YamlNode::Null) => Ok(None),
        Some(YamlNode::Mapping(entries)) => {
            proof {
                lemma_map_view(*entries);
            }
            match named_size_in(entries) {
                Some(size) => Ok(Some(size)),
                None => match explicit_size_in(entries) {
                    Some(size) => Ok(Some(size)),
                    None => Err(
                        "page.size: expected name and orientation, or width and height".to_owned(),
                    ),
                },
            }
        },
        Some(_) => Err("page.size: expected name and orientation, or width and height".to_owned()),
    }
}

fn margin_under(node: Option<&YamlNode>) -> (margin: Result<Option<PreambleMargin>, String>)
    ensures
        match margin_setting(node_view(node)) {
            Ok(None) => margin matches Ok(None),
            Ok(Some(expected)) => margin matches Ok(Some(given)) && given@ == expected,
            Err(words) => margin matches Err(given) && given@ == words,
        },
{
    match node {
        None => Ok(None),
        Some(YamlNode::Null) => Ok(
            Some(PreambleMargin { top: None, right: None, bottom: None, left: None }),
        ),
        Some(YamlNode::Mapping(entries)) => {
            proof {
                lemma_map_view(*entries);
            }
            let top = match text_under(entries, "top", "page.margin.top") {
                Ok(text) => text,
                Err(words) => { return Err(words); },
            };
            let right = match text_under(entries, "right", "page.margin.right") {
                Ok(text) => text,
                Err(words) => { return Err(words); },
            };
            let bottom = match text_under(entries, "bottom", "page.margin.bottom") {
                Ok(text) => text,
                Err(words) => { return Err(words); },
            };
            let left = match text_under(entries, "left", "page.margin.left") {
                Ok(text) => text,
                Err(words) => { return Err(words); },
            };
            Ok(Some(PreambleMargin { top, right, bottom, left }))
        },
        Some(_) => Err(complaint("page.margin", ": expected a mapping")),
    }
}

fn page_under(node: Option<&YamlNode>) -> (page: Result<Option<PreamblePage>, String>)
    ensures
        match page_setting(node_view(node)) {
            Ok(None) => page matches Ok(None),
            Ok(Some(expected)) => page matches Ok(Some(given)) && given@ == expected,
            Err(words) => page matches Err(given) && given@ == words,
        },
{
    match node {
        None => Ok(None),
        Some(YamlNode::Null) => Ok(Some(PreamblePage { size: None, margin: None })),
        Some(YamlNode::Mapping(entries)) => {
            proof {
                lemma_map_view(*entries);
            }
            let size = match size_under(find(entries, "size")) {
                Ok(size) => size,
                Err(words) => { return Err(words); },
            };
            let margin = match margin_under(find(entries, "margin")) {
                Ok(margin) => margin,
                Err(words) => { return Err(words); },
            };
            Ok(Some(PreamblePage { size, margin }))
        },
        Some(_) => Err(complaint("page", ": expected a mapping")),
    }
}

fn document_under(node: Option<&YamlNode>) -> (document: Result<Option<PreambleDocument>, String>)
    ensures
        match document_setting(node_view(node)) {
            Ok(None) => document matches Ok(None),
            Ok(Some(expected)) => document matches Ok(Some(given)) && given@ == expected,
            Err(words) => document matches Err(given) && given@ == words,
        },
{
    match node {
        None => Ok(None),
        Some(YamlNode::Null) => Ok(Some(PreambleDocument { title: None })),
        Some(YamlNode::Mapping(entries)) => {
            proof {
                lemma_map_view(*entries);
            }
            match text_under(entries, "title", "document.title") {
                Ok(title) => Ok(Some(PreambleDocument { title })),
                Err(words) => Err(words),
            }
        },
        Some(_) => Err(complaint("document", ": expected a mapping")),
    }
}

/// Whether `result` is the plain result `expected`: the same preamble, or the
/// same words of complaint.
pub open spec fn preamble_result_is(
    result: Result<Preamble, String>,
    expected: Result<PreambleView, Seq<char>>,
) -> bool {
    match expected {
        Ok(preamble) => result matches Ok(given) && given@ == preamble,
        Err(words) => result matches Err(given) && given@ == words,
    }
}

impl Preamble {
    /// The preamble that a YAML tree stands for, or the complaint about the
    /// first setting that does not have its shape.
    pub fn from_tree(tree: &YamlNode) -> (preamble: Result<Preamble, String>)
        ensures
            preamble_result_is(preamble, preamble_in(tree@)),
    {
        match tree {
            YamlNode::Null => Ok(Preamble { document: None, page: None }),
            YamlNode::Mapping(entries) => {
                proof {
                    lemma_map_view(*entries);
                }
                let document = match document_under(find(entries, "document")) {
                    Ok(document) => document,
                    Err(words) => { return Err(words); },
                };
                let page = match page_under(find(entries, "page")) {
                    Ok(page) => page,
                    Err(words) => { return Err(words); },
                };
                Ok(Preamble { document, page })
            },
            _ => Err(complaint("preamble", ": expected a mapping")),
        }
    }

    /// Reads a preamble from its YAML text. It fails with the words of the
    /// YAML reader where the text is no YAML, and with the complaint about the
    /// shape where a setting does not have its shape.
    pub fn from_yaml_str(content: &str) -> (preamble: Result<Preamble, String>)
        ensures
            preamble_result_is(preamble, preamble_in_text(content@)),
    {
        match parse_yaml(content) {
            Err(words) => Err(words),
            Ok(tree) => Preamble::from_tree(&tree),
        }
    }
}

/// The settings that a preamble text comes to: those that its preamble asks
/// for, or the failure `MalformedPreamble` with the complaint.
pub open spec fn settings_in_text(text: Seq<char>) -> Result<FrontMatterView, FailureModel> {
    match preamble_in_text(text) {
        Ok(preamble) => Ok(settings_of(preamble)),
        Err(words) => Err(failure(FailureKind::MalformedPreamble, words)),
    }
}

impl FrontMatter {
    /// Reads the settings of a document from the YAML text of its preamble:
    /// what the preamble names, and the default for what it leaves out. A
    /// text that is no YAML, or a setting of another shape than it should
    /// have, fails with `MalformedPreamble`.
    pub fn from_yaml_str(content: &str) -> (settings: Result<FrontMatter, ProcessorError>)
        ensures
            match settings_in_text(content@) {
                Ok(expected) => settings matches Ok(given) && given@ == expected,
                Err(expected) => settings matches Err(failed) && failed@ == expected,
            },
    {
        FrontMatter::of_preamble(Some(Preamble::from_yaml_str(content)))
    }
}

/// A preamble without text, and one that says nothing of the document or the
/// page, ask for nothing: their settings are the defaults.
pub proof fn law_empty_tree_is_empty_preamble()
    ensures
        preamble_in(YamlView::Null) == Ok::<PreambleView, Seq<char>>(
            PreambleView { document: None, page: None },
        ),
        preamble_in(YamlView::Mapping(Seq::empty())) == Ok::<PreambleView, Seq<char>>(
            PreambleView { document: None, page: None },
        ),
{
}

/// What a preamble holds under other keys than `document` and `page` does
/// not matter: a tree with an entry more under another key, at its end,
/// stands for the same preamble.
pub proof fn law_other_keys_are_passed_over(
    entries: Seq<(YamlView, YamlView)>,
    key: YamlView,
    value: YamlView,
)
    requires
        key != YamlView::Text("document"@),
        key != YamlView::Text("page"@),
    ensures
        preamble_in(YamlView::Mapping(entries.push((key, value)))) == preamble_in(
            YamlView::Mapping(entries),
        ),
{
    lemma_entry_push(entries, key, value, "document"@, 0);
    lemma_entry_push(entries, key, value, "page"@, 0);
}

proof fn lemma_entry_push(
    entries: Seq<(YamlView, YamlView)>,
    key: YamlView,
    value: YamlView,
    wanted: Seq<char>,
    from: int,
)
    requires
        key != YamlView::Text(wanted),
        0 <= from,
    ensures
        entry_from(entries.push((key, value)), wanted, from)
            == entry_from(entries, wanted, from),
    decreases entries.len() - from,
{
    if from < entries.len() {
        assert(entries.push((key, value))[from] == entries[from]);
        lemma_entry_push(entries, key, value, wanted, from + 1);
    } else if from == entries.len() {
        assert(entries.push((key, value))[from] == (key, value));
        reveal_with_fuel(entry_from, 2);
    }
}

} // verus!
