//! A YAML document as a tree of plain values, and how entries of its mappings
//! are found.

use vstd::prelude::*;

verus! {

/// A YAML value as the YAML reader holds it. What is inside it is not visible
/// here.
#[verifier::external_type_specification]
#[verifier::external_body]
pub struct ExYamlValue(serde_yaml::Value);

/// A node of a YAML document. A number is held by the text that the reader
/// writes it with.
#[derive(Debug)]
pub enum YamlNode {
    Null,
    Bool(bool),
    Number(String),
    Text(String),
    Sequence(Vec<YamlNode>),
    Mapping(Vec<(YamlNode, YamlNode)>),
    Tagged(String, Box<YamlNode>),
}

/// What a `YamlNode` holds, as plain values.
pub enum YamlView {
    Null,
    Bool(bool),
    Number(Seq<char>),
    Text(Seq<char>),
    Sequence(Seq<YamlView>),
    Mapping(Seq<(YamlView, YamlView)>),
    Tagged(Seq<char>, Box<YamlView>),
}

impl YamlNode {
    /// What the node holds, as plain values.
    pub open spec fn shape(self) -> YamlView
        decreases self,
    {
        match self {
            YamlNode::Null => YamlView::Null,
            YamlNode::Bool(flag) => YamlView::Bool(flag),
            YamlNode::Number(text) => YamlView::Number(text@),
            YamlNode::Text(text) => YamlView::Text(text@),
            YamlNode::Sequence(items) => YamlView::Sequence(
                Seq::new(
                    items@.len(),
                    |i: int|
                        if 0 <= i < items@.len() {
                            items@[i].shape()
                        } else {
                            YamlView::Null
                        },
                ),
            ),
            YamlNode::Mapping(entries) => YamlView::Mapping(
                Seq::new(
                    entries@.len(),
                    |i: int|
                        if 0 <= i < entries@.len() {
                            (entries@[i].0.shape(), entries@[i].1.shape())
                        } else {
                            (YamlView::Null, YamlView::Null)
                        },
                ),
            ),
            YamlNode::Tagged(tag, inner) => YamlView::Tagged(tag@, Box::new(inner.shape())),
        }
    }
}

impl View for YamlNode {
    type V = YamlView;

    open spec fn view(&self) -> YamlView {
        self.shape()
    }
}

/// The entries of a mapping, as plain values.
pub open spec fn entries_view(entries: Seq<(YamlNode, YamlNode)>) -> Seq<(YamlView, YamlView)> {
    Seq::new(entries.len(), |i: int| (entries[i].0@, entries[i].1@))
}

/// A mapping holds its entries.
pub proof fn lemma_map_view(entries: Vec<(YamlNode, YamlNode)>)
    ensures
        YamlNode::Mapping(entries)@ == YamlView::Mapping(entries_view(entries@)),
{
    let node = YamlNode::Mapping(entries);
    assert(node@->Mapping_0 =~= entries_view(entries@));
}

/// The value that the YAML reader finds in a text, or the words of its
/// complaint.
pub uninterp spec fn yaml_value_of(text: Seq<char>) -> Result<serde_yaml::Value, Seq<char>>;

/// The tree of plain values that a value of the YAML reader stands for.
pub uninterp spec fn yaml_tree_of(value: serde_yaml::Value) -> YamlView;

/// The tree that a YAML text stands for, or the words of the reader's
/// complaint.
pub open spec fn yaml_of(text: Seq<char>) -> Result<YamlView, Seq<char>> {
    match yaml_value_of(text) {
        Ok(value) => Ok(yaml_tree_of(value)),
        Err(complaint) => Err(complaint),
    }
}

/// `serde_yaml::from_str` for a `serde_yaml::Value`: the value of the one
/// document in the text, or the reader's error in words. Both depend on the
/// text alone.
#[verifier::external_body]
fn read_yaml(text: &str) -> (value: Result<serde_yaml::Value, String>)
    ensures
        match value {
            Ok(found) => yaml_value_of(text@) == Ok::<serde_yaml::Value, Seq<char>>(found),
            Err(complaint) => yaml_value_of(text@) == Err::<serde_yaml::Value, Seq<char>>(
                complaint@,
            ),
        },
{
    serde_yaml::from_str::<serde_yaml::Value>(text).map_err(|error| error.to_string())
}

/// The variants of `serde_yaml::Value`, one for one: the tree that the value
/// stands for, with `Display` of `serde_yaml::Number` for a number and
/// `Display` of `serde_yaml::value::Tag` for a tag.
#[verifier::external_body]
fn yaml_node(value: serde_yaml::Value) -> (node: YamlNode)
    ensures
        node@ == yaml_tree_of(value),
{
    match value {
        serde_yaml::Value::Null => YamlNode::Null,
        serde_yaml::Value::Bool(flag) => YamlNode::Bool(flag),
        serde_yaml::Value::Number(number) => YamlNode::Number(number.to_string()),
        serde_yaml::Value::String(text) => YamlNode::Text(text),
        serde_yaml::Value::Sequence(items) => {
            YamlNode::Sequence(items.into_iter().map(yaml_node).collect())
        },
        serde_yaml::Value::Mapping(entries) => YamlNode::Mapping(
            entries.into_iter().map(|entry| (yaml_node(entry.0), yaml_node(entry.1))).collect(),
        ),
        serde_yaml::Value::Tagged(tagged) => {
            YamlNode::Tagged(tagged.tag.to_string(), Box::new(yaml_node(tagged.value)))
        },
    }
}

/// Reads a YAML text into a tree, or fails with the words of the reader.
pub fn parse_yaml(text: &str) -> (tree: Result<YamlNode, String>)
    ensures
        match yaml_of(text@) {
            Ok(view) => tree matches Ok(node) && node@ == view,
            Err(complaint) => tree matches Err(words) && words@ == complaint,
        },
{
    match read_yaml(text) {
        Ok(value) => Ok(yaml_node(value)),
        Err(complaint) => Err(complaint),
    }
}

/// The value of the first entry at or after `from` whose key is the text
/// `key`.
pub open spec fn entry_from(entries: Seq<(YamlView, YamlView)>, key: Seq<char>, from: int) -> Option<
    YamlView,
>
    decreases entries.len() - from,
{
    if from < 0 || from >= entries.len() {
        None
    } else if entries[from].0 == YamlView::Text(key) {
        Some(entries[from].1)
    } else {
        entry_from(entries, key, from + 1)
    }
}

/// The value under the key `key` in a mapping, if the mapping has the key.
pub open spec fn entry(entries: Seq<(YamlView, YamlView)>, key: Seq<char>) -> Option<YamlView> {
    entry_from(entries, key, 0)
}

/// The text of a scalar: a text as it is, a number as it is written, and a
/// truth value as `true` or `false`. Nothing else has a text.
pub open spec fn scalar_text(node: YamlView) -> Option<Seq<char>> {
    match node {
        YamlView::Text(text) => Some(text),
        YamlView::Number(text) => Some(text),
        YamlView::Bool(flag) => Some(
            if flag {
                "true"@
            } else {
                "false"@
            },
        ),
        _ => None,
    }
}

/// The value under a key in a mapping.
pub fn find<'a>(entries: &'a Vec<(YamlNode, YamlNode)>, key: &str) -> (found: Option<&'a YamlNode>)
    ensures
        match entry(entries_view(entries@), key@) {
            Some(value) => found matches Some(node) && node@ == value,
            None => found is None,
        },
{
    let name = key.to_owned();
    let mut i: usize = 0;
    while i < entries.len()
        invariant
            i <= entries.len(),
            name@ == key@,
            entry(entries_view(entries@), key@) == entry_from(
                entries_view(entries@),
                key@,
                i as int,
            ),
        decreases entries.len() - i,
    {
        let same = match &entries[i].0 {
            YamlNode::Text(text) => *text == name,
            _ => false,
        };
        assert(same == (entries_view(entries@)[i as int].0 == YamlView::Text(key@)));
        if same {
            return Some(&entries[i].1);
        }
        i += 1;
    }
    None
}

/// The text of a scalar.
pub fn text_of_scalar(node: &YamlNode) -> (text: Option<String>)
    ensures
        match scalar_text(node@) {
            Some(expected) => text matches Some(given) && given@ == expected,
            None => text is None,
        },
{
    match node {
        YamlNode::Text(text) => Some(text.clone()),
        YamlNode::Number(text) => Some(text.clone()),
        YamlNode::Bool(flag) => if *flag {
            Some("true".to_owned())
        } else {
            Some("false".to_owned())
        },
        _ => None,
    }
}

} // verus!
