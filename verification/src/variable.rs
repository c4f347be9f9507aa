//! The values that a template can read, and how the template engine is
//! handed them.

use vstd::prelude::*;
use crate::text::texts;

verus! {

/// A value of the template engine. What is inside it is not visible here.
#[verifier::external_type_specification]
#[verifier::external_body]
pub struct ExEngineValue(minijinja::Value);

/// A value that a template can read: a text, a list of values, or a record
/// of named values.
#[derive(Debug)]
pub enum Variable {
    Text(String),
    List(Vec<Variable>),
    Record(Vec<(String, Variable)>),
}

/// What a `Variable` holds, as plain text.
pub enum VariableView {
    Text(Seq<char>),
    List(Seq<VariableView>),
    Record(Seq<(Seq<char>, VariableView)>),
}

impl Variable {
    /// What the variable holds, as plain text.
    pub open spec fn shape(self) -> VariableView
        decreases self,
    {
        match self {
            Variable::Text(text) => VariableView::Text(text@),
            Variable::List(items) => VariableView::List(
                Seq::new(
                    items@.len(),
                    |i: int|
                        if 0 <= i < items@.len() {
                            items@[i].shape()
                        } else {
                            VariableView::Text(Seq::empty())
                        },
                ),
            ),
            Variable::Record(fields) => VariableView::Record(
                Seq::new(
                    fields@.len(),
                    |i: int|
                        if 0 <= i < fields@.len() {
                            (fields@[i].0@, fields@[i].1.shape())
                        } else {
                            (Seq::empty(), VariableView::Text(Seq::empty()))
                        },
                ),
            ),
        }
    }
}

impl View for Variable {
    type V = VariableView;

    open spec fn view(&self) -> VariableView {
        self.shape()
    }
}

/// The values of a list, as plain text.
pub open spec fn items_view(items: Seq<Variable>) -> Seq<VariableView> {
    Seq::new(items.len(), |i: int| items[i]@)
}

/// The named values of a record, as plain text.
pub open spec fn fields_view(fields: Seq<(String, Variable)>) -> Seq<(Seq<char>, VariableView)> {
    Seq::new(fields.len(), |i: int| (fields[i].0@, fields[i].1@))
}

/// A text under a name.
pub open spec fn text_field(name: Seq<char>, text: Seq<char>) -> (Seq<char>, VariableView) {
    (name, VariableView::Text(text))
}

/// A list of texts.
pub open spec fn text_list(items: Seq<Seq<char>>) -> VariableView {
    VariableView::List(Seq::new(items.len(), |i: int| VariableView::Text(items[i])))
}

/// A list of lists of texts.
pub open spec fn table_list(rows: Seq<Seq<Seq<char>>>) -> VariableView {
    VariableView::List(Seq::new(rows.len(), |i: int| text_list(rows[i])))
}

proof fn lemma_list_view(items: Vec<Variable>)
    ensures
        Variable::List(items)@ == VariableView::List(items_view(items@)),
{
    let list = Variable::List(items);
    assert(list@->List_0 =~= items_view(items@));
}

proof fn lemma_record_view(fields: Vec<(String, Variable)>)
    ensures
        Variable::Record(fields)@ == VariableView::Record(fields_view(fields@)),
{
    let record = Variable::Record(fields);
    assert(record@->Record_0 =~= fields_view(fields@));
}

/// Puts a value under a name at the end of the fields of a record.
pub fn put(fields: &mut Vec<(String, Variable)>, name: &str, value: Variable)
    ensures
        fields_view(final(fields)@) == fields_view(old(fields)@).push((name@, value@)),
{
    fields.push((name.to_owned(), value));
    assert(fields_view(fields@) =~= fields_view(old(fields)@).push((name@, value@)));
}

/// Puts a text under a name at the end of the fields of a record.
pub fn put_text(fields: &mut Vec<(String, Variable)>, name: &str, text: &String)
    ensures
        fields_view(final(fields)@) == fields_view(old(fields)@).push(text_field(name@, text@)),
{
    put(fields, name, Variable::Text(text.clone()));
}

/// The record of the given fields.
pub fn record(fields: Vec<(String, Variable)>) -> (value: Variable)
    ensures
        value@ == VariableView::Record(fields_view(fields@)),
{
    proof {
        lemma_record_view(fields);
    }
    Variable::Record(fields)
}

/// The list of the given texts.
pub fn list_of_texts(items: &Vec<String>) -> (value: Variable)
    ensures
        value@ == text_list(texts(items@)),
{
    let mut values: Vec<Variable> = Vec::new();
    let mut i: usize = 0;
    while i < items.len()
        invariant
            i <= items.len(),
            values@.len() == i,
            forall|j: int| 0 <= j < i ==> (#[trigger] values@[j])@ == VariableView::Text(items@[j]@),
        decreases items.len() - i,
    {
        values.push(Variable::Text(items[i].clone()));
        i += 1;
    }
    proof {
        lemma_list_view(values);
        assert(items_view(values@) =~= text_list(texts(items@))->List_0);
    }
    Variable::List(values)
}

/// The list of the given rows, each a list of texts.
pub fn list_of_rows(rows: &Vec<Vec<String>>) -> (value: Variable)
    ensures
        value@ == table_list(rows@.map_values(|row: Vec<String>| texts(row@))),
{
    let ghost plain = rows@.map_values(|row: Vec<String>| texts(row@));
    let mut values: Vec<Variable> = Vec::new();
    let mut i: usize = 0;
    while i < rows.len()
        invariant
            i <= rows.len(),
            values@.len() == i,
            plain == rows@.map_values(|row: Vec<String>| texts(row@)),
            forall|j: int| 0 <= j < i ==> (#[trigger] values@[j])@ == text_list(plain[j]),
        decreases rows.len() - i,
    {
        values.push(list_of_texts(&rows[i]));
        i += 1;
    }
    proof {
        lemma_list_view(values);
        assert(items_view(values@) =~= table_list(plain)->List_0);
    }
    Variable::List(values)
}

/// The value of the template engine that stands for a variable.
pub uninterp spec fn engine_value_of(variable: VariableView) -> minijinja::Value;

/// `minijinja::Value::from` on a text, and `collect` of values and of named
/// values into a `minijinja::Value`: the engine's value for a variable, a
/// string for a text, a sequence for a list and a map for a record. It depends
/// on what the variable holds alone.
#[verifier::external_body]
fn engine_value(variable: &Variable) -> (value: minijinja::Value)
    ensures
        value == engine_value_of(variable@),
{
    match variable {
        Variable::Text(text) => minijinja::Value::from(text.as_str()),
        Variable::List(items) => items.iter().map(engine_value).collect(),
        Variable::Record(fields) => fields.iter().map(
            |field| (field.0.as_str(), engine_value(&field.1)),
        ).collect(),
    }
}

impl Variable {
    /// The value of the template engine that stands for this variable.
    pub fn to_engine(&self) -> (value: minijinja::Value)
        ensures
            value == engine_value_of(self@),
    {
        engine_value(self)
    }
}

} // verus!
