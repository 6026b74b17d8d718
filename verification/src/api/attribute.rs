//! Attributes: the key/value pairs attached to spans, events and links.
use vstd::prelude::*;

verus! {

/// The value of an attribute.
#[derive(Debug, PartialEq)]
pub enum Value {
    /// A truth value.
    Bool(bool),
    /// A signed integer.
    I64(i64),
    /// An unsigned integer.
    U64(u64),
    /// A string.
    String(String),
    /// A sequence of bytes.
    Bytes(Vec<u8>),
}

/// The mathematical value of a [`Value`].
pub enum ValueView {
    Bool(bool),
    I64(i64),
    U64(u64),
    String(Seq<char>),
    Bytes(Seq<u8>),
}

impl View for Value {
    type V = ValueView;

    open spec fn view(&self) -> ValueView {
        match *self {
            Value::Bool(b) => ValueView::Bool(b),
            Value::I64(n) => ValueView::I64(n),
            Value::U64(n) => ValueView::U64(n),
            Value::String(s) => ValueView::String(s@),
            Value::Bytes(b) => ValueView::Bytes(b@),
        }
    }
}

impl Clone for Value {
    fn clone(&self) -> (copy: Value)
        ensures
            copy@ == self@,
    {
        match self {
            Value::Bool(b) => Value::Bool(*b),
            Value::I64(n) => Value::I64(*n),
            Value::U64(n) => Value::U64(*n),
            Value::String(s) => Value::String(s.clone()),
            Value::Bytes(b) => Value::Bytes(b.clone()),
        }
    }
}

/// One attribute: a key and its value.
#[derive(Debug, PartialEq)]
pub struct KeyValue {
    /// The name of the attribute.
    pub key: String,
    /// What it is set to.
    pub value: Value,
}

/// The mathematical value of a [`KeyValue`].
pub struct KeyValueView {
    pub key: Seq<char>,
    pub value: ValueView,
}

impl View for KeyValue {
    type V = KeyValueView;

    open spec fn view(&self) -> KeyValueView {
        KeyValueView { key: self.key@, value: self.value@ }
    }
}

impl KeyValue {
    /// An attribute with the given key and value.
    pub fn new(key: String, value: Value) -> (kv: KeyValue)
        ensures
            kv@ == (KeyValueView { key: key@, value: value@ }),
    {
        KeyValue { key, value }
    }
}

impl Clone for KeyValue {
    fn clone(&self) -> (copy: KeyValue)
        ensures
            copy@ == self@,
    {
        KeyValue { key: self.key.clone(), value: self.value.clone() }
    }
}

/// The mathematical value of a list of attributes.
pub open spec fn attributes_view(attributes: Seq<KeyValue>) -> Seq<KeyValueView> {
    attributes.map_values(|kv: KeyValue| kv@)
}

/// A copy of a list of attributes.
pub fn clone_attributes(attributes: &Vec<KeyValue>) -> (copy: Vec<KeyValue>)
    ensures
        attributes_view(copy@) == attributes_view(attributes@),
{
    let mut copy: Vec<KeyValue> = Vec::new();
    let mut i: usize = 0;
    while i < attributes.len()
        invariant
            i <= attributes.len(),
            copy.len() == i,
            forall|j: int| 0 <= j < i ==> (#[trigger] copy@[j])@ == attributes@[j]@,
        decreases attributes.len() - i,
    {
        copy.push(attributes[i].clone());
        i += 1;
    }
    copy
}

} // verus!
