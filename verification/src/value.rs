//! The values that travel in the body of a message, as plain data.

use vstd::prelude::*;
use crate::dict::Dict;
use crate::path::ObjectPath;

verus! {

/// The value of one sensor option. The schema of the options belongs to the
/// daemon, so a value may have any of the basic types of the bus.
#[derive(Debug, PartialEq, Eq)]
pub enum OptionValue {
    Bool(bool),
    I32(i32),
    U32(u32),
    I64(i64),
    U64(u64),
    /// A double, given by the bits of its IEEE 754 representation.
    Double(u64),
    Str(String),
}

/// What an [`OptionValue`] holds, with strings as sequences of characters.
pub enum OptionValueView {
    Bool(bool),
    I32(i32),
    U32(u32),
    I64(i64),
    U64(u64),
    Double(u64),
    Str(Seq<char>),
}

impl DeepView for OptionValue {
    type V = OptionValueView;

    open spec fn deep_view(&self) -> OptionValueView {
        match self {
            OptionValue::Bool(b) => OptionValueView::Bool(*b),
            OptionValue::I32(n) => OptionValueView::I32(*n),
            OptionValue::U32(n) => OptionValueView::U32(*n),
            OptionValue::I64(n) => OptionValueView::I64(*n),
            OptionValue::U64(n) => OptionValueView::U64(*n),
            OptionValue::Double(bits) => OptionValueView::Double(*bits),
            OptionValue::Str(s) => OptionValueView::Str(s@),
        }
    }
}

/// One value in the body of a message: an argument of a call, a field of a
/// reply, the value of a property or the payload of a signal.
///
/// A value that the bus wraps in a variant is represented by the value
/// inside it.
#[derive(Debug, PartialEq, Eq)]
pub enum Value {
    Bool(bool),
    U32(u32),
    U64(u64),
    /// A double, given by the bits of its IEEE 754 representation.
    Double(u64),
    Str(String),
    /// A string sent with the type of an object path. It has not been
    /// checked against the grammar of object paths.
    Path(String),
    /// The number of a file descriptor that accompanies the message.
    Fd(i32),
    StrArray(Vec<String>),
    PathArray(Vec<String>),
    /// An array of doubles, each given by its bits.
    DoubleArray(Vec<u64>),
    /// A dictionary from strings to strings.
    Dict(Dict<String>),
    /// A dictionary from strings to loosely typed values.
    Options(Dict<OptionValue>),
}

/// The characters of each string of `texts`.
pub open spec fn characters(texts: Seq<&str>) -> Seq<Seq<char>> {
    texts.map_values(|text: &str| text@)
}

impl Value {
    /// A string value with the characters of `text`.
    pub fn text(text: &str) -> (value: Value)
        ensures
            value.deep_view() == ValueView::Str(text@),
    {
        Value::Str(text.to_owned())
    }

    /// A reference to the object at `path`.
    pub fn reference(path: &ObjectPath) -> (value: Value)
        ensures
            value.deep_view() == ValueView::Path(path@),
    {
        Value::Path(path.as_str().to_owned())
    }

    /// An array with one string for each string of `texts`, in their order.
    pub fn texts(texts: &[&str]) -> (value: Value)
        ensures
            value.deep_view() == ValueView::StrArray(characters(texts@)),
    {
        let mut copies: Vec<String> = Vec::with_capacity(texts.len());
        let mut i: usize = 0;
        while i < texts.len()
            invariant
                i <= texts@.len(),
                copies@.len() == i,
                forall|j: int| 0 <= j < i ==> (#[trigger] copies@[j])@ == texts@[j]@,
            decreases texts.len() - i,
        {
            copies.push(texts[i].to_owned());
            i = i + 1;
        }
        assert(copies.deep_view() =~= characters(texts@));
        Value::StrArray(copies)
    }
}

/// What a [`Value`] holds, with strings as sequences of characters, arrays
/// as sequences and dictionaries as maps.
pub enum ValueView {
    Bool(bool),
    U32(u32),
    U64(u64),
    Double(u64),
    Str(Seq<char>),
    Path(Seq<char>),
    Fd(i32),
    StrArray(Seq<Seq<char>>),
    PathArray(Seq<Seq<char>>),
    DoubleArray(Seq<u64>),
    Dict(Map<Seq<char>, Seq<char>>),
    Options(Map<Seq<char>, OptionValueView>),
}

impl DeepView for Value {
    type V = ValueView;

    open spec fn deep_view(&self) -> ValueView {
        match self {
            Value::Bool(b) => ValueView::Bool(*b),
            Value::U32(n) => ValueView::U32(*n),
            Value::U64(n) => ValueView::U64(*n),
            Value::Double(bits) => ValueView::Double(*bits),
            Value::Str(s) => ValueView::Str(s@),
            Value::Path(s) => ValueView::Path(s@),
            Value::Fd(n) => ValueView::Fd(*n),
            Value::StrArray(v) => ValueView::StrArray(v.deep_view()),
            Value::PathArray(v) => ValueView::PathArray(v.deep_view()),
            Value::DoubleArray(v) => ValueView::DoubleArray(v@),
            Value::Dict(d) => ValueView::Dict(d.deep_view()),
            Value::Options(d) => ValueView::Options(d.deep_view()),
        }
    }
}

} // verus!
