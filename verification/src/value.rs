//! The values of the language and the type tags that name their kinds.

use vstd::prelude::*;

verus! {

/// A value as contracts see it.
pub enum Value {
    Text(Seq<char>),
    Int(i32),
    /// A single-precision number, held as its IEEE-754 bit pattern.
    Real(u32),
    Flag(bool),
    /// Declared but never assigned.
    Unset,
}

impl Value {
    /// The type tag under which a variable must be declared to hold this
    /// value; the unset marker has none.
    pub open spec fn tag(self) -> Option<Seq<char>> {
        match self {
            Value::Text(_) => Some("string"@),
            Value::Int(_) => Some("int"@),
            Value::Real(_) => Some("float"@),
            Value::Flag(_) => Some("bool"@),
            Value::Unset => None,
        }
    }
}

/// Whether `tag` is one of the four type tags of the language.
pub open spec fn is_type_tag(tag: Seq<char>) -> bool {
    tag == "string"@ || tag == "int"@ || tag == "float"@ || tag == "bool"@
}

/// The value that a variable of the given type has before its first write.
pub open spec fn zero_value(tag: Seq<char>) -> Option<Value> {
    if tag == "string"@ {
        Some(Value::Text(Seq::<char>::empty()))
    } else if tag == "int"@ {
        Some(Value::Int(0))
    } else if tag == "float"@ {
        Some(Value::Real(0))
    } else if tag == "bool"@ {
        Some(Value::Flag(false))
    } else {
        None
    }
}

/// The runtime value of a variable. `Float` carries the IEEE-754 bit pattern
/// of a single-precision number, so that positive zero is `Float(0)`.
#[derive(Debug, Clone, PartialEq, Eq)]
pub enum VariableType {
    String(String),
    Integer(i32),
    Float(u32),
    Boolean(bool),
    Unset,
}

impl View for VariableType {
    type V = Value;

    open spec fn view(&self) -> Value {
        match self {
            VariableType::String(text) => Value::Text(text@),
            VariableType::Integer(number) => Value::Int(*number),
            VariableType::Float(bits) => Value::Real(*bits),
            VariableType::Boolean(flag) => Value::Flag(*flag),
            VariableType::Unset => Value::Unset,
        }
    }
}

/// Compares a token with a keyword of the language.
pub fn is_word(token: &String, word: &str) -> (same: bool)
    ensures
        same == (token@ == word@),
{
    let keyword = String::from_str(word);
    *token == keyword
}

impl VariableType {
    /// The type tag of this value's kind, if it has one.
    pub fn type_tag(&self) -> (tag: Option<String>)
        ensures
            tag is Some == self@.tag() is Some,
            tag is Some ==> Some(tag->0@) == self@.tag(),
    {
        match self {
            VariableType::String(_) => Some(String::from_str("string")),
            VariableType::Integer(_) => Some(String::from_str("int")),
            VariableType::Float(_) => Some(String::from_str("float")),
            VariableType::Boolean(_) => Some(String::from_str("bool")),
            VariableType::Unset => None,
        }
    }

    /// The zero value of the type named by `tag`, or `None` where `tag`
    /// names no type.
    pub fn zero(tag: &String) -> (value: Option<VariableType>)
        ensures
            value is Some == zero_value(tag@) is Some,
            value is Some ==> Some(value->0@) == zero_value(tag@),
    {
        if is_word(tag, "string") {
            Some(VariableType::String(String::new()))
        } else if is_word(tag, "int") {
            Some(VariableType::Integer(0))
        } else if is_word(tag, "float") {
            Some(VariableType::Float(0))
        } else if is_word(tag, "bool") {
            Some(VariableType::Boolean(false))
        } else {
            None
        }
    }
}

} // verus!
