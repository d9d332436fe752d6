//! The dynamically typed values that the broker hands out.

use crate::text::str_eq;
use vstd::prelude::*;

verus! {

/// A value of the broker's wire format.
#[derive(Debug)]
pub enum Value {
    Bool(bool),
    U8(u8),
    U16(u16),
    U32(u32),
    I16(i16),
    Str(String),
    Bytes(Vec<u8>),
    Array(Vec<Value>),
    Dict(Vec<(Value, Value)>),
}

impl Value {
    /// The value is the string `text`.
    pub open spec fn is_str(&self, text: Seq<char>) -> bool {
        *self matches Value::Str(s) && s@ == text
    }

    /// The value is a list that holds the string `text`.
    pub open spec fn holds_str(&self, text: Seq<char>) -> bool {
        *self matches Value::Array(items) && exists|i: int|
            0 <= i < items@.len() && (#[trigger] items@[i]).is_str(text)
    }

    /// The string, if the value is one.
    pub fn as_str(&self) -> (r: Option<&str>)
        ensures
            match r {
                Some(s) => self.is_str(s@),
                None => !(*self is Str),
            },
    {
        match self {
            Value::Str(s) => Some(s.as_str()),
            _ => None,
        }
    }

    /// The truth value, if the value is one.
    pub fn as_bool(&self) -> (r: Option<bool>)
        ensures
            match r {
                Some(b) => *self == Value::Bool(b),
                None => !(*self is Bool),
            },
    {
        match self {
            Value::Bool(b) => Some(*b),
            _ => None,
        }
    }

    /// The byte, if the value is one.
    pub fn as_u8(&self) -> (r: Option<u8>)
        ensures
            match r {
                Some(n) => *self == Value::U8(n),
                None => !(*self is U8),
            },
    {
        match self {
            Value::U8(n) => Some(*n),
            _ => None,
        }
    }

    /// The unsigned 16-bit integer, if the value is one.
    pub fn as_u16(&self) -> (r: Option<u16>)
        ensures
            match r {
                Some(n) => *self == Value::U16(n),
                None => !(*self is U16),
            },
    {
        match self {
            Value::U16(n) => Some(*n),
            _ => None,
        }
    }

    /// The unsigned 32-bit integer, if the value is one.
    pub fn as_u32(&self) -> (r: Option<u32>)
        ensures
            match r {
                Some(n) => *self == Value::U32(n),
                None => !(*self is U32),
            },
    {
        match self {
            Value::U32(n) => Some(*n),
            _ => None,
        }
    }

    /// The signed 16-bit integer, if the value is one.
    pub fn as_i16(&self) -> (r: Option<i16>)
        ensures
            match r {
                Some(n) => *self == Value::I16(n),
                None => !(*self is I16),
            },
    {
        match self {
            Value::I16(n) => Some(*n),
            _ => None,
        }
    }

    /// The bytes, if the value is a byte string.
    pub fn as_bytes(&self) -> (r: Option<&Vec<u8>>)
        ensures
            match r {
                Some(b) => *self == Value::Bytes(*b),
                None => !(*self is Bytes),
            },
    {
        match self {
            Value::Bytes(b) => Some(b),
            _ => None,
        }
    }

    /// The items, if the value is a list.
    pub fn as_iter(&self) -> (r: Option<&Vec<Value>>)
        ensures
            match r {
                Some(items) => *self == Value::Array(*items),
                None => !(*self is Array),
            },
    {
        match self {
            Value::Array(items) => Some(items),
            _ => None,
        }
    }

    /// The entries, if the value is a dictionary.
    pub fn as_dict(&self) -> (r: Option<&Vec<(Value, Value)>>)
        ensures
            match r {
                Some(entries) => *self == Value::Dict(*entries),
                None => !(*self is Dict),
            },
    {
        match self {
            Value::Dict(entries) => Some(entries),
            _ => None,
        }
    }

    /// Tells whether the value is the string `text`.
    pub fn equals_str(&self, text: &str) -> (r: bool)
        ensures
            r == self.is_str(text@),
    {
        match self {
            Value::Str(s) => str_eq(s.as_str(), text),
            _ => false,
        }
    }

    /// Tells whether the value is a list that holds the string `text`.
    pub fn contains_str(&self, text: &str) -> (r: bool)
        ensures
            r == self.holds_str(text@),
    {
        match self {
            Value::Array(items) => {
                let mut i: usize = 0;
                while i < items.len()
                    invariant
                        i <= items@.len(),
                        *self == Value::Array(*items),
                        forall|j: int| 0 <= j < i ==> !(#[trigger] items@[j]).is_str(text@),
                    decreases items@.len() - i,
                {
                    if items[i].equals_str(text) {
                        assert(self->Array_0@ == items@);
                        assert(items@[i as int].is_str(text@));
                        return true;
                    }
                    i = i + 1;
                }
                false
            },
            _ => false,
        }
    }
}

} // verus!
