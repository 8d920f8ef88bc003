use vstd::prelude::*;

verus! {

/// The runtime category of a script value, as the host reports it.
#[derive(Clone, Copy, Debug, PartialEq, Eq, Structural)]
pub enum ValueType {
    Undefined,
    Null,
    Boolean,
    Number,
    String,
    Symbol,
    Object,
    Function,
    External,
    BigInt,
    Unknown,
}

/// The kind that a raw host type code stands for.
pub open spec fn value_type_of(code: i32) -> ValueType {
    if code == 0 {
        ValueType::Undefined
    } else if code == 1 {
        ValueType::Null
    } else if code == 2 {
        ValueType::Boolean
    } else if code == 3 {
        ValueType::Number
    } else if code == 4 {
        ValueType::String
    } else if code == 5 {
        ValueType::Symbol
    } else if code == 6 {
        ValueType::Object
    } else if code == 7 {
        ValueType::Function
    } else if code == 8 {
        ValueType::External
    } else if code == 9 {
        ValueType::BigInt
    } else {
        ValueType::Unknown
    }
}

impl ValueType {
    /// Reads a raw host type code.
    pub fn from_code(code: i32) -> (r: ValueType)
        ensures
            r == value_type_of(code),
    {
        match code {
            0 => ValueType::Undefined,
            1 => ValueType::Null,
            2 => ValueType::Boolean,
            3 => ValueType::Number,
            4 => ValueType::String,
            5 => ValueType::Symbol,
            6 => ValueType::Object,
            7 => ValueType::Function,
            8 => ValueType::External,
            9 => ValueType::BigInt,
            _ => ValueType::Unknown,
        }
    }
}

} // verus!
