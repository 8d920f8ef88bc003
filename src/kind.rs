use vstd::prelude::*;
use vstd::string::StringExecFns;

use crate::status::{Error, Mismatch, Status};
use crate::value_type::ValueType;

verus! {

/// A structural requirement beyond the kind tag: an object that is
/// specifically an array, a typed-array view, and so on.
#[derive(Clone, Copy, Debug, PartialEq, Eq, Structural)]
pub enum Shape {
    Plain,
    Array,
    ArrayBuffer,
    Buffer,
    TypedArray,
    DataView,
    Date,
    Promise,
    Error,
}

/// What a value kind expects of a handle: a kind tag and a shape.
/// The tag `Unknown` accepts every handle.
#[derive(Clone, Copy, Debug, PartialEq, Eq, Structural)]
pub struct KindSpec {
    pub value_type: ValueType,
    pub shape: Shape,
}

/// What the host reports of one handle: its kind tag and the answers of its
/// structural probes.
#[derive(Clone, Copy, Debug, PartialEq, Eq, Structural)]
pub struct HandleFacts {
    pub value_type: ValueType,
    pub is_array: bool,
    pub is_arraybuffer: bool,
    pub is_buffer: bool,
    pub is_typedarray: bool,
    pub is_dataview: bool,
    pub is_date: bool,
    pub is_promise: bool,
    pub is_error: bool,
}

pub open spec fn has_shape(f: HandleFacts, shape: Shape) -> bool {
    match shape {
        Shape::Plain => true,
        Shape::Array => f.is_array,
        Shape::ArrayBuffer => f.is_arraybuffer,
        Shape::Buffer => f.is_buffer,
        Shape::TypedArray => f.is_typedarray,
        Shape::DataView => f.is_dataview,
        Shape::Date => f.is_date,
        Shape::Promise => f.is_promise,
        Shape::Error => f.is_error,
    }
}

/// Whether a handle with these facts is of the kind `k`.
pub open spec fn admits(k: KindSpec, f: HandleFacts) -> bool {
    k.value_type == ValueType::Unknown || (f.value_type == k.value_type && has_shape(f, k.shape))
}

/// The kind that asks for a tag and nothing more.
pub open spec fn plain(t: ValueType) -> KindSpec {
    KindSpec { value_type: t, shape: Shape::Plain }
}

pub open spec fn type_name_of(t: ValueType) -> Seq<char> {
    match t {
        ValueType::Undefined => "undefined"@,
        ValueType::Null => "null"@,
        ValueType::Boolean => "boolean"@,
        ValueType::Number => "number"@,
        ValueType::String => "string"@,
        ValueType::Symbol => "symbol"@,
        ValueType::Object => "object"@,
        ValueType::Function => "function"@,
        ValueType::External => "external"@,
        ValueType::BigInt => "bigint"@,
        ValueType::Unknown => "unknown"@,
    }
}

pub open spec fn shape_name_of(s: Shape) -> Seq<char> {
    match s {
        Shape::Plain => "object"@,
        Shape::Array => "Array"@,
        Shape::ArrayBuffer => "ArrayBuffer"@,
        Shape::Buffer => "Buffer"@,
        Shape::TypedArray => "TypedArray"@,
        Shape::DataView => "DataView"@,
        Shape::Date => "Date"@,
        Shape::Promise => "Promise"@,
        Shape::Error => "Error"@,
    }
}

pub open spec fn kind_name_of(k: KindSpec) -> Seq<char> {
    if k.shape == Shape::Plain {
        type_name_of(k.value_type)
    } else {
        shape_name_of(k.shape)
    }
}

/// The reason text of a failed validation.
pub open spec fn mismatch_reason(k: KindSpec, actual: ValueType) -> Seq<char> {
    "Expect value to be "@ + kind_name_of(k) + ", but received "@ + type_name_of(actual)
}

impl ValueType {
    /// The display name used in error messages.
    pub fn name(&self) -> (r: &'static str)
        ensures
            r@ == type_name_of(*self),
    {
        match self {
            ValueType::Undefined => "undefined",
            ValueType::Null => "null",
            ValueType::Boolean => "boolean",
            ValueType::Number => "number",
            ValueType::String => "string",
            ValueType::Symbol => "symbol",
            ValueType::Object => "object",
            ValueType::Function => "function",
            ValueType::External => "external",
            ValueType::BigInt => "bigint",
            ValueType::Unknown => "unknown",
        }
    }
}

impl KindSpec {
    /// The kind that asks for the tag `t` and nothing more.
    pub fn plain(t: ValueType) -> (r: KindSpec)
        ensures
            r == plain(t),
    {
        KindSpec { value_type: t, shape: Shape::Plain }
    }

    /// The canonical display name of this kind.
    pub fn name(&self) -> (r: &'static str)
        ensures
            r@ == kind_name_of(*self),
    {
        match self.shape {
            Shape::Plain => self.value_type.name(),
            Shape::Array => "Array",
            Shape::ArrayBuffer => "ArrayBuffer",
            Shape::Buffer => "Buffer",
            Shape::TypedArray => "TypedArray",
            Shape::DataView => "DataView",
            Shape::Date => "Date",
            Shape::Promise => "Promise",
            Shape::Error => "Error",
        }
    }
}

impl HandleFacts {
    /// Facts of a handle whose structural probes all answered no.
    pub fn of_type(t: ValueType) -> (r: HandleFacts)
        ensures
            r.value_type == t,
            forall|s: Shape| s != Shape::Plain ==> !has_shape(r, s),
    {
        HandleFacts {
            value_type: t,
            is_array: false,
            is_arraybuffer: false,
            is_buffer: false,
            is_typedarray: false,
            is_dataview: false,
            is_date: false,
            is_promise: false,
            is_error: false,
        }
    }

    /// Whether the probe that `shape` calls for answered yes.
    pub fn has_shape(&self, shape: Shape) -> (r: bool)
        ensures
            r == has_shape(*self, shape),
    {
        match shape {
            Shape::Plain => true,
            Shape::Array => self.is_array,
            Shape::ArrayBuffer => self.is_arraybuffer,
            Shape::Buffer => self.is_buffer,
            Shape::TypedArray => self.is_typedarray,
            Shape::DataView => self.is_dataview,
            Shape::Date => self.is_date,
            Shape::Promise => self.is_promise,
            Shape::Error => self.is_error,
        }
    }
}

/// Whether a handle with these facts is of the kind `k`.
pub fn admits_exec(k: KindSpec, f: HandleFacts) -> (r: bool)
    ensures
        r == admits(k, f),
{
    match k.value_type {
        ValueType::Unknown => true,
        _ => f.value_type == k.value_type && f.has_shape(k.shape),
    }
}

/// Confirms that a handle is of the kind `k`, or fails with a type mismatch
/// that names `k` as expected and the reported tag as found.
pub fn validate(k: KindSpec, f: HandleFacts) -> (r: Result<(), Error>)
    ensures
        r is Ok <==> admits(k, f),
        r is Err ==> r->Err_0.status == Status::InvalidArg
            && r->Err_0.mismatch == Some(Mismatch { expected: k, actual: f.value_type })
            && r->Err_0.reason@ == mismatch_reason(k, f.value_type),
{
    if admits_exec(k, f) {
        Ok(())
    } else {
        let mut reason = String::from_str("Expect value to be ");
        reason.append(k.name());
        reason.append(", but received ");
        reason.append(f.value_type.name());
        Err(Error {
            status: Status::InvalidArg,
            reason,
            mismatch: Some(Mismatch { expected: k, actual: f.value_type }),
        })
    }
}

/// The first alternative that admits the handle, if any does.
pub open spec fn first_admitting(alts: Seq<KindSpec>, f: HandleFacts, i: int) -> bool {
    0 <= i < alts.len() && admits(alts[i], f) && forall|j: int| 0 <= j < i ==> !admits(alts[j], f)
}

/// Validation of a union kind: tries each alternative in order and succeeds
/// with the index of the first that admits the handle; fails only when none
/// does.
pub fn validate_either(alts: &Vec<KindSpec>, f: HandleFacts) -> (r: Result<usize, Error>)
    ensures
        r is Ok ==> first_admitting(alts@, f, r->Ok_0 as int),
        r is Err <==> forall|j: int| 0 <= j < alts@.len() ==> !admits(alts@[j], f),
        r is Err ==> r->Err_0.status == Status::InvalidArg,
{
    let mut i: usize = 0;
    while i < alts.len()
        invariant
            i <= alts@.len(),
            forall|j: int| 0 <= j < i ==> !admits(alts@[j], f),
        decreases alts@.len() - i,
    {
        if admits_exec(alts[i], f) {
            return Ok(i);
        }
        i = i + 1;
    }
    let mut reason = String::from_str("Value is none of the expected kinds, received ");
    reason.append(f.value_type.name());
    Err(Error { status: Status::InvalidArg, reason, mismatch: None })
}

} // verus!
