use vstd::prelude::*;

use crate::kind::{admits, kind_name_of, plain, validate, HandleFacts, KindSpec};
use crate::status::{Error, Mismatch, Status};
use crate::value_type::ValueType;

verus! {

/// A raw handle: the engine context it belongs to, the host's opaque token
/// for the value, and the kind it was last confirmed to have. It owns no
/// engine memory and is only meaningful within its context.
#[derive(Clone, Copy, Debug, PartialEq, Eq, Structural)]
pub struct Value {
    pub env: usize,
    pub value: usize,
    pub value_type: ValueType,
}

/// A value kind: its display name and the kind it expects of a handle.
pub trait TypeName {
    spec fn kind_spec() -> KindSpec;

    fn display_name() -> (r: &'static str)
        ensures
            r@ == kind_name_of(Self::kind_spec()),
    ;

    fn kind() -> (r: KindSpec)
        ensures
            r == Self::kind_spec(),
    ;

    fn value_type() -> (r: ValueType)
        ensures
            r == Self::kind_spec().value_type,
    ;
}

/// Access to the raw host token of a typed handle.
pub trait NapiRaw {
    spec fn spec_raw(&self) -> usize;

    fn raw(&self) -> (r: usize)
        ensures
            r == self.spec_raw(),
    ;
}

/// Operations available on every typed handle, whatever its kind.
pub trait JsValue: Sized {
    spec fn spec_value(&self) -> Value;

    fn value(&self) -> (r: Value)
        ensures
            r == self.spec_value(),
    ;

    /// Erases the kind: the same handle, tagged as unknown.
    fn to_unknown(&self) -> (r: Unknown)
        ensures
            r.0 == erase(self.spec_value()),
    {
        let v = self.value();
        Unknown(Value { env: v.env, value: v.value, value_type: ValueType::Unknown })
    }
}

/// Marker of the kinds that expose the object capability (property,
/// element and prototype access).
pub trait JsObjectValue: JsValue {

}

/// A typed handle that can be built from a raw one.
pub trait NapiValue: TypeName + JsValue {
    /// Wraps a raw handle without looking at it; the caller vouches for its
    /// kind.
    fn from_raw_unchecked(env: usize, value: usize) -> (r: Self)
        ensures
            r.spec_value() == tagged(env, value, Self::kind_spec().value_type),
    ;
}

pub open spec fn tagged(env: usize, value: usize, t: ValueType) -> Value {
    Value { env, value, value_type: t }
}

/// The same handle with its kind forgotten.
pub open spec fn erase(v: Value) -> Value {
    Value { env: v.env, value: v.value, value_type: ValueType::Unknown }
}

/// Builds a typed handle from a raw one, checking first that the host's
/// facts about it admit the kind.
pub fn from_raw<T: NapiValue>(env: usize, value: usize, facts: HandleFacts) -> (r: Result<T, Error>)
    ensures
        r is Ok <==> admits(T::kind_spec(), facts),
        r is Ok ==> r->Ok_0.spec_value() == tagged(env, value, T::kind_spec().value_type),
        r is Err ==> r->Err_0.status == Status::InvalidArg && r->Err_0.mismatch == Some(
            Mismatch { expected: T::kind_spec(), actual: facts.value_type },
        ),
{
    validate(T::kind(), facts)?;
    Ok(T::from_raw_unchecked(env, value))
}

/// Converts a raw handle into a typed value without validation. For the
/// handle kinds this only wraps it, so it never fails.
pub fn from_napi_value<T: NapiValue>(env: usize, value: usize) -> (r: Result<T, Error>)
    ensures
        r is Ok,
        r->Ok_0.spec_value() == tagged(env, value, T::kind_spec().value_type),
{
    Ok(T::from_raw_unchecked(env, value))
}

/// The raw token that represents a typed handle in the host.
pub fn to_napi_value<T: NapiRaw>(v: &T) -> (r: usize)
    ensures
        r == v.spec_raw(),
{
    v.raw()
}

/// A handle of the universal kind, which accepts any value.
#[derive(Clone, Copy, Debug)]
pub struct Unknown(pub Value);

/// A handle to the null value.
#[derive(Clone, Copy, Debug)]
pub struct JsNull(pub Value);

/// A handle to a symbol.
#[derive(Clone, Copy, Debug)]
pub struct JsSymbol(pub Value);

/// A handle to an external value: native data owned by the embedder.
#[derive(Clone, Copy, Debug)]
pub struct JsExternal(pub Value);

/// A handle to an object.
#[derive(Clone, Copy, Debug)]
pub struct JsObject(pub Value);

impl TypeName for Unknown {
    open spec fn kind_spec() -> KindSpec {
        plain(ValueType::Unknown)
    }

    fn display_name() -> (r: &'static str) {
        "unknown"
    }

    fn kind() -> (r: KindSpec) {
        KindSpec::plain(ValueType::Unknown)
    }

    fn value_type() -> (r: ValueType) {
        ValueType::Unknown
    }
}

impl TypeName for JsNull {
    open spec fn kind_spec() -> KindSpec {
        plain(ValueType::Null)
    }

    fn display_name() -> (r: &'static str) {
        "null"
    }

    fn kind() -> (r: KindSpec) {
        KindSpec::plain(ValueType::Null)
    }

    fn value_type() -> (r: ValueType) {
        ValueType::Null
    }
}

impl TypeName for JsSymbol {
    open spec fn kind_spec() -> KindSpec {
        plain(ValueType::Symbol)
    }

    fn display_name() -> (r: &'static str) {
        "symbol"
    }

    fn kind() -> (r: KindSpec) {
        KindSpec::plain(ValueType::Symbol)
    }

    fn value_type() -> (r: ValueType) {
        ValueType::Symbol
    }
}

impl TypeName for JsExternal {
    open spec fn kind_spec() -> KindSpec {
        plain(ValueType::External)
    }

    fn display_name() -> (r: &'static str) {
        "external"
    }

    fn kind() -> (r: KindSpec) {
        KindSpec::plain(ValueType::External)
    }

    fn value_type() -> (r: ValueType) {
        ValueType::External
    }
}

impl TypeName for JsObject {
    open spec fn kind_spec() -> KindSpec {
        plain(ValueType::Object)
    }

    fn display_name() -> (r: &'static str) {
        "object"
    }

    fn kind() -> (r: KindSpec) {
        KindSpec::plain(ValueType::Object)
    }

    fn value_type() -> (r: ValueType) {
        ValueType::Object
    }
}

impl JsValue for Unknown {
    open spec fn spec_value(&self) -> Value {
        self.0
    }

    fn value(&self) -> (r: Value) {
        self.0
    }
}

impl JsValue for JsNull {
    open spec fn spec_value(&self) -> Value {
        self.0
    }

    fn value(&self) -> (r: Value) {
        self.0
    }
}

impl JsValue for JsSymbol {
    open spec fn spec_value(&self) -> Value {
        self.0
    }

    fn value(&self) -> (r: Value) {
        self.0
    }
}

impl JsValue for JsExternal {
    open spec fn spec_value(&self) -> Value {
        self.0
    }

    fn value(&self) -> (r: Value) {
        self.0
    }
}

impl JsValue for JsObject {
    open spec fn spec_value(&self) -> Value {
        self.0
    }

    fn value(&self) -> (r: Value) {
        self.0
    }
}

impl JsObjectValue for JsObject {

}

impl NapiValue for Unknown {
    fn from_raw_unchecked(env: usize, value: usize) -> (r: Self) {
        Unknown(Value { env, value, value_type: ValueType::Unknown })
    }
}

impl NapiValue for JsNull {
    fn from_raw_unchecked(env: usize, value: usize) -> (r: Self) {
        JsNull(Value { env, value, value_type: ValueType::Null })
    }
}

impl NapiValue for JsSymbol {
    fn from_raw_unchecked(env: usize, value: usize) -> (r: Self) {
        JsSymbol(Value { env, value, value_type: ValueType::Symbol })
    }
}

impl NapiValue for JsExternal {
    fn from_raw_unchecked(env: usize, value: usize) -> (r: Self) {
        JsExternal(Value { env, value, value_type: ValueType::External })
    }
}

impl NapiValue for JsObject {
    fn from_raw_unchecked(env: usize, value: usize) -> (r: Self) {
        JsObject(Value { env, value, value_type: ValueType::Object })
    }
}

impl<T: JsValue> NapiRaw for T {
    open spec fn spec_raw(&self) -> usize {
        self.spec_value().value
    }

    fn raw(&self) -> (r: usize) {
        self.value().value
    }
}

impl Unknown {
    /// Wraps a raw handle as unknown; any handle may be.
    pub fn from_raw_unchecked(env: usize, value: usize) -> (r: Unknown)
        ensures
            r.0 == tagged(env, value, ValueType::Unknown),
    {
        Unknown(Value { env, value, value_type: ValueType::Unknown })
    }

    /// The kind that the host reports for this handle, read from its raw
    /// type code.
    pub fn get_type(&self, type_code: i32) -> (r: ValueType)
        ensures
            r == crate::value_type::value_type_of(type_code),
    {
        ValueType::from_code(type_code)
    }

    /// Recovers a specific kind, checking it against the host's facts.
    pub fn validate<T: NapiValue>(&self, facts: HandleFacts) -> (r: Result<T, Error>)
        ensures
            r is Ok <==> admits(T::kind_spec(), facts),
            r is Ok ==> r->Ok_0.spec_value() == tagged(self.0.env, self.0.value, T::kind_spec().value_type),
            r is Err ==> r->Err_0.mismatch == Some(
                Mismatch { expected: T::kind_spec(), actual: facts.value_type },
            ),
    {
        from_raw::<T>(self.0.env, self.0.value, facts)
    }

    /// Recovers a specific kind without checking it; the caller has
    /// established the kind by other means (a kind probe).
    pub fn cast<T: NapiValue>(&self) -> (r: T)
        ensures
            r.spec_value() == tagged(self.0.env, self.0.value, T::kind_spec().value_type),
    {
        T::from_raw_unchecked(self.0.env, self.0.value)
    }
}

} // verus!
