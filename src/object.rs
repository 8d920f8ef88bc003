use vstd::prelude::*;
use vstd::string::{StringExecFns, StringSliceAdditionalSpecFns};

use crate::handle::{from_napi_value, from_raw, tagged, NapiValue, TypeName, JsValue};
use crate::kind::{admits, mismatch_reason, HandleFacts};
use crate::status::{check_status, check_status_with, is_success, status_of, Error, Mismatch, Status};

verus! {

/// Where the array-length operation stands: the host call it asks for next,
/// or its outcome.
#[derive(Debug)]
pub enum ArrayLengthStep {
    ProbeIsArray,
    ReadLength,
    Finished(Result<u32, Error>),
}

/// The first step of reading an array's length. The checked form probes
/// whether the value is an array first; the unchecked form goes straight to
/// the length call.
pub fn start_array_length(checked: bool) -> (r: ArrayLengthStep)
    ensures
        checked ==> r is ProbeIsArray,
        !checked ==> r is ReadLength,
{
    if checked {
        ArrayLengthStep::ProbeIsArray
    } else {
        ArrayLengthStep::ReadLength
    }
}

/// The step after the is-array probe returned `code` and wrote `is_array`:
/// the length call only for an array, an array-expected error otherwise.
pub fn on_is_array(code: i32, is_array: bool) -> (r: ArrayLengthStep)
    ensures
        !is_success(code) ==> (r matches ArrayLengthStep::Finished(Err(e)) && e.status == status_of(code)),
        is_success(code) && !is_array ==> (r matches ArrayLengthStep::Finished(Err(e))
            && e.status == Status::ArrayExpected && e.mismatch is None),
        is_success(code) && is_array ==> r is ReadLength,
{
    match check_status(code) {
        Err(e) => ArrayLengthStep::Finished(Err(e)),
        Ok(()) => {
            if is_array {
                ArrayLengthStep::ReadLength
            } else {
                ArrayLengthStep::Finished(
                    Err(Error::new(Status::ArrayExpected, String::from_str("Object is not array"))),
                )
            }
        },
    }
}

/// The outcome after the length call returned `code` and wrote `length`.
pub fn on_array_length(code: i32, length: u32) -> (r: ArrayLengthStep)
    ensures
        is_success(code) ==> (r matches ArrayLengthStep::Finished(Ok(n)) && n == length),
        !is_success(code) ==> (r matches ArrayLengthStep::Finished(Err(e)) && e.status == status_of(code)),
{
    match check_status(code) {
        Err(e) => ArrayLengthStep::Finished(Err(e)),
        Ok(()) => ArrayLengthStep::Finished(Ok(length)),
    }
}

/// The reason of an error met while reading the named property `name`.
pub open spec fn property_annotation(name: Seq<char>, reason: Seq<char>) -> Seq<char> {
    "Object property '"@ + name + "' type mismatch. "@ + reason
}

/// Names the property in an error met while reading it; status and
/// mismatch are kept.
pub fn annotate_property_error(name: &str, err: Error) -> (r: Error)
    ensures
        r.status == err.status,
        r.mismatch == err.mismatch,
        r.reason@ == property_annotation(name@, err.reason@),
{
    let mut reason = String::from_str("Object property '");
    reason.append(name);
    reason.append("' type mismatch. ");
    reason.append(err.reason.as_str());
    Error { status: err.status, reason, mismatch: err.mismatch }
}

/// Whether a name can be handed to the host as a C string: it holds no NUL.
pub open spec fn is_c_name(bytes: Seq<u8>) -> bool {
    forall|i: int| 0 <= i < bytes.len() ==> bytes[i] != 0
}

/// Checks that a property name holds no NUL byte, which the host cannot take.
pub fn check_property_name(name: &str) -> (r: Result<(), Error>)
    ensures
        r is Ok <==> is_c_name(name.spec_bytes()),
        r is Err ==> r->Err_0.status == Status::InvalidArg,
{
    let bytes = name.as_bytes();
    let mut i: usize = 0;
    while i < bytes.len()
        invariant
            bytes@ == name.spec_bytes(),
            i <= bytes@.len(),
            forall|j: int| 0 <= j < i ==> bytes@[j] != 0,
        decreases bytes@.len() - i,
    {
        if bytes[i] == 0 {
            return Err(
                Error::new(
                    Status::InvalidArg,
                    String::from_str("property name holds a nul byte"),
                ),
            );
        }
        i = i + 1;
    }
    Ok(())
}

/// Checked read of the named property `name`: the host's get call returned
/// `code` and wrote the handle `value`, of which the host reports `facts`.
/// The value must be of kind `T`; a mismatch names the property.
pub fn finish_get_named_property<T: NapiValue>(
    name: &str,
    code: i32,
    env: usize,
    value: usize,
    facts: HandleFacts,
) -> (r: Result<T, Error>)
    ensures
        r is Ok <==> is_success(code) && admits(T::kind_spec(), facts),
        r is Ok ==> r->Ok_0.spec_value() == tagged(env, value, T::kind_spec().value_type),
        !is_success(code) ==> r->Err_0.status == status_of(code) && r->Err_0.mismatch is None,
        is_success(code) && !admits(T::kind_spec(), facts) ==> r->Err_0.status == Status::InvalidArg
            && r->Err_0.mismatch == Some(Mismatch { expected: T::kind_spec(), actual: facts.value_type })
            && r->Err_0.reason@ == property_annotation(
                name@,
                mismatch_reason(T::kind_spec(), facts.value_type),
            ),
{
    check_status_with(code, "get_named_property error")?;
    match crate::kind::validate(T::kind(), facts) {
        Err(e) => Err(annotate_property_error(name, e)),
        Ok(()) => from_napi_value::<T>(env, value),
    }
}

/// Unchecked read of a named property: no validation, so it succeeds
/// whenever the host's get call did.
pub fn finish_get_named_property_unchecked<T: NapiValue>(code: i32, env: usize, value: usize) -> (r:
    Result<T, Error>)
    ensures
        r is Ok <==> is_success(code),
        r is Ok ==> r->Ok_0.spec_value() == tagged(env, value, T::kind_spec().value_type),
        r is Err ==> r->Err_0.status == status_of(code) && r->Err_0.mismatch is None,
{
    check_status_with(code, "get_named_property_unchecked error")?;
    from_napi_value::<T>(env, value)
}

/// Checked read of a value by key, by index or of the prototype: the host's
/// call returned `code` and wrote `value`, of which it reports `facts`.
pub fn finish_get<T: NapiValue>(code: i32, env: usize, value: usize, facts: HandleFacts) -> (r:
    Result<T, Error>)
    ensures
        r is Ok <==> is_success(code) && admits(T::kind_spec(), facts),
        r is Ok ==> r->Ok_0.spec_value() == tagged(env, value, T::kind_spec().value_type),
        !is_success(code) ==> r->Err_0.status == status_of(code) && r->Err_0.mismatch is None,
        is_success(code) && !admits(T::kind_spec(), facts) ==> r->Err_0.status == Status::InvalidArg
            && r->Err_0.mismatch == Some(Mismatch { expected: T::kind_spec(), actual: facts.value_type }),
{
    check_status(code)?;
    from_raw::<T>(env, value, facts)
}

/// Unchecked read of a value by key, by index or of the prototype.
pub fn finish_get_unchecked<T: NapiValue>(code: i32, env: usize, value: usize) -> (r: Result<
    T,
    Error,
>)
    ensures
        r is Ok <==> is_success(code),
        r is Ok ==> r->Ok_0.spec_value() == tagged(env, value, T::kind_spec().value_type),
        r is Err ==> r->Err_0.status == status_of(code),
{
    check_status(code)?;
    Ok(T::from_raw_unchecked(env, value))
}

/// Whether key enumeration walks the prototype chain or stays on the object.
#[derive(Clone, Copy, Debug, PartialEq, Eq, Structural)]
pub enum KeyCollectionMode {
    IncludePrototypes,
    OwnOnly,
}

/// Whether numeric keys are kept as numbers or turned into strings.
#[derive(Clone, Copy, Debug, PartialEq, Eq, Structural)]
pub enum KeyConversion {
    KeepNumbers,
    NumbersToStrings,
}

/// Which keys enumeration keeps; the flags compose bitwise.
#[derive(Clone, Copy, Debug, PartialEq, Eq, Structural)]
pub struct KeyFilter {
    pub writable: bool,
    pub enumerable: bool,
    pub configurable: bool,
    pub skip_strings: bool,
    pub skip_symbols: bool,
}

pub open spec fn flag(b: bool, weight: i32) -> i32 {
    if b {
        weight
    } else {
        0
    }
}

pub open spec fn key_filter_bits(f: KeyFilter) -> i32 {
    (flag(f.writable, 1) + flag(f.enumerable, 2) + flag(f.configurable, 4) + flag(f.skip_strings, 8)
        + flag(f.skip_symbols, 16)) as i32
}

impl KeyCollectionMode {
    /// The host's code for this mode.
    pub fn code(&self) -> (r: i32)
        ensures
            r == (if *self == KeyCollectionMode::IncludePrototypes { 0i32 } else { 1i32 }),
    {
        match self {
            KeyCollectionMode::IncludePrototypes => 0,
            KeyCollectionMode::OwnOnly => 1,
        }
    }
}

impl KeyConversion {
    /// The host's code for this conversion.
    pub fn code(&self) -> (r: i32)
        ensures
            r == (if *self == KeyConversion::KeepNumbers { 0i32 } else { 1i32 }),
    {
        match self {
            KeyConversion::KeepNumbers => 0,
            KeyConversion::NumbersToStrings => 1,
        }
    }
}

impl KeyFilter {
    /// The filter that keeps every key.
    pub fn all_properties() -> (r: KeyFilter)
        ensures
            key_filter_bits(r) == 0,
    {
        KeyFilter {
            writable: false,
            enumerable: false,
            configurable: false,
            skip_strings: false,
            skip_symbols: false,
        }
    }

    /// The host's bit set for this filter.
    pub fn code(&self) -> (r: i32)
        ensures
            r == key_filter_bits(*self),
            0 <= r < 32,
    {
        let mut r: i32 = 0;
        if self.writable {
            r = r + 1;
        }
        if self.enumerable {
            r = r + 2;
        }
        if self.configurable {
            r = r + 4;
        }
        if self.skip_strings {
            r = r + 8;
        }
        if self.skip_symbols {
            r = r + 16;
        }
        r
    }
}

} // verus!
