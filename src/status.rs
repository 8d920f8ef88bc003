use vstd::prelude::*;
use vstd::string::StringExecFns;

use crate::kind::KindSpec;
use crate::value_type::ValueType;

verus! {

/// The outcome that a host call reports, one case per distinct condition.
#[derive(Clone, Copy, Debug, PartialEq, Eq, Structural)]
pub enum Status {
    Success,
    InvalidArg,
    ObjectExpected,
    StringExpected,
    NameExpected,
    FunctionExpected,
    NumberExpected,
    BooleanExpected,
    ArrayExpected,
    GenericFailure,
    PendingException,
    Cancelled,
    EscapeCalledTwice,
    HandleScopeMismatch,
    CallbackScopeMismatch,
    QueueFull,
    Closing,
    BigintExpected,
    DateExpected,
    ArrayBufferExpected,
    DetachableArraybufferExpected,
    WouldDeadlock,
    NoExternalBuffersAllowed,
    CannotRunJs,
    Unknown,
}

/// The status that a raw host status code stands for.
pub open spec fn status_of(code: i32) -> Status {
    if code == 0 {
        Status::Success
    } else if code == 1 {
        Status::InvalidArg
    } else if code == 2 {
        Status::ObjectExpected
    } else if code == 3 {
        Status::StringExpected
    } else if code == 4 {
        Status::NameExpected
    } else if code == 5 {
        Status::FunctionExpected
    } else if code == 6 {
        Status::NumberExpected
    } else if code == 7 {
        Status::BooleanExpected
    } else if code == 8 {
        Status::ArrayExpected
    } else if code == 9 {
        Status::GenericFailure
    } else if code == 10 {
        Status::PendingException
    } else if code == 11 {
        Status::Cancelled
    } else if code == 12 {
        Status::EscapeCalledTwice
    } else if code == 13 {
        Status::HandleScopeMismatch
    } else if code == 14 {
        Status::CallbackScopeMismatch
    } else if code == 15 {
        Status::QueueFull
    } else if code == 16 {
        Status::Closing
    } else if code == 17 {
        Status::BigintExpected
    } else if code == 18 {
        Status::DateExpected
    } else if code == 19 {
        Status::ArrayBufferExpected
    } else if code == 20 {
        Status::DetachableArraybufferExpected
    } else if code == 21 {
        Status::WouldDeadlock
    } else if code == 22 {
        Status::NoExternalBuffersAllowed
    } else if code == 23 {
        Status::CannotRunJs
    } else {
        Status::Unknown
    }
}

impl Status {
    /// Reads a raw host status code.
    pub fn from_code(code: i32) -> (r: Status)
        ensures
            r == status_of(code),
    {
        match code {
            0 => Status::Success,
            1 => Status::InvalidArg,
            2 => Status::ObjectExpected,
            3 => Status::StringExpected,
            4 => Status::NameExpected,
            5 => Status::FunctionExpected,
            6 => Status::NumberExpected,
            7 => Status::BooleanExpected,
            8 => Status::ArrayExpected,
            9 => Status::GenericFailure,
            10 => Status::PendingException,
            11 => Status::Cancelled,
            12 => Status::EscapeCalledTwice,
            13 => Status::HandleScopeMismatch,
            14 => Status::CallbackScopeMismatch,
            15 => Status::QueueFull,
            16 => Status::Closing,
            17 => Status::BigintExpected,
            18 => Status::DateExpected,
            19 => Status::ArrayBufferExpected,
            20 => Status::DetachableArraybufferExpected,
            21 => Status::WouldDeadlock,
            22 => Status::NoExternalBuffersAllowed,
            23 => Status::CannotRunJs,
            _ => Status::Unknown,
        }
    }
}

/// The kind a validation expected and the kind the host reported instead.
#[derive(Clone, Copy, Debug, PartialEq, Eq, Structural)]
pub struct Mismatch {
    pub expected: KindSpec,
    pub actual: ValueType,
}

/// A structured failure: the status, a readable reason, and, for a failed
/// kind validation, which kind was expected and which was found.
#[derive(Clone, Debug)]
pub struct Error {
    pub status: Status,
    pub reason: String,
    pub mismatch: Option<Mismatch>,
}

impl Error {
    pub fn new(status: Status, reason: String) -> (r: Error)
        ensures
            r.status == status,
            r.reason@ == reason@,
            r.mismatch is None,
    {
        Error { status, reason, mismatch: None }
    }

    pub fn from_status(status: Status) -> (r: Error)
        ensures
            r.status == status,
            r.reason@ == Seq::<char>::empty(),
            r.mismatch is None,
    {
        Error { status, reason: String::new(), mismatch: None }
    }

    /// True when this error reports a failed kind validation.
    pub fn is_type_mismatch(&self) -> (r: bool)
        ensures
            r == self.mismatch is Some,
    {
        self.mismatch.is_some()
    }
}

/// Turns a host status code into the outcome of the call that returned it:
/// success for the success code, otherwise an error carrying its status.
pub fn check_status(code: i32) -> (r: Result<(), Error>)
    ensures
        r is Ok <==> is_success(code),
        r is Err ==> r->Err_0.status == status_of(code) && r->Err_0.mismatch is None
            && r->Err_0.reason@ == Seq::<char>::empty(),
{
    if code == 0 {
        Ok(())
    } else {
        Err(Error::from_status(Status::from_code(code)))
    }
}

/// As `check_status`, with a reason attached to the error.
pub fn check_status_with(code: i32, reason: &str) -> (r: Result<(), Error>)
    ensures
        r is Ok <==> is_success(code),
        r is Err ==> r->Err_0.status == status_of(code) && r->Err_0.mismatch is None
            && r->Err_0.reason@ == reason@,
{
    if code == 0 {
        Ok(())
    } else {
        Err(Error::new(Status::from_code(code), String::from_str(reason)))
    }
}

/// Whether a host status code reports success.
pub open spec fn is_success(code: i32) -> bool {
    code == 0
}

/// Outcome of a host query that wrote a boolean answer.
pub fn finish_bool_query(code: i32, answer: bool) -> (r: Result<bool, Error>)
    ensures
        r is Ok <==> is_success(code),
        r is Ok ==> r->Ok_0 == answer,
        r is Err ==> r->Err_0.status == status_of(code),
{
    check_status(code)?;
    Ok(answer)
}

} // verus!
