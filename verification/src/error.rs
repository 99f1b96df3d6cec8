//! The failure taxonomy a safe filesystem method can report, and its mapping
//! to the raw status codes the native caller understands.
//!
//! A method either succeeds with a status value, fails with an OS error
//! (carried verbatim as a negative code), or fails some other way (mapped to
//! a fixed internal sentinel).  Declining an operation is expressed as the
//! OS "operation not supported" error; its negative code is reserved as the
//! decline sentinel that routes the call into the delegation fallback.

use vstd::prelude::*;

verus! {

/// The OS code for "operation not supported"; an implementation reports it
/// to decline an operation.
pub const DECLINE_OS_CODE: i32 = 38;

/// The raw status value that triggers the delegation fallback instead of
/// being returned to the native caller.
pub const DECLINE_SENTINEL: i32 = -38;

/// The raw status value substituted for any failure that carries no OS code.
pub const INTERNAL_SENTINEL: i32 = -131;

/// What a safe filesystem method reports when it cannot return a status
/// value.
///
/// `IO` stands for an I/O failure of the host, carrying the raw OS code when
/// the failure has one; `Errno` carries a bare platform error number;
/// `Internal` is any other failure.
#[derive(Clone, Copy, Debug, PartialEq, Eq)]
pub enum Error {
    IO(Option<i32>),
    Errno(i32),
    Internal,
}

/// The raw status code a failure maps to: an OS code maps to its negation,
/// anything else to the internal sentinel.
///
/// `i32::MIN` has no negation in `i32`; such a code (no platform issues it)
/// degrades to the internal sentinel rather than to a malformed status.
pub open spec fn error_code_spec(e: Error) -> int {
    match e {
        Error::IO(Some(c)) => if c == i32::MIN {
            INTERNAL_SENTINEL as int
        } else {
            -(c as int)
        },
        Error::IO(None) => INTERNAL_SENTINEL as int,
        Error::Errno(c) => if c == i32::MIN {
            INTERNAL_SENTINEL as int
        } else {
            -(c as int)
        },
        Error::Internal => INTERNAL_SENTINEL as int,
    }
}

/// True of the failures that map to the internal sentinel because they carry
/// no usable OS code; these are the ones a trampoline reports on the
/// operator-visible error stream.
pub open spec fn is_internal_failure(e: Error) -> bool {
    match e {
        Error::IO(Some(c)) => c == i32::MIN,
        Error::IO(None) => true,
        Error::Errno(c) => c == i32::MIN,
        Error::Internal => true,
    }
}

impl Error {
    /// Maps the failure to the raw status code the native caller sees.
    pub fn status_code(&self) -> (r: i32)
        ensures
            r as int == error_code_spec(*self),
    {
        match self {
            Error::IO(Some(c)) => {
                if *c == i32::MIN {
                    INTERNAL_SENTINEL
                } else {
                    -*c
                }
            },
            Error::IO(None) => INTERNAL_SENTINEL,
            Error::Errno(c) => {
                if *c == i32::MIN {
                    INTERNAL_SENTINEL
                } else {
                    -*c
                }
            },
            Error::Internal => INTERNAL_SENTINEL,
        }
    }

    /// Decides [`is_internal_failure`]: whether the failure will reach the
    /// native caller only as the internal sentinel.
    pub fn is_internal(&self) -> (r: bool)
        ensures
            r == is_internal_failure(*self),
    {
        match self {
            Error::IO(Some(c)) => *c == i32::MIN,
            Error::IO(None) => true,
            Error::Errno(c) => *c == i32::MIN,
            Error::Internal => true,
        }
    }

    /// A short text for the failure, for the diagnostic a trampoline emits
    /// when it substitutes the internal sentinel.
    pub fn describe(&self) -> (r: String)
        ensures
            *self matches Error::IO(_) ==> r@ == "i/o error"@,
            *self matches Error::Errno(_) ==> r@ == "platform error number"@,
            *self matches Error::Internal ==> r@ == "internal error"@,
    {
        match self {
            Error::IO(_) => String::from_str("i/o error"),
            Error::Errno(_) => String::from_str("platform error number"),
            Error::Internal => String::from_str("internal error"),
        }
    }
}

} // verus!
