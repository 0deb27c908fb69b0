//! Status vocabulary of the foreign device layer.
//!
//! Every fallible device operation reports one of these statuses; the
//! library passes them through to its caller unchanged and never mints
//! status values of its own.

use vstd::prelude::*;

verus! {

/// A status reported by the foreign device layer.
///
/// `Success` marks a completed operation; every other variant is a failure
/// that the library hands back verbatim inside an `Err`.
#[derive(Clone, Copy, Debug, PartialEq, Eq, Structural)]
pub enum UvcError {
    Success,
    Io,
    InvalidParam,
    Access,
    NoDevice,
    NotFound,
    Busy,
    Timeout,
    Overflow,
    Pipe,
    Interrupted,
    NoMem,
    NotSupported,
    InvalidDevice,
    InvalidMode,
    CallbackExists,
    Other,
}

impl UvcError {
    /// Whether this status marks a completed operation.
    pub open spec fn is_success(self) -> bool {
        self == UvcError::Success
    }

    /// The numeric code the foreign layer uses for this status.
    pub open spec fn code_spec(self) -> int {
        match self {
            UvcError::Success => 0,
            UvcError::Io => -1,
            UvcError::InvalidParam => -2,
            UvcError::Access => -3,
            UvcError::NoDevice => -4,
            UvcError::NotFound => -5,
            UvcError::Busy => -6,
            UvcError::Timeout => -7,
            UvcError::Overflow => -8,
            UvcError::Pipe => -9,
            UvcError::Interrupted => -10,
            UvcError::NoMem => -11,
            UvcError::NotSupported => -12,
            UvcError::InvalidDevice => -50,
            UvcError::InvalidMode => -51,
            UvcError::CallbackExists => -52,
            UvcError::Other => -99,
        }
    }

    /// Numeric code of this status, as the foreign layer reports it.
    pub fn code(&self) -> (c: i32)
        ensures
            c as int == self.code_spec(),
    {
        match self {
            UvcError::Success => 0,
            UvcError::Io => -1,
            UvcError::InvalidParam => -2,
            UvcError::Access => -3,
            UvcError::NoDevice => -4,
            UvcError::NotFound => -5,
            UvcError::Busy => -6,
            UvcError::Timeout => -7,
            UvcError::Overflow => -8,
            UvcError::Pipe => -9,
            UvcError::Interrupted => -10,
            UvcError::NoMem => -11,
            UvcError::NotSupported => -12,
            UvcError::InvalidDevice => -50,
            UvcError::InvalidMode => -51,
            UvcError::CallbackExists => -52,
            UvcError::Other => -99,
        }
    }

    /// The status a numeric code of the foreign layer stands for; codes
    /// outside the fixed vocabulary fall back to `Other`.
    pub open spec fn from_code_spec(c: int) -> UvcError {
        if c == 0 {
            UvcError::Success
        } else if c == -1 {
            UvcError::Io
        } else if c == -2 {
            UvcError::InvalidParam
        } else if c == -3 {
            UvcError::Access
        } else if c == -4 {
            UvcError::NoDevice
        } else if c == -5 {
            UvcError::NotFound
        } else if c == -6 {
            UvcError::Busy
        } else if c == -7 {
            UvcError::Timeout
        } else if c == -8 {
            UvcError::Overflow
        } else if c == -9 {
            UvcError::Pipe
        } else if c == -10 {
            UvcError::Interrupted
        } else if c == -11 {
            UvcError::NoMem
        } else if c == -12 {
            UvcError::NotSupported
        } else if c == -50 {
            UvcError::InvalidDevice
        } else if c == -51 {
            UvcError::InvalidMode
        } else if c == -52 {
            UvcError::CallbackExists
        } else {
            UvcError::Other
        }
    }

    /// Reads a raw status code of the foreign layer back into the vocabulary.
    pub fn from_code(c: i32) -> (e: UvcError)
        ensures
            e == UvcError::from_code_spec(c as int),
    {
        match c {
            0 => UvcError::Success,
            -1 => UvcError::Io,
            -2 => UvcError::InvalidParam,
            -3 => UvcError::Access,
            -4 => UvcError::NoDevice,
            -5 => UvcError::NotFound,
            -6 => UvcError::Busy,
            -7 => UvcError::Timeout,
            -8 => UvcError::Overflow,
            -9 => UvcError::Pipe,
            -10 => UvcError::Interrupted,
            -11 => UvcError::NoMem,
            -12 => UvcError::NotSupported,
            -50 => UvcError::InvalidDevice,
            -51 => UvcError::InvalidMode,
            -52 => UvcError::CallbackExists,
            _ => UvcError::Other,
        }
    }
}

/// Reading a status's own code back yields the same status: the library
/// loses nothing when it passes a device-reported status through as a code.
pub proof fn lemma_code_round_trip(e: UvcError)
    ensures
        UvcError::from_code_spec(e.code_spec()) == e,
{
}

} // verus!
