//! Boundary status handling: a status code where one value means success
//! and every other value is a failure carrying a platform error code, and
//! the typed error such a failure propagates as.

use vstd::prelude::*;

verus! {

/// The status value that means success.
pub const S_OK: i32 = 0;

/// The status value a boundary call answers when the asked-for interface
/// is not supported.
pub const E_NOINTERFACE: i32 = -2147467262;

/// The status value for a general failure.
pub const E_FAIL: i32 = -2147467259;

/// A status code returned by a boundary call: `S_OK` means success, every
/// other value is a failure carrying a platform error code. Callers must
/// check it before trusting any out-parameter.
#[derive(Clone, Copy, PartialEq, Eq, Structural, Debug, Hash)]
pub struct Hresult(pub i32);

impl Hresult {
    /// Whether this status means success.
    pub open spec fn is_ok(self) -> bool {
        self.0 == S_OK
    }

    /// Turns the status into a value: success becomes `Ok`, every other
    /// status becomes the error that carries its code.
    pub fn into_result(self) -> (r: Result<(), Error>)
        ensures
            self.is_ok() <==> r is Ok,
            r is Err ==> r->Err_0 == (Error { desc: None, kind: ErrorKind::Hresult(self.0) }),
    {
        if self.0 == S_OK {
            Ok(())
        } else {
            Err(Error { desc: None, kind: ErrorKind::Hresult(self.0) })
        }
    }

    /// Like `into_result`, but a failure additionally carries descriptive
    /// text obtained from a companion error-info object.
    pub fn with_error_info(self, info_text: String) -> (r: Result<(), Error>)
        ensures
            self.is_ok() <==> r is Ok,
            r is Err ==> r->Err_0 == (Error {
                desc: Some(info_text),
                kind: ErrorKind::Hresult(self.0),
            }),
    {
        if self.0 == S_OK {
            Ok(())
        } else {
            Err(Error { desc: Some(info_text), kind: ErrorKind::Hresult(self.0) })
        }
    }
}

/// The status a host-facing call answers for a user extension's outcome:
/// success for `Ok`, the bare failure status for `Err`.
pub fn status_of<E>(outcome: &Result<(), E>) -> (s: Hresult)
    ensures
        outcome is Ok <==> s.0 == S_OK,
        s.0 == S_OK || s.0 == E_FAIL,
{
    match outcome {
        Ok(()) => Hresult(S_OK),
        Err(_) => Hresult(E_FAIL),
    }
}

/// What went wrong: a boundary status failure with its platform error
/// code, or a result outside the boundary contract altogether.
#[derive(Debug, Clone, PartialEq, Eq, Structural)]
pub enum ErrorKind {
    Hresult(i32),
    Unexpected,
}

/// A failure surfaced to the caller as a value: its kind, and optional
/// descriptive text.
#[derive(Debug, Clone)]
pub struct Error {
    pub desc: Option<String>,
    pub kind: ErrorKind,
}

impl Error {
    /// An error of the given kind, with no descriptive text.
    pub fn from_kind(kind: ErrorKind) -> (r: Error)
        ensures
            r.desc is None,
            r.kind == kind,
    {
        Error { desc: None, kind }
    }
}

} // verus!
