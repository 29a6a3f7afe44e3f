//! The closed host-side error taxonomy, and the mapping from native
//! status codes into it.
//!
//! Every native call returns a numeric status. A zero status is success;
//! any other value is mapped to one of the variants below, with `Unknown`
//! as the forward-compatibility fallback for codes this crate does not
//! recognize. No native code ever causes a panic.

use vstd::prelude::*;

verus! {

/// A failure reported by the native layer or by this crate's own
/// boundary checks.
#[derive(Clone, Copy, Debug, PartialEq, Eq, Structural)]
pub enum UhdError {
    /// An unrecognized native status code, or an otherwise unclassified
    /// native failure.
    Unknown,
    /// The requested device could not be opened or is not valid.
    InvalidDevice,
    /// An index was out of range for the collection it addressed.
    Index,
    /// A lookup key was not recognized.
    Key,
    /// The requested operation is not implemented by the native layer.
    NotImplemented,
    /// An input/output failure inside the native layer.
    Io,
    /// An argument value was rejected.
    InvalidArgument,
    /// A runtime failure inside the native layer.
    Runtime,
    /// A failure caused by the host environment.
    Environment,
    /// A bounded wait elapsed before the operation could complete.
    Timeout,
    /// The native layer reported success but handed back no resource.
    AllocationFailed,
}

/// The error that a nonzero native status code stands for.
pub open spec fn error_for_status(code: u32) -> UhdError
    recommends
        code != 0,
{
    if code == 1 {
        UhdError::InvalidDevice
    } else if code == 10 {
        UhdError::Index
    } else if code == 11 {
        UhdError::Key
    } else if code == 20 {
        UhdError::NotImplemented
    } else if code == 30 {
        UhdError::Io
    } else if code == 43 {
        UhdError::InvalidArgument
    } else if code == 44 {
        UhdError::Runtime
    } else if code == 45 {
        UhdError::Environment
    } else {
        UhdError::Unknown
    }
}

/// Maps a native status code to a host-side result: zero is success, and
/// every nonzero code becomes the corresponding [`UhdError`], collapsing
/// unrecognized codes to [`UhdError::Unknown`] rather than failing.
pub fn status_to_result(code: u32) -> (r: Result<(), UhdError>)
    ensures
        r is Ok <==> code == 0,
        code != 0 ==> r == Result::<(), UhdError>::Err(error_for_status(code)),
{
    if code == 0 {
        Ok(())
    } else if code == 1 {
        Err(UhdError::InvalidDevice)
    } else if code == 10 {
        Err(UhdError::Index)
    } else if code == 11 {
        Err(UhdError::Key)
    } else if code == 20 {
        Err(UhdError::NotImplemented)
    } else if code == 30 {
        Err(UhdError::Io)
    } else if code == 43 {
        Err(UhdError::InvalidArgument)
    } else if code == 44 {
        Err(UhdError::Runtime)
    } else if code == 45 {
        Err(UhdError::Environment)
    } else {
        Err(UhdError::Unknown)
    }
}

} // verus!
