//! Classification of native status codes into a closed error taxonomy.
//!
//! Every native call returns a status code. The mapper below is total: the
//! success code yields `Ok`, each known failure code maps one-to-one onto an
//! [`Error`] variant, and any code outside the known set collapses to
//! [`Error::Unknown`], so that the native code space may grow without a
//! corresponding release of this layer.

use vstd::prelude::*;

verus! {

/// A native status code, as reported by the engine after a call.
///
/// The known codes are listed as variants; `Unrecognized` stands for any
/// code outside the known set (newer engines may add codes this layer does
/// not know).
#[derive(Clone, Copy, Debug, PartialEq, Eq, Structural)]
pub enum StatusCode {
    Okay,
    Nodata,
    InvalidArguments,
    AssertionFailure,
    Syserror,
    NotImplemented,
    End,
    Unrecognized,
}

/// Outcome of a native call that carries no payload.
#[derive(Clone, Copy, Debug, PartialEq, Eq, Structural)]
pub enum Status {
    Okay,
    Ng,
}

/// The closed error taxonomy surfaced to callers.
///
/// No lower-level native detail is propagated beyond this classification.
#[derive(Clone, Copy, Debug, PartialEq, Eq, Structural)]
pub enum Error {
    Nodata,
    InvalidArguments,
    AssertionFailure,
    SysError,
    NotImplemented,
    End,
    Unknown,
}

/// What [`map_status`] returns for each native status code.
pub open spec fn spec_map_status(code: StatusCode) -> Result<Status, Error> {
    match code {
        StatusCode::Okay => Ok(Status::Okay),
        StatusCode::Nodata => Err(Error::Nodata),
        StatusCode::InvalidArguments => Err(Error::InvalidArguments),
        StatusCode::AssertionFailure => Err(Error::AssertionFailure),
        StatusCode::Syserror => Err(Error::SysError),
        StatusCode::NotImplemented => Err(Error::NotImplemented),
        StatusCode::End => Err(Error::End),
        StatusCode::Unrecognized => Err(Error::Unknown),
    }
}

/// Map a native status code to the call's outcome: `Ok` for the success
/// code, the matching [`Error`] variant for each known failure code, and
/// [`Error::Unknown`] for a code outside the known set.
pub fn map_status(code: StatusCode) -> (r: Result<Status, Error>)
    ensures
        r == spec_map_status(code),
{
    match code {
        StatusCode::Okay => Ok(Status::Okay),
        StatusCode::Nodata => Err(Error::Nodata),
        StatusCode::InvalidArguments => Err(Error::InvalidArguments),
        StatusCode::AssertionFailure => Err(Error::AssertionFailure),
        StatusCode::Syserror => Err(Error::SysError),
        StatusCode::NotImplemented => Err(Error::NotImplemented),
        StatusCode::End => Err(Error::End),
        StatusCode::Unrecognized => Err(Error::Unknown),
    }
}

/// Law: the mapping is injective. Two distinct status codes never map to the
/// same outcome, so each defined native code has exactly one classification,
/// and only an unrecognized code is classified as [`Error::Unknown`].
pub proof fn lemma_status_mapping_injective(a: StatusCode, b: StatusCode)
    requires
        a != b,
    ensures
        spec_map_status(a) != spec_map_status(b),
{
}

} // verus!
