//! The error taxonomy of a porting request, and its mapping to an HTTP
//! response.
//!
//! A failed listing or upload must not tear the request down: the boundary
//! converts it into a structured response with a machine-readable kind and
//! the status chosen here.

use vstd::prelude::*;

verus! {

/// What can go wrong while materializing and uploading a repository.
pub enum PortError {
    /// The hosting-API token is missing from the configuration.
    MissingToken,
    /// A listing or content request came back with this non-success status.
    Fetch(u16),
    /// A listing response could not be decoded.
    Deserialize,
    /// The blob store refused the upload with this status.
    Upload(u16),
}

/// The HTTP status reporting an error: an upstream auth failure passes
/// through, any other upstream failure is a bad gateway, and a missing
/// token is an internal configuration error.
pub open spec fn spec_http_status(e: PortError) -> u16 {
    match e {
        PortError::MissingToken => 500,
        PortError::Fetch(s) => if s == 401 || s == 403 {
            s
        } else {
            502
        },
        PortError::Deserialize => 502,
        PortError::Upload(_) => 502,
    }
}

/// The machine-readable kind naming an error.
pub open spec fn spec_error_kind(e: PortError) -> Seq<char> {
    match e {
        PortError::MissingToken => "config"@,
        PortError::Fetch(_) => "fetch"@,
        PortError::Deserialize => "deserialize"@,
        PortError::Upload(_) => "upload"@,
    }
}

/// The HTTP status with which an error is reported.
pub fn http_status(e: &PortError) -> (s: u16)
    ensures
        s == spec_http_status(*e),
{
    match e {
        PortError::MissingToken => 500,
        PortError::Fetch(s) => {
            if *s == 401 || *s == 403 {
                *s
            } else {
                502
            }
        },
        PortError::Deserialize => 502,
        PortError::Upload(_) => 502,
    }
}

/// The machine-readable kind naming an error.
pub fn error_kind(e: &PortError) -> (s: &'static str)
    ensures
        s@ == spec_error_kind(*e),
{
    match e {
        PortError::MissingToken => "config",
        PortError::Fetch(_) => "fetch",
        PortError::Deserialize => "deserialize",
        PortError::Upload(_) => "upload",
    }
}

} // verus!
