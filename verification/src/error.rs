//! The closed taxonomy of failures and the mapping from a server status to it.

use vstd::prelude::*;
use vstd::string::StringSliceAdditionalSpecFns;
use crate::api::{GeminiGenericError, GeminiGenericErrorResponse};

verus! {

/// What went wrong, as far as a caller can act on it.
#[derive(Debug, Clone, Copy, PartialEq, Eq)]
#[non_exhaustive]
pub enum GeminiErrorKind {
    InvalidArgument,
    UnsupportedCountry,
    PermissionDenied,
    ResourceExhausted,
    Internal,
    ServiceUnavailable,
    /// Local failures (transport, decoding) and server statuses that are not
    /// recognised.
    Other,
}

/// A failure: its kind and a human-readable message.
#[derive(Debug, PartialEq, Eq)]
pub struct GeminiError {
    pub kind: GeminiErrorKind,
    pub message: String,
}

/// The kind that a server status string stands for; every status outside the
/// table is `Other`.
pub open spec fn kind_of_status(status: Seq<char>) -> GeminiErrorKind {
    if status == "INVALID_ARGUMENT"@ {
        GeminiErrorKind::InvalidArgument
    } else if status == "FAILED_PRECONDITION"@ {
        GeminiErrorKind::UnsupportedCountry
    } else if status == "PERMISSION_DENIED"@ {
        GeminiErrorKind::PermissionDenied
    } else if status == "RESOURCE_EXHAUSTED"@ {
        GeminiErrorKind::ResourceExhausted
    } else if status == "INTERNAL"@ {
        GeminiErrorKind::Internal
    } else if status == "UNAVAILABLE"@ {
        GeminiErrorKind::ServiceUnavailable
    } else {
        GeminiErrorKind::Other
    }
}

/// Whether two slices hold the same characters, decided on their bytes.
pub(crate) fn same_text(a: &str, b: &str) -> (r: bool)
    ensures
        r == (a@ == b@),
{
    let left = a.as_bytes();
    let right = b.as_bytes();
    proof {
        vstd::utf8::encode_utf8_decode_utf8(a@);
        vstd::utf8::encode_utf8_decode_utf8(b@);
    }
    if left.len() != right.len() {
        return false;
    }
    let mut i: usize = 0;
    while i < left.len()
        invariant
            i <= left.len(),
            left@ == a.spec_bytes(),
            right@ == b.spec_bytes(),
            left@.len() == right@.len(),
            forall|j: int| 0 <= j < i ==> left@[j] == right@[j],
        decreases left.len() - i,
    {
        if left[i] != right[i] {
            return false;
        }
        i += 1;
    }
    assert(left@ =~= right@);
    true
}

impl GeminiErrorKind {
    /// Maps a server status string to its kind.
    pub fn from_status(status: &str) -> (kind: GeminiErrorKind)
        ensures
            kind == kind_of_status(status@),
    {
        if same_text(status, "INVALID_ARGUMENT") {
            GeminiErrorKind::InvalidArgument
        } else if same_text(status, "FAILED_PRECONDITION") {
            GeminiErrorKind::UnsupportedCountry
        } else if same_text(status, "PERMISSION_DENIED") {
            GeminiErrorKind::PermissionDenied
        } else if same_text(status, "RESOURCE_EXHAUSTED") {
            GeminiErrorKind::ResourceExhausted
        } else if same_text(status, "INTERNAL") {
            GeminiErrorKind::Internal
        } else if same_text(status, "UNAVAILABLE") {
            GeminiErrorKind::ServiceUnavailable
        } else {
            GeminiErrorKind::Other
        }
    }
}

impl GeminiError {
    /// A local failure: kind `Other`, carrying `msg` as its message.
    pub fn message(msg: &str) -> (err: GeminiError)
        ensures
            err.kind == GeminiErrorKind::Other,
            err.message@ == msg@,
    {
        GeminiError { kind: GeminiErrorKind::Other, message: msg.to_owned() }
    }
}

/// The failure that a server's error object stands for: the kind of its
/// status, and its message as it is.
pub open spec fn error_of(value: GeminiGenericError) -> GeminiError {
    GeminiError { kind: kind_of_status(value.status@), message: value.message }
}

impl From<GeminiGenericError> for GeminiError {
    fn from(value: GeminiGenericError) -> (err: GeminiError) {
        let kind = GeminiErrorKind::from_status(value.status.as_str());
        GeminiError { kind, message: value.message }
    }
}

impl vstd::std_specs::convert::FromSpecImpl<GeminiGenericError> for GeminiError {
    open spec fn obeys_from_spec() -> bool {
        true
    }

    open spec fn from_spec(value: GeminiGenericError) -> GeminiError {
        error_of(value)
    }
}

/// What a response body comes to, given the two readings of it: the payload
/// where it parsed as one; else the failure that the error envelope stands
/// for where it parsed as that; else a failure of kind `Other` that carries
/// the parser's own message.
pub open spec fn resolution<T>(
    payload: Option<T>,
    envelope: Result<GeminiGenericErrorResponse, String>,
) -> Result<T, GeminiError> {
    match payload {
        Some(value) => Ok(value),
        None => match envelope {
            Ok(response) => Err(error_of(response.error)),
            Err(detail) => Err(GeminiError { kind: GeminiErrorKind::Other, message: detail }),
        },
    }
}

/// Decides what a response body comes to. `payload` is the body read as the
/// success schema, if it could be; `envelope` is the body read as the error
/// envelope, or the message with which that failed.
pub fn resolve<T>(payload: Option<T>, envelope: Result<GeminiGenericErrorResponse, String>) -> (r:
    Result<T, GeminiError>)
    ensures
        r == resolution(payload, envelope),
{
    match payload {
        Some(value) => Ok(value),
        None => match envelope {
            Ok(response) => Err(GeminiError::from(response.error)),
            Err(detail) => Err(GeminiError { kind: GeminiErrorKind::Other, message: detail }),
        },
    }
}

} // verus!
