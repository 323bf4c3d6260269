//! Plain-data forms of the two request/response families.
//!
//! The axum-side and warp-side request/response values are structurally
//! equivalent: a method token, a URI, a protocol version, an ordered list of
//! header fields (duplicates permitted, order significant), a status for
//! responses, and a streaming body. Each side's form is a struct of plain
//! values plus that side's opaque body handle, so the translators can state
//! exactly which fields they preserve.

use vstd::prelude::*;

verus! {

/// The protocol versions the translators recognize, plus a marker for any
/// version value outside the five recognized ones.
#[derive(Clone, Copy, Debug, PartialEq, Eq, Structural)]
pub enum HttpVersion {
    H09,
    H10,
    H11,
    H2,
    H3,
    Other,
}

impl HttpVersion {
    /// True for the five discrete versions that translation preserves.
    pub open spec fn is_recognized(self) -> bool {
        self != HttpVersion::Other
    }
}

/// What `convert_version` returns: a recognized version unchanged, anything
/// else coerced to HTTP/1.1.
pub open spec fn coerced_version(v: HttpVersion) -> HttpVersion {
    if v is Other {
        HttpVersion::H11
    } else {
        v
    }
}

/// Maps a protocol version across the translation boundary: each of the five
/// recognized versions maps to itself, and any other version value becomes
/// HTTP/1.1. The fallback is a documented relaxation, not an error.
pub fn convert_version(v: HttpVersion) -> (r: HttpVersion)
    ensures
        r == coerced_version(v),
{
    match v {
        HttpVersion::H09 => HttpVersion::H09,
        HttpVersion::H10 => HttpVersion::H10,
        HttpVersion::H11 => HttpVersion::H11,
        HttpVersion::H2 => HttpVersion::H2,
        HttpVersion::H3 => HttpVersion::H3,
        HttpVersion::Other => HttpVersion::H11,
    }
}

/// Law: version translation is the identity on the five recognized versions —
/// in particular it is injective there, so the recognized versions map
/// bijectively onto themselves — and every unrecognized version value is
/// coerced to HTTP/1.1.
pub proof fn lemma_version_translation_bijective(a: HttpVersion, b: HttpVersion)
    ensures
        a.is_recognized() ==> coerced_version(a) == a,
        !a.is_recognized() ==> coerced_version(a) == HttpVersion::H11,
        a.is_recognized() && b.is_recognized() && coerced_version(a) == coerced_version(b) ==> a
            == b,
{
}

/// One header field: a name and a byte-string value. A message's header list
/// is an ordered multimap, so the same name may occur on several fields and
/// the order of fields is significant.
pub struct HeaderField {
    pub name: String,
    pub value: Vec<u8>,
}

/// The translation faults. These are confined to the boundary between the two
/// request/response families; the warp filter's own rejections are ordinary
/// responses, never one of these.
#[derive(Clone, Copy, Debug, PartialEq, Eq, Structural)]
pub enum TranslationError {
    /// The request's method token does not parse under the warp-side grammar.
    InvalidMethod,
    /// The request's URI does not re-parse under the warp-side grammar.
    InvalidUri,
    /// The response carries a status outside 100..=599.
    InvalidStatus,
    /// A body stream failed while being read.
    BodyReadError,
    /// A response value could not be assembled.
    ResponseBuildError,
}

/// A host-side (axum) request, as plain data plus its streaming body handle.
pub struct AxumRequest {
    pub method: String,
    pub uri: String,
    pub version: HttpVersion,
    pub headers: Vec<HeaderField>,
    pub body: axum::body::Body,
}

/// A warp-side request, structurally equivalent to [`AxumRequest`] but
/// carrying the warp-side streaming body handle.
pub struct WarpRequest {
    pub method: String,
    pub uri: String,
    pub version: HttpVersion,
    pub headers: Vec<HeaderField>,
    pub body: warp::hyper::body::Body,
}

/// A warp-side response, as plain data plus its streaming body handle.
pub struct WarpResponse {
    pub status: u16,
    pub version: HttpVersion,
    pub headers: Vec<HeaderField>,
    pub body: warp::hyper::body::Body,
}

/// A host-side (axum) response, structurally equivalent to [`WarpResponse`].
pub struct AxumResponse {
    pub status: u16,
    pub version: HttpVersion,
    pub headers: Vec<HeaderField>,
    pub body: axum::body::Body,
}

/// A status code is valid when it lies in the standard 100..=599 range.
pub open spec fn status_valid(status: u16) -> bool {
    100 <= status <= 599
}

} // verus!
