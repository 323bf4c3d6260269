//! Translation of a warp-side response into the host-side form.
//!
//! The status is copied verbatim when it lies in the standard range; the
//! version is coerced as [`coerced_version`] says; headers and the body are
//! carried over unchanged. A warp-side rejection (not-found,
//! method-not-allowed, and the rest) arrives here as an ordinary response
//! carrying its own status and body, and passes through like any other: its
//! status is never re-mapped or overridden.

use vstd::prelude::*;

use crate::body::{axum_body_bytes, into_axum_body, warp_body_bytes};
use crate::model::{
    coerced_version, convert_version, status_valid, AxumResponse, TranslationError, WarpResponse,
};

verus! {

/// A response translates successfully exactly when its status lies in the
/// standard 100..=599 range.
pub open spec fn response_translatable(resp: WarpResponse) -> bool {
    status_valid(resp.status)
}

/// The host-side response `t` is the translation of the warp-side response
/// `resp`: the status, every header field in its original order, and the
/// body's bytes are identical, and the version is coerced.
pub open spec fn is_translated_response(t: AxumResponse, resp: WarpResponse) -> bool {
    &&& t.status == resp.status
    &&& t.version == coerced_version(resp.version)
    &&& t.headers == resp.headers
    &&& axum_body_bytes(t.body) == warp_body_bytes(resp.body)
}

/// Translates a warp-side response into the host-side form.
///
/// Succeeds exactly when the status lies in 100..=599; the translation
/// copies the status verbatim, preserves the headers (names, values,
/// duplicates and order) and the body bytes, and coerces the version. A
/// status outside the range is the one translation fault here.
pub fn into_axum_response(resp: WarpResponse) -> (r: Result<AxumResponse, TranslationError>)
    ensures
        r is Ok <==> response_translatable(resp),
        r is Ok ==> is_translated_response(r->Ok_0, resp),
        r is Err ==> r->Err_0 == TranslationError::InvalidStatus,
{
    let WarpResponse { status, version, headers, body } = resp;
    if status < 100 || status > 599 {
        return Err(TranslationError::InvalidStatus);
    }
    Ok(
        AxumResponse {
            status,
            version: convert_version(version),
            headers,
            body: into_axum_body(body),
        },
    )
}

} // verus!
