//! Opaque streaming body handles and the trusted conversions between them.
//!
//! Neither side's body type is inspected here: a body is an opaque handle to
//! a lazy, finite sequence of byte chunks, and translation only hands the
//! handle across, re-wrapped for the other side's stream type. The spec
//! functions [`axum_body_bytes`] and [`warp_body_bytes`] name the bytes a
//! given handle yields, so contracts can state that those bytes are carried
//! over unchanged without ever materializing them.

use vstd::prelude::*;
use futures::TryStreamExt;

verus! {

#[verifier::external_type_specification]
#[verifier::external_body]
pub struct ExAxumBody(axum::body::Body);

#[verifier::external_type_specification]
#[verifier::external_body]
pub struct ExWarpBody(warp::hyper::body::Body);

/// The bytes that a host-side body handle yields, in order, over its whole
/// lifetime.
pub uninterp spec fn axum_body_bytes(b: axum::body::Body) -> Seq<u8>;

/// The bytes that a warp-side body handle yields, in order, over its whole
/// lifetime.
pub uninterp spec fn warp_body_bytes(b: warp::hyper::body::Body) -> Seq<u8>;

/// Relies on `axum::body::Body::into_data_stream` and
/// `warp::hyper::body::Body::wrap_stream`: the first yields exactly the
/// body's data chunks and the second forwards each chunk of its stream
/// unchanged, so the re-wrapped body yields the same bytes.
#[verifier::external_body]
pub fn into_warp_body(b: axum::body::Body) -> (r: warp::hyper::body::Body)
    ensures
        warp_body_bytes(r) == axum_body_bytes(b),
{
    warp::hyper::body::Body::wrap_stream(b.into_data_stream())
}

/// Relies on `axum::body::Body::from_stream`: it forwards each chunk of its
/// stream unchanged, so the re-wrapped body yields the same bytes.
#[verifier::external_body]
pub fn into_axum_body(b: warp::hyper::body::Body) -> (r: axum::body::Body)
    ensures
        axum_body_bytes(r) == warp_body_bytes(b),
{
    axum::body::Body::from_stream(b.into_stream())
}

/// Relies on `axum::body::Body::from::<String>`: the body yields exactly the
/// string's UTF-8 bytes.
#[verifier::external_body]
pub fn text_body(s: String) -> (r: axum::body::Body)
    ensures
        axum_body_bytes(r) == vstd::utf8::encode_utf8(s@),
{
    axum::body::Body::from(s)
}

} // verus!
