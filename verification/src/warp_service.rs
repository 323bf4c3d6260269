//! The adapter's call logic.
//!
//! One call of the adapter runs in three steps: [`begin_call`] translates the
//! inbound host-side request and decides whether the warp side is invoked at
//! all; the caller then drives its warp filter with the translated request;
//! [`finish_call`] turns whatever the filter produced — a reply or one of its
//! own rejections — into the host-side response. Any translation fault
//! short-circuits into the synthetic response of
//! [`create_conversion_error_response`], so a call always yields a
//! well-formed response: the worst observable outcome is a 500.
//!
//! The host-facing service type that owns a shared filter handle and drives
//! these steps asynchronously lives outside this crate; everything it decides
//! is decided here.

use vstd::prelude::*;

use crate::body::{axum_body_bytes, text_body, warp_body_bytes};
use crate::convert_request::{
    into_warp_request, is_translated_request, request_error, request_translatable,
};
use crate::convert_response::{into_axum_response, is_translated_response};
use crate::model::{
    status_valid, AxumRequest, AxumResponse, HeaderField, HttpVersion, TranslationError,
    WarpRequest, WarpResponse,
};
use vstd::string::StrSliceExecFns;
use vstd::string::StringExecFns;
use vstd::utf8::encode_utf8;

verus! {

/// The diagnostic detail the synthetic 500 body carries for each translation
/// fault.
pub open spec fn error_detail(e: TranslationError) -> Seq<char> {
    match e {
        TranslationError::InvalidMethod => "invalid method token"@,
        TranslationError::InvalidUri => "invalid URI"@,
        TranslationError::InvalidStatus => "invalid status code"@,
        TranslationError::BodyReadError => "body could not be read"@,
        TranslationError::ResponseBuildError => "response could not be built"@,
    }
}

fn error_detail_str(e: TranslationError) -> (r: &'static str)
    ensures
        r@ == error_detail(e),
{
    match e {
        TranslationError::InvalidMethod => "invalid method token",
        TranslationError::InvalidUri => "invalid URI",
        TranslationError::InvalidStatus => "invalid status code",
        TranslationError::BodyReadError => "body could not be read",
        TranslationError::ResponseBuildError => "response could not be built",
    }
}

/// The full text of the synthetic 500 body for a translation fault.
pub open spec fn fallback_message(e: TranslationError) -> Seq<char> {
    "Conversion error: "@ + error_detail(e)
}

/// The response `r` is the synthetic answer to the translation fault `e`:
/// status 500, version HTTP/1.1, a single `content-type: text/plain` header,
/// and the diagnostic text as its body.
pub open spec fn is_fallback_response(r: AxumResponse, e: TranslationError) -> bool {
    &&& r.status == 500
    &&& r.version == HttpVersion::H11
    &&& r.headers@.len() == 1
    &&& r.headers@[0].name@ == "content-type"@
    &&& r.headers@[0].value@ == encode_utf8("text/plain"@)
    &&& axum_body_bytes(r.body) == encode_utf8(fallback_message(e))
}

/// Builds the synthetic response for a translation fault: a 500 with a
/// plain-text diagnostic body. This path cannot itself fail — every field is
/// assembled from plain values.
pub fn create_conversion_error_response(err: TranslationError) -> (r: AxumResponse)
    ensures
        is_fallback_response(r, err),
{
    let mut message = ("Conversion error: ").to_owned();
    message.append(error_detail_str(err));
    let mut headers: Vec<HeaderField> = Vec::new();
    headers.push(
        HeaderField { name: ("content-type").to_owned(), value: ("text/plain").as_bytes_vec() },
    );
    AxumResponse {
        status: 500,
        version: HttpVersion::H11,
        headers,
        body: text_body(message),
    }
}

/// What one call does after the inbound request is examined: invoke the warp
/// filter with the translated request, or answer at once without ever
/// reaching the filter.
pub enum CallStep {
    Invoke(WarpRequest),
    Respond(AxumResponse),
}

/// The first half of a call: translates the inbound request. A translatable
/// request — and only such a one — reaches the warp side, translated exactly;
/// anything else is answered at once with the synthetic 500 for the fault
/// found. This function has no precondition and never fails.
pub fn begin_call(req: AxumRequest) -> (s: CallStep)
    ensures
        s is Invoke <==> request_translatable(req),
        s is Invoke ==> is_translated_request(s->Invoke_0, req),
        s is Respond ==> is_fallback_response(s->Respond_0, request_error(req)),
{
    match into_warp_request(req) {
        Ok(translated) => CallStep::Invoke(translated),
        Err(err) => CallStep::Respond(create_conversion_error_response(err)),
    }
}

/// The second half of a call: turns what the warp side produced into the
/// host-side response. A reply and a rejection are treated alike — whatever
/// status, headers and body the warp side chose pass through unchanged. Only
/// a status outside 100..=599 is a fault, answered with the synthetic 500.
/// This function has no precondition and never fails, and the response it
/// returns always carries a valid status: the worst observable outcome of a
/// call is a 500.
pub fn finish_call(resp: WarpResponse) -> (r: AxumResponse)
    ensures
        status_valid(resp.status) ==> is_translated_response(r, resp),
        !status_valid(resp.status) ==> is_fallback_response(
            r,
            TranslationError::InvalidStatus,
        ),
        status_valid(r.status),
{
    match into_axum_response(resp) {
        Ok(translated) => translated,
        Err(err) => create_conversion_error_response(err),
    }
}

/// Law: translation is lossless across a round trip. Take a request carried
/// to the warp side by [`into_warp_request`], and suppose the warp side
/// answers with a response echoing that request's version, headers and body
/// bytes; once [`into_axum_response`] carries the answer back, the headers
/// and the body bytes are the request's originals, byte-identical, and a
/// recognized version is the original version.
pub proof fn lemma_translation_round_trip(
    req: AxumRequest,
    translated: WarpRequest,
    resp: WarpResponse,
    out: AxumResponse,
)
    requires
        is_translated_request(translated, req),
        resp.version == translated.version,
        resp.headers == translated.headers,
        warp_body_bytes(resp.body) == warp_body_bytes(translated.body),
        is_translated_response(out, resp),
    ensures
        out.headers == req.headers,
        axum_body_bytes(out.body) == axum_body_bytes(req.body),
        req.version.is_recognized() ==> out.version == req.version,
{
}

} // verus!
