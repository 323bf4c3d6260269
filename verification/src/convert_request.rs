//! Translation of a host-side request into the warp-side form.
//!
//! The method token and the URI must re-parse under the warp-side grammar;
//! the version is coerced as [`coerced_version`] says; headers and the body
//! are carried over unchanged.

use vstd::prelude::*;

use crate::body::{axum_body_bytes, into_warp_body, warp_body_bytes};
use crate::model::{
    coerced_version, convert_version, AxumRequest, TranslationError, WarpRequest,
};

verus! {

/// The characters an HTTP method token may contain: the token characters of
/// the warp-side method grammar.
pub open spec fn method_char(c: char) -> bool {
    ||| c == '!'
    ||| c == '*'
    ||| c == '+'
    ||| c == '-'
    ||| c == '.'
    ||| '0' <= c <= '9'
    ||| 'A' <= c <= 'Z'
    ||| c == '^'
    ||| c == '_'
    ||| c == '`'
    ||| 'a' <= c <= 'z'
    ||| c == '|'
    ||| c == '~'
}

/// A method token is valid when it is non-empty and made of token characters
/// only.
pub open spec fn method_token_valid(s: Seq<char>) -> bool {
    s.len() > 0 && (forall|i: int| 0 <= i < s.len() ==> method_char(s[i]))
}

/// Whether the warp-side URI grammar accepts the string. The grammar is the
/// full URI syntax of the warp-side parser; only the parser itself decides it.
pub uninterp spec fn uri_accepted(s: Seq<char>) -> bool;

/// Relies on `warp::http::Method::from_str`: it accepts exactly the non-empty
/// strings whose bytes all lie in its method-character table, which holds the
/// ASCII characters of [`method_char`] and nothing else.
#[verifier::external_body]
fn method_parses(s: &str) -> (r: bool)
    ensures
        r == method_token_valid(s@),
{
    <warp::http::Method as std::str::FromStr>::from_str(s).is_ok()
}

/// Relies on `warp::http::Uri::try_from`: its success is a function of the
/// string alone, named here by [`uri_accepted`].
#[verifier::external_body]
fn uri_parses(s: &str) -> (r: bool)
    ensures
        r == uri_accepted(s@),
{
    warp::http::Uri::try_from(s).is_ok()
}

/// A request translates successfully exactly when its method token and its
/// URI both parse under the warp-side grammar.
pub open spec fn request_translatable(req: AxumRequest) -> bool {
    method_token_valid(req.method@) && uri_accepted(req.uri@)
}

/// The fault reported for an untranslatable request: the method is checked
/// first, then the URI.
pub open spec fn request_error(req: AxumRequest) -> TranslationError {
    if !method_token_valid(req.method@) {
        TranslationError::InvalidMethod
    } else {
        TranslationError::InvalidUri
    }
}

/// The warp-side request `t` is the translation of the host-side request
/// `req`: the method token, the URI, every header field in its original
/// order, and the body's bytes are identical, and the version is coerced.
pub open spec fn is_translated_request(t: WarpRequest, req: AxumRequest) -> bool {
    &&& t.method == req.method
    &&& t.uri == req.uri
    &&& t.version == coerced_version(req.version)
    &&& t.headers == req.headers
    &&& warp_body_bytes(t.body) == axum_body_bytes(req.body)
}

/// Translates a host-side request into the warp-side form.
///
/// Succeeds exactly when the method token and the URI re-parse under the
/// warp-side grammar; the translation preserves the method token, the URI,
/// the headers (names, values, duplicates and order) and the body bytes, and
/// coerces the version. On failure it reports which of the two parses was
/// refused.
pub fn into_warp_request(req: AxumRequest) -> (r: Result<WarpRequest, TranslationError>)
    ensures
        r is Ok <==> request_translatable(req),
        r is Ok ==> is_translated_request(r->Ok_0, req),
        r is Err ==> r->Err_0 == request_error(req),
{
    let AxumRequest { method, uri, version, headers, body } = req;
    if !method_parses(method.as_str()) {
        return Err(TranslationError::InvalidMethod);
    }
    if !uri_parses(uri.as_str()) {
        return Err(TranslationError::InvalidUri);
    }
    Ok(
        WarpRequest {
            method,
            uri,
            version: convert_version(version),
            headers,
            body: into_warp_body(body),
        },
    )
}

/// Law: each of the nine standard request methods — GET, POST, PUT, DELETE,
/// HEAD, OPTIONS, CONNECT, PATCH and TRACE — is a valid method token, so by
/// the contract of [`into_warp_request`] a request bearing one of them is
/// never refused for its method, and its token reaches the warp side
/// unchanged.
pub proof fn lemma_standard_method_tokens_valid()
    ensures
        method_token_valid("GET"@),
        method_token_valid("POST"@),
        method_token_valid("PUT"@),
        method_token_valid("DELETE"@),
        method_token_valid("HEAD"@),
        method_token_valid("OPTIONS"@),
        method_token_valid("CONNECT"@),
        method_token_valid("PATCH"@),
        method_token_valid("TRACE"@),
{
    reveal_strlit("GET");
    reveal_strlit("POST");
    reveal_strlit("PUT");
    reveal_strlit("DELETE");
    reveal_strlit("HEAD");
    reveal_strlit("OPTIONS");
    reveal_strlit("CONNECT");
    reveal_strlit("PATCH");
    reveal_strlit("TRACE");
}

} // verus!
