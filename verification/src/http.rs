//! The plain data that an operation's request and response are made of.
//!
//! A request is a method, a complete URL, a header list and a body, all held
//! as ordinary values; the embedding application turns it into a wire request
//! and brings back the response's status code and body bytes.

use vstd::prelude::*;
use vstd::string::*;

verus! {

/// The HTTP methods the operations use.
#[derive(Clone, Copy, PartialEq, Eq, Structural, Debug)]
pub enum Method {
    Get,
    Post,
    Patch,
    Put,
    Delete,
}

/// A fully assembled HTTP request.
pub struct Request {
    pub method: Method,
    pub url: String,
    pub headers: Vec<(String, String)>,
    pub body: Vec<u8>,
}

/// The error a failed operation reports: the response's status code, with
/// the server-supplied error code when one was present.
#[derive(PartialEq, Eq, Debug)]
pub enum ApiError {
    HttpResponse { status: u16, error_code: Option<String> },
}

/// The header list of a request that carries a JSON body: exactly
/// `content-type: application/json`.
pub open spec fn is_json_headers(h: Seq<(String, String)>) -> bool {
    h.len() == 1 && h[0].0@ == "content-type"@ && h[0].1@ == "application/json"@
}

/// The one header a JSON-carrying request needs.
pub fn json_content_headers() -> (h: Vec<(String, String)>)
    ensures
        is_json_headers(h@),
{
    let mut h: Vec<(String, String)> = Vec::new();
    h.push((String::from_str("content-type"), String::from_str("application/json")));
    h
}

/// The header list of a request that carries a JSON patch document:
/// exactly `content-type: application/json-patch+json`.
pub open spec fn is_json_patch_headers(h: Seq<(String, String)>) -> bool {
    h.len() == 1 && h[0].0@ == "content-type"@ && h[0].1@ == "application/json-patch+json"@
}

/// The one header a JSON-patch-carrying request needs.
pub fn json_patch_content_headers() -> (h: Vec<(String, String)>)
    ensures
        is_json_patch_headers(h@),
{
    let mut h: Vec<(String, String)> = Vec::new();
    h.push((String::from_str("content-type"), String::from_str("application/json-patch+json")));
    h
}

/// Copies a body's bytes.
pub fn clone_bytes(v: &Vec<u8>) -> (r: Vec<u8>)
    ensures
        r@ == v@,
{
    let mut r: Vec<u8> = Vec::new();
    let mut i: usize = 0;
    while i < v.len()
        invariant
            i <= v@.len(),
            r@ == v@.take(i as int),
        decreases v@.len() - i,
    {
        r.push(v[i]);
        proof {
            assert(r@ =~= v@.take(i + 1));
        }
        i = i + 1;
    }
    proof {
        assert(v@.take(v@.len() as int) =~= v@);
    }
    r
}

/// Accepts the body of a `200 OK` response and turns every other status
/// into the error that carries it.
pub fn interpret_response(status: u16, body: Vec<u8>) -> (r: Result<Vec<u8>, ApiError>)
    ensures
        match r {
            Ok(b) => status == 200 && b == body,
            Err(e) => status != 200 && e == (ApiError::HttpResponse {
                status,
                error_code: None,
            }),
        },
{
    if status == 200 {
        Ok(body)
    } else {
        Err(ApiError::HttpResponse { status, error_code: None })
    }
}

} // verus!
