//! Contracts for the header and status types of the `http` crate, as `hyper`
//! hands them on.

use hyper::header::HeaderMap;
use hyper::header::HeaderValue;
use hyper::StatusCode;
use vstd::prelude::*;

verus! {

/// `http::HeaderValue`: the value of a header, known by its bytes alone.
#[verifier::external_type_specification]
#[verifier::external_body]
pub struct ExHeaderValue(hyper::header::HeaderValue);

/// `http::HeaderMap`: the headers of a message, known by what a lookup finds.
#[verifier::external_type_specification]
#[verifier::external_body]
#[verifier::reject_recursive_types(T)]
pub struct ExHeaderMap<T>(hyper::header::HeaderMap<T>);

/// `http::StatusCode`: the status of a response, known by its number alone.
#[verifier::external_type_specification]
#[verifier::external_body]
pub struct ExStatusCode(hyper::StatusCode);

/// The bytes of a header value.
pub uninterp spec fn header_value_bytes(v: HeaderValue) -> Seq<u8>;

/// `HeaderValue::clone` copies the value's bytes.
pub assume_specification[ <HeaderValue as Clone>::clone ](v: &HeaderValue) -> (c: HeaderValue)
    ensures
        header_value_bytes(c) == header_value_bytes(*v),
;

/// The number of a status code.
pub uninterp spec fn status_number(s: StatusCode) -> u16;

/// `StatusCode::as_u16` gives the number of the status code.
pub assume_specification[ StatusCode::as_u16 ](s: &StatusCode) -> (n: u16)
    ensures
        n == status_number(*s),
;

/// The bytes of the first value that a header map holds under a name, if it
/// holds one. Names are matched without regard to case.
pub uninterp spec fn header_lookup(headers: HeaderMap, name: Seq<char>) -> Option<Seq<u8>>;

/// `HeaderMap::get` with a name given as text, and `HeaderValue::as_bytes` on
/// what it finds.
#[verifier::external_body]
pub(crate) fn header_bytes(headers: &HeaderMap, name: &str) -> (value: Option<Vec<u8>>)
    ensures
        match value {
            Some(v) => header_lookup(*headers, name@) == Some(v@),
            None => header_lookup(*headers, name@) is None,
        },
{
    headers.get(name).map(|v| v.as_bytes().to_vec())
}

} // verus!
