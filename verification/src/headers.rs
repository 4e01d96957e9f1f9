//! Request headers: reading a field of an `http` header map as text.

use axum::http::{HeaderMap, HeaderValue};
use vstd::prelude::*;

verus! {

/// `http::HeaderMap`, the multimap from header names to values, as `axum`
/// hands it on. Nothing is known of a value of this type but what
/// `header_fields` names.
#[verifier::external_type_specification]
#[verifier::external_body]
#[verifier::reject_recursive_types(T)]
pub struct ExHeaderMap<T>(HeaderMap<T>);

/// `http::HeaderValue`, the bytes of one header value. Nothing is known of
/// a value of this type but what `value_bytes` names.
#[verifier::external_type_specification]
#[verifier::external_body]
pub struct ExHeaderValue(HeaderValue);

/// The bytes that a header value holds: what `HeaderValue::as_bytes` shows
/// and `HeaderValue::to_str` scans.
pub uninterp spec fn value_bytes(value: HeaderValue) -> Seq<u8>;

/// What `headers` holds, as `HeaderMap::get` shows it: each name under
/// which a value is found, with the bytes of the first value stored under
/// it.
pub uninterp spec fn header_fields(headers: HeaderMap<HeaderValue>) -> Map<Seq<char>, Seq<u8>>;

/// The bytes that `HeaderValue::to_str` accepts: printable ASCII and the
/// horizontal tab.
pub open spec fn is_visible_byte(b: u8) -> bool {
    (32 <= b && b < 127) || b == 9
}

/// Whether every byte of `bytes` is visible.
pub open spec fn all_visible(bytes: Seq<u8>) -> bool {
    forall|i: int| 0 <= i < bytes.len() ==> is_visible_byte(#[trigger] bytes[i])
}

/// The text that a sequence of ASCII bytes spells.
pub open spec fn ascii_text(bytes: Seq<u8>) -> Seq<char> {
    Seq::new(bytes.len(), |i: int| bytes[i] as char)
}

/// What a header value reads as: its text where all its bytes are visible,
/// nothing otherwise.
pub open spec fn visible_text(bytes: Seq<u8>) -> Option<Seq<char>> {
    if all_visible(bytes) {
        Some(ascii_text(bytes))
    } else {
        None
    }
}

/// The text of the first value under `name`, where there is one and it is
/// visible.
pub open spec fn header_text(headers: HeaderMap<HeaderValue>, name: Seq<char>) -> Option<Seq<char>> {
    match header_fields(headers).get(name) {
        Some(bytes) => visible_text(bytes),
        None => None,
    }
}

/// The view of an optional string slice.
pub open spec fn opt_text(s: Option<&str>) -> Option<Seq<char>> {
    match s {
        Some(t) => Some(t@),
        None => None,
    }
}

/// Calls `HeaderMap::get` with a string key. The map is searched for the
/// name, and a reference to the first value stored under it is returned, or
/// nothing where there is none; the contract says so over `header_fields`.
#[verifier::external_body]
fn header_get<'a>(headers: &'a HeaderMap<HeaderValue>, name: &str) -> (r: Option<&'a HeaderValue>)
    ensures
        match r {
            Some(v) => header_fields(*headers).get(name@) == Some(value_bytes(*v)),
            None => header_fields(*headers).get(name@) is None,
        },
{
    headers.get(name)
}

/// Calls `HeaderValue::to_str`, which scans the value and yields it as a
/// string slice exactly when every byte is printable ASCII or a tab; the
/// slice then spells those bytes one character each.
#[verifier::external_body]
fn value_to_str<'a>(value: &'a HeaderValue) -> (r: Option<&'a str>)
    ensures
        opt_text(r) == visible_text(value_bytes(*value)),
{
    value.to_str().ok()
}

/// Reads the header `name` as text: the first value stored under it, if
/// that value is made of visible bytes only.
pub fn header_str<'a>(headers: &'a HeaderMap<HeaderValue>, name: &str) -> (r: Option<&'a str>)
    ensures
        opt_text(r) == header_text(*headers, name@),
{
    match header_get(headers, name) {
        Some(v) => value_to_str(v),
        None => None,
    }
}

/// The address to report for a caller: the forwarded address where the
/// proxy supplied a readable one, the transport peer otherwise.
pub open spec fn remote_addr_of(real_ip: Option<Seq<char>>, peer: Seq<char>) -> Seq<char> {
    match real_ip {
        Some(addr) => addr,
        None => peer,
    }
}

/// Chooses between the forwarded address and the transport peer.
pub fn remote_addr(real_ip: Option<&str>, peer: &str) -> (r: String)
    ensures
        r@ == remote_addr_of(opt_text(real_ip), peer@),
{
    match real_ip {
        Some(addr) => addr.to_owned(),
        None => peer.to_owned(),
    }
}

/// The caller's address for the audit trail: the `x-real-ip` header where
/// it is present and readable, else `peer`, the transport-layer address.
pub fn get_remote_addr(headers: &HeaderMap<HeaderValue>, peer: &str) -> (r: String)
    ensures
        r@ == remote_addr_of(header_text(*headers, "x-real-ip"@), peer@),
{
    remote_addr(header_str(headers, "x-real-ip"), peer)
}

} // verus!
