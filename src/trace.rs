//! The per-request trace id, under which stats are kept: the request's
//! `traceparent` header, or a random id when it has none.

use vstd::prelude::*;
use vstd::string::StringSliceAdditionalSpecFns;
use crate::property::{append_bytes, is_utf8, utf8_valid};
use crate::wire::{HostError, HostMessage, MapType};

verus! {

/// The request header that carries the trace id.
pub const TRACEPARENT_HEADER: &'static str = "traceparent";

/// Length of a trace id made up when the request carries none.
pub const RANDOM_TRACE_ID_LEN: usize = 10;

/// A byte of nanoid's URL-safe alphabet.
pub open spec fn is_url_safe(b: u8) -> bool {
    (48 <= b <= 57) || (65 <= b <= 90) || (97 <= b <= 122) || b == 95 || b == 45
}

/// Relies on `nanoid::format` with nanoid's default random source and its
/// URL-safe alphabet, which is what `nanoid!(size)` expands to: `size`
/// characters of that alphabet, one byte each. It returns only once it has
/// a character, so `size` must not be zero.
#[verifier::external_body]
fn random_id(size: usize) -> (r: Vec<u8>)
    requires
        0 < size <= 1024,
    ensures
        r@.len() == size,
        forall|i: int| 0 <= i < r@.len() ==> is_url_safe(#[trigger] r@[i]),
{
    nanoid::format(nanoid::rngs::default, &nanoid::alphabet::SAFE, size).into_bytes()
}

/// The query for the request's trace header.
pub fn traceparent_query() -> (r: HostMessage)
    ensures
        r matches HostMessage::GetMapValue { map_type, key } && map_type
            == MapType::HttpRequestHeaders && key@ == TRACEPARENT_HEADER.spec_bytes(),
{
    let mut key: Vec<u8> = Vec::new();
    append_bytes(&mut key, TRACEPARENT_HEADER.as_bytes());
    HostMessage::GetMapValue { map_type: MapType::HttpRequestHeaders, key }
}

/// The trace id that the proxy's answer carries: a non-empty UTF-8 header
/// value. `None` when the answer failed, was empty or was not UTF-8.
pub fn trace_from_reply(reply: Result<Vec<u8>, HostError>) -> (r: Option<Vec<u8>>)
    ensures
        r is Some <==> (reply matches Ok(v) && v@.len() > 0 && is_utf8(v@)),
        r matches Some(t) ==> reply matches Ok(v) && t@ == v@,
{
    match reply {
        Ok(v) => if v.len() > 0 && utf8_valid(&v) {
            Some(v)
        } else {
            None
        },
        Err(_) => None,
    }
}

/// The trace id for a request: the one the proxy's answer carries, else a
/// random id of ten URL-safe characters.
pub fn trace_id(reply: Result<Vec<u8>, HostError>) -> (r: Vec<u8>)
    ensures
        (reply matches Ok(v) && v@.len() > 0 && is_utf8(v@)) ==> (reply matches Ok(v) && r@ == v@),
        !(reply matches Ok(v) && v@.len() > 0 && is_utf8(v@)) ==> r@.len() == RANDOM_TRACE_ID_LEN
            && forall|i: int| 0 <= i < r@.len() ==> is_url_safe(#[trigger] r@[i]),
{
    match trace_from_reply(reply) {
        Some(t) => t,
        None => random_id(RANDOM_TRACE_ID_LEN),
    }
}

/// Property names that each store gets for its request.
pub const CLIENT_IP_PROPERTY: &'static str = "client_ip";
pub const TRACEPARENT_PROPERTY: &'static str = "traceparent";
pub const REQUESTOR_PROPERTY: &'static str = "requestor";

/// The properties installed in a request's store: the client address the
/// proxy reported, the trace id and the node's host name, in that order.
/// The client address must be valid UTF-8.
pub fn request_properties(client_ip: &[u8], trace: &[u8], hostname: &str) -> (r: Result<
    Vec<(Vec<u8>, Vec<u8>)>,
    HostError,
>)
    ensures
        r is Ok <==> is_utf8(client_ip@),
        r matches Err(e) ==> e == HostError::Utf8Error,
        r matches Ok(p) ==> p@.len() == 3 && p@[0].0@ == CLIENT_IP_PROPERTY.spec_bytes() && p@[0].1@
            == client_ip@ && p@[1].0@ == TRACEPARENT_PROPERTY.spec_bytes() && p@[1].1@ == trace@
            && p@[2].0@ == REQUESTOR_PROPERTY.spec_bytes() && p@[2].1@ == hostname.spec_bytes(),
{
    if !utf8_valid(client_ip) {
        return Err(HostError::Utf8Error);
    }
    let mut k0: Vec<u8> = Vec::new();
    append_bytes(&mut k0, CLIENT_IP_PROPERTY.as_bytes());
    let mut v0: Vec<u8> = Vec::new();
    append_bytes(&mut v0, client_ip);
    let mut k1: Vec<u8> = Vec::new();
    append_bytes(&mut k1, TRACEPARENT_PROPERTY.as_bytes());
    let mut v1: Vec<u8> = Vec::new();
    append_bytes(&mut v1, trace);
    let mut k2: Vec<u8> = Vec::new();
    append_bytes(&mut k2, REQUESTOR_PROPERTY.as_bytes());
    let mut v2: Vec<u8> = Vec::new();
    append_bytes(&mut v2, hostname.as_bytes());
    let mut p: Vec<(Vec<u8>, Vec<u8>)> = Vec::new();
    p.push((k0, v0));
    p.push((k1, v1));
    p.push((k2, v2));
    Ok(p)
}

} // verus!
