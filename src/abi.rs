//! The host ABI's operations that go to the proxy: which map and buffer types
//! they serve and which message each one sends.

use vstd::prelude::*;
use crate::property::{is_utf8, utf8_valid};
use crate::wire::{BufferType, HostError, HostMessage, MapType};

verus! {

/// The status code a host function returns to the module for an outcome.
pub fn status_code_of(r: &Result<(), HostError>) -> (c: i32)
    ensures
        r is Ok ==> c == 0,
        r matches Err(e) ==> c == e.spec_status().spec_code(),
{
    match r {
        Ok(()) => 0,
        Err(e) => e.status().code(),
    }
}

/// The answer of the ABI entries that are offered but not implemented:
/// shared data and queues, stream control, HTTP and gRPC calls, status,
/// effective context and foreign functions.
pub fn unimplemented_entry() -> (r: i32)
    ensures
        r == crate::wire::ProxyStatus::Unimplemented.spec_code(),
{
    crate::wire::ProxyStatus::Unimplemented.code()
}

/// The module's `proxy_done` call always succeeds.
pub fn proxy_done() -> (r: i32)
    ensures
        r == 0,
{
    0
}

/// Accepts a log message from the module; it must be valid UTF-8.
pub fn proxy_log(level: i32, message: &[u8]) -> (r: Result<(), HostError>)
    ensures
        r is Ok <==> is_utf8(message@),
        r matches Err(e) ==> e == HostError::Utf8Error,
{
    if utf8_valid(message) {
        Ok(())
    } else {
        Err(HostError::Utf8Error)
    }
}

/// Accepts a text argument of a host function: it must be valid UTF-8, else
/// the call fails with `BadArgument`.
pub fn text_argument(value: &[u8]) -> (r: Result<(), crate::wire::ProxyStatus>)
    ensures
        r is Ok <==> is_utf8(value@),
        r matches Err(s) ==> s == crate::wire::ProxyStatus::BadArgument,
{
    if utf8_valid(value) {
        Ok(())
    } else {
        Err(crate::wire::ProxyStatus::BadArgument)
    }
}

/// The current time for the module, from the nanoseconds since the epoch
/// (`None` when the clock is before the epoch): kept to its low 64 bits.
pub fn current_time_nanoseconds(since_epoch: Option<u128>) -> (r: Result<u64, HostError>)
    ensures
        since_epoch is None ==> r == Err::<u64, HostError>(HostError::InternalFailure),
        since_epoch matches Some(n) ==> r == Ok::<u64, HostError>((n % 0x1_0000_0000_0000_0000) as u64),
{
    match since_epoch {
        Some(n) => Ok((n % 0x1_0000_0000_0000_0000u128) as u64),
        None => Err(HostError::InternalFailure),
    }
}

/// Tick timers are not offered.
pub fn proxy_set_tick_period_milliseconds() -> (r: Result<u64, HostError>)
    ensures
        r == Err::<u64, HostError>(HostError::Unimplemented),
{
    Err(HostError::Unimplemented)
}

/// Reads from a body buffer; other buffers are not served.
pub fn proxy_get_buffer_bytes(buffer_type: BufferType, offset: i32, max_size: i32) -> (r: Result<
    HostMessage,
    HostError,
>)
    ensures
        buffer_type.spec_is_body() ==> (r matches Ok(HostMessage::GetBufferBytes { buffer_type: t, start, max_size: m }) && t == buffer_type && start == offset && m == max_size),
        !buffer_type.spec_is_body() ==> r == Err::<HostMessage, HostError>(HostError::Unimplemented),
{
    match buffer_type {
        BufferType::HttpRequestBody | BufferType::HttpResponseBody => Ok(
            HostMessage::GetBufferBytes { buffer_type, start: offset, max_size },
        ),
        _ => Err(HostError::Unimplemented),
    }
}

/// Writes into a body buffer; other buffers are not served.
pub fn proxy_set_buffer_bytes(buffer_type: BufferType, offset: i32, size: i32, value: Vec<u8>) -> (r:
    Result<HostMessage, HostError>)
    ensures
        buffer_type.spec_is_body() ==> (r matches Ok(HostMessage::SetBufferBytes { buffer_type: t, start, size: s, value: v }) && t == buffer_type && start == offset && s == size && v@ == value@),
        !buffer_type.spec_is_body() ==> r == Err::<HostMessage, HostError>(HostError::Unimplemented),
{
    match buffer_type {
        BufferType::HttpRequestBody | BufferType::HttpResponseBody => Ok(
            HostMessage::SetBufferBytes { buffer_type, start: offset, size, value },
        ),
        _ => Err(HostError::Unimplemented),
    }
}

/// Reads all pairs of a header map; other maps are not served.
pub fn proxy_get_header_map_pairs(map_type: MapType) -> (r: Result<HostMessage, HostError>)
    ensures
        map_type.spec_is_header_map() ==> (r matches Ok(HostMessage::GetMapPairs { map_type: t }) && t == map_type),
        !map_type.spec_is_header_map() ==> r == Err::<HostMessage, HostError>(HostError::Unimplemented),
{
    match map_type {
        MapType::HttpRequestHeaders | MapType::HttpResponseHeaders => Ok(
            HostMessage::GetMapPairs { map_type },
        ),
        _ => Err(HostError::Unimplemented),
    }
}

/// Replaces all pairs of a header map; other maps are not served.
pub fn proxy_set_header_map_pairs(map_type: MapType, map: Vec<u8>) -> (r: Result<HostMessage, HostError>)
    ensures
        map_type.spec_is_header_map() ==> (r matches Ok(HostMessage::SetMapPairs { map_type: t, map: m }) && t == map_type && m@ == map@),
        !map_type.spec_is_header_map() ==> r == Err::<HostMessage, HostError>(HostError::Unimplemented),
{
    match map_type {
        MapType::HttpRequestHeaders | MapType::HttpResponseHeaders => Ok(
            HostMessage::SetMapPairs { map_type, map },
        ),
        _ => Err(HostError::Unimplemented),
    }
}

/// Reads one header; other maps are not served.
pub fn proxy_get_header_map_value(map_type: MapType, key: Vec<u8>) -> (r: Result<HostMessage, HostError>)
    ensures
        map_type.spec_is_header_map() ==> (r matches Ok(HostMessage::GetMapValue { map_type: t, key: k }) && t == map_type && k@ == key@),
        !map_type.spec_is_header_map() ==> r == Err::<HostMessage, HostError>(HostError::Unimplemented),
{
    match map_type {
        MapType::HttpRequestHeaders | MapType::HttpResponseHeaders => Ok(
            HostMessage::GetMapValue { map_type, key },
        ),
        _ => Err(HostError::Unimplemented),
    }
}

/// Replaces one header's value; other maps are not served.
pub fn proxy_replace_header_map_value(map_type: MapType, key: Vec<u8>, value: Vec<u8>) -> (r: Result<
    HostMessage,
    HostError,
>)
    ensures
        map_type.spec_is_header_map() ==> (r matches Ok(HostMessage::ReplaceMapValue { map_type: t, key: k, value: v }) && t == map_type && k@ == key@ && v@ == value@),
        !map_type.spec_is_header_map() ==> r == Err::<HostMessage, HostError>(HostError::Unimplemented),
{
    match map_type {
        MapType::HttpRequestHeaders | MapType::HttpResponseHeaders => Ok(
            HostMessage::ReplaceMapValue { map_type, key, value },
        ),
        _ => Err(HostError::Unimplemented),
    }
}

/// Removes one header; other maps are not served.
pub fn proxy_remove_header_map_value(map_type: MapType, key: Vec<u8>) -> (r: Result<HostMessage, HostError>)
    ensures
        map_type.spec_is_header_map() ==> (r matches Ok(HostMessage::RemoveMapValue { map_type: t, key: k }) && t == map_type && k@ == key@),
        !map_type.spec_is_header_map() ==> r == Err::<HostMessage, HostError>(HostError::Unimplemented),
{
    match map_type {
        MapType::HttpRequestHeaders | MapType::HttpResponseHeaders => Ok(
            HostMessage::RemoveMapValue { map_type, key },
        ),
        _ => Err(HostError::Unimplemented),
    }
}

/// Adds a header value; other maps are not served.
pub fn proxy_add_header_map_value(map_type: MapType, key: Vec<u8>, value: Vec<u8>) -> (r: Result<
    HostMessage,
    HostError,
>)
    ensures
        map_type.spec_is_header_map() ==> (r matches Ok(HostMessage::AddMapValue { map_type: t, key: k, value: v }) && t == map_type && k@ == key@ && v@ == value@),
        !map_type.spec_is_header_map() ==> r == Err::<HostMessage, HostError>(HostError::Unimplemented),
{
    match map_type {
        MapType::HttpRequestHeaders | MapType::HttpResponseHeaders => Ok(
            HostMessage::AddMapValue { map_type, key, value },
        ),
        _ => Err(HostError::Unimplemented),
    }
}

/// Sets a property at the proxy.
pub fn proxy_set_property(path: Vec<u8>, value: Vec<u8>) -> (r: HostMessage)
    ensures
        r matches HostMessage::SetProperty { path: p, value: v } && p@ == path@ && v@ == value@,
{
    HostMessage::SetProperty { path, value }
}

} // verus!
