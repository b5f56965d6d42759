//! The host functions as the module calls them: raw codes and pointers into
//! its memory in, a status code out. Each entry decodes its arguments, reads
//! its inputs from memory, and builds the call for the proxy; a second step
//! turns the proxy's answer into the status and writes any result back.
//! Awaiting the proxy and calling the module's allocator happen in between,
//! outside the library.

use vstd::prelude::*;
use crate::abi;
use crate::guest::{range_in, read_guest, return_bytes, return_fits, returned, unsigned};
use crate::property::is_utf8;
use crate::proxy::Proxy;
use crate::store::Dictionary;
use crate::wire::{BufferType, HostError, HostMessage, MapType, ProxyStatus};

verus! {

/// The bytes of the module's input `(ptr, size)`.
pub open spec fn input(m: Seq<u8>, ptr: i32, size: i32) -> Seq<u8> {
    m.subrange(unsigned(ptr), unsigned(ptr) + unsigned(size))
}

/// The status code of `s`.
pub open spec fn code(s: ProxyStatus) -> i32 {
    s.spec_code()
}

fn read_input(mem: &[u8], ptr: i32, size: i32) -> (r: Result<Vec<u8>, i32>)
    ensures
        range_in(mem@.len() as int, ptr, size) ==> (r matches Ok(v) && v@ == input(mem@, ptr, size)),
        !range_in(mem@.len() as int, ptr, size) ==> r == Err::<Vec<u8>, i32>(code(ProxyStatus::InvalidMemoryAccess)),
{
    match read_guest(mem, ptr, size) {
        Some(v) => Ok(v),
        None => Err(ProxyStatus::InvalidMemoryAccess.code()),
    }
}

fn map_type_of(map_code: i32) -> (r: Result<MapType, i32>)
    ensures
        MapType::spec_from_code(map_code) matches Some(t) ==> r == Ok::<MapType, i32>(t),
        MapType::spec_from_code(map_code) is None ==> r == Err::<MapType, i32>(code(ProxyStatus::BadArgument)),
{
    match MapType::from_code(map_code) {
        Some(t) => Ok(t),
        None => Err(ProxyStatus::BadArgument.code()),
    }
}

fn to_code(r: Result<HostMessage, HostError>) -> (c: Result<HostMessage, i32>)
    ensures
        r is Ok <==> c is Ok,
        r matches Ok(m) ==> c == Ok::<HostMessage, i32>(m),
        r matches Err(e) ==> c == Err::<HostMessage, i32>(code(e.spec_status())),
{
    match r {
        Ok(m) => Ok(m),
        Err(e) => Err(e.status().code()),
    }
}

/// `proxy_get_header_map_pairs`: `BadArgument` for an unknown map code,
/// `Unimplemented` for a map other than the header maps, else the call.
pub fn get_header_map_pairs_call(map_code: i32) -> (r: Result<HostMessage, i32>)
    ensures
        MapType::spec_from_code(map_code) is None ==> r == Err::<HostMessage, i32>(code(ProxyStatus::BadArgument)),
        MapType::spec_from_code(map_code) matches Some(t) ==> {
            &&& !t.spec_is_header_map() ==> r == Err::<HostMessage, i32>(code(ProxyStatus::Unimplemented))
            &&& t.spec_is_header_map() ==> (r matches Ok(HostMessage::GetMapPairs { map_type }) && map_type == t)
        },
{
    let t = map_type_of(map_code)?;
    to_code(abi::proxy_get_header_map_pairs(t))
}

/// `proxy_set_header_map_pairs`: `BadArgument` for an unknown map code,
/// `InvalidMemoryAccess` for a map outside memory, `Unimplemented` for a
/// map other than the header maps, else the call.
pub fn set_header_map_pairs_call(mem: &[u8], map_code: i32, map_ptr: i32, map_size: i32) -> (r: Result<HostMessage, i32>)
    ensures
        MapType::spec_from_code(map_code) is None ==> r == Err::<HostMessage, i32>(code(ProxyStatus::BadArgument)),
        MapType::spec_from_code(map_code) matches Some(t) ==> {
            &&& !range_in(mem@.len() as int, map_ptr, map_size) ==> r == Err::<HostMessage, i32>(code(ProxyStatus::InvalidMemoryAccess))
            &&& range_in(mem@.len() as int, map_ptr, map_size) && !t.spec_is_header_map() ==> r == Err::<HostMessage, i32>(code(ProxyStatus::Unimplemented))
            &&& range_in(mem@.len() as int, map_ptr, map_size) && t.spec_is_header_map() ==> (r matches Ok(HostMessage::SetMapPairs { map_type, map }) && map_type == t && map@ == input(mem@, map_ptr, map_size))
        },
{
    let t = map_type_of(map_code)?;
    let map = read_input(mem, map_ptr, map_size)?;
    to_code(abi::proxy_set_header_map_pairs(t, map))
}

/// `proxy_get_header_map_value`: `BadArgument` for an unknown map code,
/// `InvalidMemoryAccess` for a key outside memory, `Unimplemented` for a map
/// other than the header maps, else the call for the key.
pub fn get_header_map_value_call(mem: &[u8], map_code: i32, key_ptr: i32, key_size: i32) -> (r: Result<HostMessage, i32>)
    ensures
        MapType::spec_from_code(map_code) is None ==> r == Err::<HostMessage, i32>(code(ProxyStatus::BadArgument)),
        MapType::spec_from_code(map_code) matches Some(t) ==> {
            &&& !range_in(mem@.len() as int, key_ptr, key_size) ==> r == Err::<HostMessage, i32>(code(ProxyStatus::InvalidMemoryAccess))
            &&& range_in(mem@.len() as int, key_ptr, key_size) && !t.spec_is_header_map() ==> r == Err::<HostMessage, i32>(code(ProxyStatus::Unimplemented))
            &&& range_in(mem@.len() as int, key_ptr, key_size) && t.spec_is_header_map() ==> (r matches Ok(HostMessage::GetMapValue { map_type, key }) && map_type == t && key@ == input(mem@, key_ptr, key_size))
        },
{
    let t = map_type_of(map_code)?;
    let key = read_input(mem, key_ptr, key_size)?;
    to_code(abi::proxy_get_header_map_value(t, key))
}

/// `proxy_replace_header_map_value`: as for reading a value, with the value
/// read after the key.
pub fn replace_header_map_value_call(mem: &[u8], map_code: i32, key_ptr: i32, key_size: i32, value_ptr: i32, value_size: i32) -> (r: Result<HostMessage, i32>)
    ensures
        MapType::spec_from_code(map_code) is None ==> r == Err::<HostMessage, i32>(code(ProxyStatus::BadArgument)),
        MapType::spec_from_code(map_code) matches Some(t) ==> {
            let inside = range_in(mem@.len() as int, key_ptr, key_size) && range_in(mem@.len() as int, value_ptr, value_size);
            &&& !inside ==> r == Err::<HostMessage, i32>(code(ProxyStatus::InvalidMemoryAccess))
            &&& inside && !t.spec_is_header_map() ==> r == Err::<HostMessage, i32>(code(ProxyStatus::Unimplemented))
            &&& inside && t.spec_is_header_map() ==> (r matches Ok(HostMessage::ReplaceMapValue { map_type, key, value }) && map_type == t && key@ == input(mem@, key_ptr, key_size) && value@ == input(mem@, value_ptr, value_size))
        },
{
    let t = map_type_of(map_code)?;
    let key = read_input(mem, key_ptr, key_size)?;
    let value = read_input(mem, value_ptr, value_size)?;
    to_code(abi::proxy_replace_header_map_value(t, key, value))
}

/// `proxy_add_header_map_value`: as for replacing a value.
pub fn add_header_map_value_call(mem: &[u8], map_code: i32, key_ptr: i32, key_size: i32, value_ptr: i32, value_size: i32) -> (r: Result<HostMessage, i32>)
    ensures
        MapType::spec_from_code(map_code) is None ==> r == Err::<HostMessage, i32>(code(ProxyStatus::BadArgument)),
        MapType::spec_from_code(map_code) matches Some(t) ==> {
            let inside = range_in(mem@.len() as int, key_ptr, key_size) && range_in(mem@.len() as int, value_ptr, value_size);
            &&& !inside ==> r == Err::<HostMessage, i32>(code(ProxyStatus::InvalidMemoryAccess))
            &&& inside && !t.spec_is_header_map() ==> r == Err::<HostMessage, i32>(code(ProxyStatus::Unimplemented))
            &&& inside && t.spec_is_header_map() ==> (r matches Ok(HostMessage::AddMapValue { map_type, key, value }) && map_type == t && key@ == input(mem@, key_ptr, key_size) && value@ == input(mem@, value_ptr, value_size))
        },
{
    let t = map_type_of(map_code)?;
    let key = read_input(mem, key_ptr, key_size)?;
    let value = read_input(mem, value_ptr, value_size)?;
    to_code(abi::proxy_add_header_map_value(t, key, value))
}

/// `proxy_remove_header_map_value`: as for reading a value.
pub fn remove_header_map_value_call(mem: &[u8], map_code: i32, key_ptr: i32, key_size: i32) -> (r: Result<HostMessage, i32>)
    ensures
        MapType::spec_from_code(map_code) is None ==> r == Err::<HostMessage, i32>(code(ProxyStatus::BadArgument)),
        MapType::spec_from_code(map_code) matches Some(t) ==> {
            &&& !range_in(mem@.len() as int, key_ptr, key_size) ==> r == Err::<HostMessage, i32>(code(ProxyStatus::InvalidMemoryAccess))
            &&& range_in(mem@.len() as int, key_ptr, key_size) && !t.spec_is_header_map() ==> r == Err::<HostMessage, i32>(code(ProxyStatus::Unimplemented))
            &&& range_in(mem@.len() as int, key_ptr, key_size) && t.spec_is_header_map() ==> (r matches Ok(HostMessage::RemoveMapValue { map_type, key }) && map_type == t && key@ == input(mem@, key_ptr, key_size))
        },
{
    let t = map_type_of(map_code)?;
    let key = read_input(mem, key_ptr, key_size)?;
    to_code(abi::proxy_remove_header_map_value(t, key))
}

/// `proxy_get_buffer_bytes`: `BadArgument` for an unknown buffer code,
/// `Unimplemented` for a buffer other than the bodies, else the call.
pub fn get_buffer_bytes_call(buffer_code: i32, offset: i32, max_size: i32) -> (r: Result<HostMessage, i32>)
    ensures
        BufferType::spec_from_code(buffer_code) is None ==> r == Err::<HostMessage, i32>(code(ProxyStatus::BadArgument)),
        BufferType::spec_from_code(buffer_code) matches Some(t) ==> {
            &&& !t.spec_is_body() ==> r == Err::<HostMessage, i32>(code(ProxyStatus::Unimplemented))
            &&& t.spec_is_body() ==> (r matches Ok(HostMessage::GetBufferBytes { buffer_type, start, max_size: m }) && buffer_type == t && start == offset && m == max_size)
        },
{
    let t = match BufferType::from_code(buffer_code) {
        Some(t) => t,
        None => {
            return Err(ProxyStatus::BadArgument.code());
        },
    };
    to_code(abi::proxy_get_buffer_bytes(t, offset, max_size))
}

/// `proxy_set_buffer_bytes`: `BadArgument` for an unknown buffer code,
/// `InvalidMemoryAccess` for data outside memory, `Unimplemented` for a
/// buffer other than the bodies, else the call.
pub fn set_buffer_bytes_call(mem: &[u8], buffer_code: i32, offset: i32, size: i32, data_ptr: i32, data_size: i32) -> (r: Result<HostMessage, i32>)
    ensures
        BufferType::spec_from_code(buffer_code) is None ==> r == Err::<HostMessage, i32>(code(ProxyStatus::BadArgument)),
        BufferType::spec_from_code(buffer_code) matches Some(t) ==> {
            &&& !range_in(mem@.len() as int, data_ptr, data_size) ==> r == Err::<HostMessage, i32>(code(ProxyStatus::InvalidMemoryAccess))
            &&& range_in(mem@.len() as int, data_ptr, data_size) && !t.spec_is_body() ==> r == Err::<HostMessage, i32>(code(ProxyStatus::Unimplemented))
            &&& range_in(mem@.len() as int, data_ptr, data_size) && t.spec_is_body() ==> (r matches Ok(HostMessage::SetBufferBytes { buffer_type, start, size: s, value }) && buffer_type == t && start == offset && s == size && value@ == input(mem@, data_ptr, data_size))
        },
{
    let t = match BufferType::from_code(buffer_code) {
        Some(t) => t,
        None => {
            return Err(ProxyStatus::BadArgument.code());
        },
    };
    let data = read_input(mem, data_ptr, data_size)?;
    to_code(abi::proxy_set_buffer_bytes(t, offset, size, data))
}

/// `proxy_get_property`: the path to resolve, or `InvalidMemoryAccess`.
pub fn get_property_path(mem: &[u8], path_ptr: i32, path_size: i32) -> (r: Result<Vec<u8>, i32>)
    ensures
        range_in(mem@.len() as int, path_ptr, path_size) ==> (r matches Ok(v) && v@ == input(mem@, path_ptr, path_size)),
        !range_in(mem@.len() as int, path_ptr, path_size) ==> r == Err::<Vec<u8>, i32>(code(ProxyStatus::InvalidMemoryAccess)),
{
    read_input(mem, path_ptr, path_size)
}

/// `proxy_set_property`: `InvalidMemoryAccess` for a path or value outside
/// memory, else the call.
pub fn set_property_call(mem: &[u8], path_ptr: i32, path_size: i32, value_ptr: i32, value_size: i32) -> (r: Result<HostMessage, i32>)
    ensures
        !(range_in(mem@.len() as int, path_ptr, path_size) && range_in(mem@.len() as int, value_ptr, value_size)) ==> r == Err::<HostMessage, i32>(code(ProxyStatus::InvalidMemoryAccess)),
        range_in(mem@.len() as int, path_ptr, path_size) && range_in(mem@.len() as int, value_ptr, value_size) ==> (r matches Ok(HostMessage::SetProperty { path, value }) && path@ == input(mem@, path_ptr, path_size) && value@ == input(mem@, value_ptr, value_size)),
{
    let path = read_input(mem, path_ptr, path_size)?;
    let value = read_input(mem, value_ptr, value_size)?;
    Ok(abi::proxy_set_property(path, value))
}

/// A text input of a local host function (a store name, key or pattern, a
/// diagnostic): `InvalidMemoryAccess` outside memory, `BadArgument` when not
/// UTF-8.
pub fn text_input(mem: &[u8], ptr: i32, size: i32) -> (r: Result<Vec<u8>, i32>)
    ensures
        !range_in(mem@.len() as int, ptr, size) ==> r == Err::<Vec<u8>, i32>(code(ProxyStatus::InvalidMemoryAccess)),
        range_in(mem@.len() as int, ptr, size) && !is_utf8(input(mem@, ptr, size)) ==> r == Err::<Vec<u8>, i32>(code(ProxyStatus::BadArgument)),
        range_in(mem@.len() as int, ptr, size) && is_utf8(input(mem@, ptr, size)) ==> (r matches Ok(v) && v@ == input(mem@, ptr, size)),
{
    let v = read_input(mem, ptr, size)?;
    match abi::text_argument(v.as_slice()) {
        Ok(()) => Ok(v),
        Err(s) => Err(s.code()),
    }
}

/// `proxy_dictionary_get`, up to the write-back: the value, or the status.
pub fn dictionary_get_value(mem: &[u8], dictionary: &Dictionary, key_ptr: i32, key_size: i32) -> (r: Result<Vec<u8>, i32>)
    ensures
        !range_in(mem@.len() as int, key_ptr, key_size) ==> r == Err::<Vec<u8>, i32>(code(ProxyStatus::InvalidMemoryAccess)),
        range_in(mem@.len() as int, key_ptr, key_size) && !is_utf8(input(mem@, key_ptr, key_size)) ==> r == Err::<Vec<u8>, i32>(code(ProxyStatus::BadArgument)),
        range_in(mem@.len() as int, key_ptr, key_size) && is_utf8(input(mem@, key_ptr, key_size)) ==> {
            &&& crate::additional::first_value(dictionary.entries(), input(mem@, key_ptr, key_size)) is None ==> r == Err::<Vec<u8>, i32>(code(ProxyStatus::NotFound))
            &&& crate::additional::first_value(dictionary.entries(), input(mem@, key_ptr, key_size)) matches Some(v) ==> (r matches Ok(x) && x@ == v)
        },
{
    let key = read_input(mem, key_ptr, key_size)?;
    match dictionary.get(key.as_slice()) {
        Ok(v) => Ok(v),
        Err(s) => Err(s.code()),
    }
}

/// `proxy_log`: `InvalidMemoryAccess` for a message outside memory, else the
/// status of accepting it.
pub fn log_entry(mem: &[u8], level: i32, message_ptr: i32, message_size: i32) -> (r: i32)
    ensures
        !range_in(mem@.len() as int, message_ptr, message_size) ==> r == code(ProxyStatus::InvalidMemoryAccess),
        range_in(mem@.len() as int, message_ptr, message_size) && is_utf8(input(mem@, message_ptr, message_size)) ==> r == code(ProxyStatus::Success),
        range_in(mem@.len() as int, message_ptr, message_size) && !is_utf8(input(mem@, message_ptr, message_size)) ==> r == code(HostError::Utf8Error.spec_status()),
{
    match read_input(mem, message_ptr, message_size) {
        Err(c) => c,
        Ok(message) => abi::status_code_of(&abi::proxy_log(level, message.as_slice())),
    }
}

/// `proxy_send_local_response`: `InvalidMemoryAccess` for a body or headers
/// outside memory, with nothing recorded; else the status of recording the
/// response's status, which fails with `InternalFailure` when one was
/// already recorded.
pub fn send_local_response_entry(proxy: &mut Proxy, mem: &[u8], status_code: i32, body_ptr: i32, body_size: i32, headers_ptr: i32, headers_size: i32) -> (r: i32)
    requires
        old(proxy).wf(),
    ensures
        final(proxy).wf(),
        final(proxy).resolutions() == old(proxy).resolutions(),
        !(range_in(mem@.len() as int, body_ptr, body_size) && range_in(mem@.len() as int, headers_ptr, headers_size)) ==> r == code(ProxyStatus::InvalidMemoryAccess) && final(proxy).local_status() == old(proxy).local_status(),
        range_in(mem@.len() as int, body_ptr, body_size) && range_in(mem@.len() as int, headers_ptr, headers_size) ==> {
            &&& old(proxy).local_status() is None ==> r == code(ProxyStatus::Success) && final(proxy).local_status() == Some(status_code)
            &&& old(proxy).local_status() is Some ==> r == code(ProxyStatus::InternalFailure) && final(proxy).local_status() == old(proxy).local_status()
        },
{
    if read_guest(mem, body_ptr, body_size).is_none() || read_guest(mem, headers_ptr, headers_size).is_none() {
        return ProxyStatus::InvalidMemoryAccess.code();
    }
    abi::status_code_of(&proxy.send_local_response(status_code))
}

/// The answer to a call that returns bytes: the bytes to hand to the module,
/// or the status code of the error.
pub fn reply_bytes(reply: Result<Vec<u8>, HostError>) -> (r: Result<Vec<u8>, i32>)
    ensures
        reply matches Ok(v) ==> (r matches Ok(x) && x@ == v@),
        reply matches Err(e) ==> r == Err::<Vec<u8>, i32>(code(e.spec_status())),
{
    match reply {
        Ok(v) => Ok(v),
        Err(e) => Err(e.status().code()),
    }
}

/// Hands a result to the module once its allocator answered (`None`: it
/// has no allocator or the call failed): `InvalidMemoryAccess` without an
/// allocation or outside memory, memory unchanged; else the result and its
/// `(offset, size)` pair are written and the status is `Ok`.
pub fn write_back(mem: &mut [u8], value: &[u8], allocated: Option<i32>, out_data: i32, out_size: i32) -> (r: i32)
    ensures
        allocated is None ==> r == code(ProxyStatus::InvalidMemoryAccess) && final(mem)@ == old(mem)@,
        allocated matches Some(offset) ==> {
            &&& return_fits(old(mem)@.len() as int, offset, value@.len() as int, out_data, out_size) ==> r == code(ProxyStatus::Success) && final(mem)@ == returned(old(mem)@, offset, value@, out_data, out_size)
            &&& !return_fits(old(mem)@.len() as int, offset, value@.len() as int, out_data, out_size) ==> r == code(ProxyStatus::InvalidMemoryAccess) && final(mem)@ == old(mem)@
        },
{
    match allocated {
        None => ProxyStatus::InvalidMemoryAccess.code(),
        Some(offset) => return_bytes(mem, offset, value, out_data, out_size).code(),
    }
}

} // verus!
