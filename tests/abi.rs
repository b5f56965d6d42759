use proxywasm::abi::{
    current_time_nanoseconds, proxy_set_tick_period_milliseconds, text_argument,
    proxy_add_header_map_value, proxy_get_buffer_bytes, proxy_get_header_map_pairs,
    proxy_get_header_map_value, proxy_log, proxy_remove_header_map_value,
    proxy_replace_header_map_value, proxy_set_buffer_bytes, proxy_set_header_map_pairs,
    proxy_set_property, status_code_of,
};
use proxywasm::connection::{
    settle_reply, v1_action_reply, v1_next_action, Backoff, InFlight, ReplyOutcome, ReplyTable,
};
use proxywasm::guest::{read_guest, return_bytes, write_u32};
use proxywasm::store::{
    kv_get_result, membership_flag, open_error_status, secret_result, serialize_scored, Dictionary,
    Lookup, OpenError,
};
use proxywasm::server::outbound_capacity;
use proxywasm::wire::{BufferType, HostError, HostMessage, MapType, ProxyStatus, RequestId, Version};

#[test]
fn body_buffers_only() {
    assert_eq!(
        proxy_get_buffer_bytes(BufferType::HttpRequestBody, 0, 19),
        Ok(HostMessage::GetBufferBytes { buffer_type: BufferType::HttpRequestBody, start: 0, max_size: 19 })
    );
    let redacted = b"Original message body (19 bytes) redacted.\n".to_vec();
    assert_eq!(
        proxy_set_buffer_bytes(BufferType::HttpRequestBody, 0, 19, redacted.clone()),
        Ok(HostMessage::SetBufferBytes {
            buffer_type: BufferType::HttpRequestBody,
            start: 0,
            size: 19,
            value: redacted.clone(),
        })
    );
    assert_eq!(
        proxy_get_buffer_bytes(BufferType::VmConfiguration, 0, 1),
        Err(HostError::Unimplemented)
    );
    assert_eq!(
        proxy_set_buffer_bytes(BufferType::DownstreamData, 0, 1, vec![]),
        Err(HostError::Unimplemented)
    );
    assert_eq!(BufferType::from_code(1), Some(BufferType::HttpResponseBody));
    assert_eq!(BufferType::from_code(8), None);
}

#[test]
fn header_maps_only() {
    assert_eq!(
        proxy_get_header_map_pairs(MapType::HttpResponseHeaders),
        Ok(HostMessage::GetMapPairs { map_type: MapType::HttpResponseHeaders })
    );
    assert_eq!(
        proxy_get_header_map_pairs(MapType::HttpRequestTrailers),
        Err(HostError::Unimplemented)
    );
    assert_eq!(
        proxy_add_header_map_value(MapType::HttpRequestHeaders, b"x-example-key".to_vec(), b"example_value".to_vec()),
        Ok(HostMessage::AddMapValue {
            map_type: MapType::HttpRequestHeaders,
            key: b"x-example-key".to_vec(),
            value: b"example_value".to_vec(),
        })
    );
    assert_eq!(
        proxy_replace_header_map_value(MapType::GrpcReceiveInitialMetadata, vec![], vec![]),
        Err(HostError::Unimplemented)
    );
    assert_eq!(
        proxy_remove_header_map_value(MapType::HttpResponseHeaders, b"k".to_vec()),
        Ok(HostMessage::RemoveMapValue { map_type: MapType::HttpResponseHeaders, key: b"k".to_vec() })
    );
    assert_eq!(
        proxy_get_header_map_value(MapType::HttpCallResponseHeaders, b"k".to_vec()),
        Err(HostError::Unimplemented)
    );
    assert_eq!(
        proxy_set_header_map_pairs(MapType::HttpRequestHeaders, vec![1]),
        Ok(HostMessage::SetMapPairs { map_type: MapType::HttpRequestHeaders, map: vec![1] })
    );
    assert_eq!(
        proxy_set_property(b"p".to_vec(), b"v".to_vec()),
        HostMessage::SetProperty { path: b"p".to_vec(), value: b"v".to_vec() }
    );
    assert_eq!(MapType::from_code(2), Some(MapType::HttpResponseHeaders));
    assert_eq!(MapType::from_code(-1), None);
}

#[test]
fn log_needs_utf8() {
    assert_eq!(proxy_log(2, b"hello"), Ok(()));
    assert_eq!(proxy_log(2, &[0xff, 0x00]), Err(HostError::Utf8Error));
    assert_eq!(status_code_of(&Ok(())), 0);
    assert_eq!(status_code_of(&Err(HostError::Utf8Error)), 4);
    assert_eq!(status_code_of(&Err(HostError::InvalidMemoryAccess)), 6);
}

#[test]
fn guest_reads_are_bounds_checked() {
    let mem = b"0123456789".to_vec();
    assert_eq!(read_guest(&mem, 2, 3), Some(b"234".to_vec()));
    assert_eq!(read_guest(&mem, 8, 3), None);
    assert_eq!(read_guest(&mem, -1, 1), None);
    assert_eq!(read_guest(&mem, 10, 0), Some(vec![]));
}

#[test]
fn guest_result_write_back() {
    let mut mem = vec![0u8; 32];
    let status = return_bytes(&mut mem, 16, b"abc", 0, 4);
    assert_eq!(status, ProxyStatus::Success);
    assert_eq!(&mem[0..4], &[16, 0, 0, 0]);
    assert_eq!(&mem[4..8], &[3, 0, 0, 0]);
    assert_eq!(&mem[16..19], b"abc");
    let before = mem.clone();
    assert_eq!(return_bytes(&mut mem, 30, b"abc", 0, 4), ProxyStatus::InvalidMemoryAccess);
    assert_eq!(return_bytes(&mut mem, 0, b"abc", 30, 4), ProxyStatus::InvalidMemoryAccess);
    assert_eq!(return_bytes(&mut mem, -4, b"abc", 0, 4), ProxyStatus::InvalidMemoryAccess);
    assert_eq!(mem, before);
    assert_eq!(write_u32(&mut mem, 8, 0x0102_0304), ProxyStatus::Success);
    assert_eq!(&mem[8..12], &[4, 3, 2, 1]);
    assert_eq!(write_u32(&mut mem, 29, 1), ProxyStatus::InvalidMemoryAccess);
}

#[test]
fn replies_reach_one_waiter() {
    let mut table: ReplyTable<&str> = ReplyTable::new();
    let id = RequestId { index: 3, generation: 1 };
    assert_eq!(table.register(id, "first"), None);
    assert_eq!(table.take(RequestId { index: 3, generation: 2 }), None);
    assert_eq!(table.take(id), Some("first"));
    assert_eq!(table.take(id), None);
    table.register(id, "second");
    assert_eq!(table.register(id, "third"), Some("second"));
}

#[test]
fn one_final_action_per_transaction() {
    let mut running = InFlight::new();
    let id = RequestId { index: 1, generation: 0 };
    assert!(running.begin(id));
    assert!(!running.begin(id));
    assert!(running.finish(id));
    assert!(!running.finish(id));
}

#[test]
fn reply_settlement() {
    assert_eq!(settle_reply(ReplyOutcome::Answered(ProxyStatus::Success, b"v".to_vec())), Ok(b"v".to_vec()));
    assert_eq!(
        settle_reply(ReplyOutcome::Answered(ProxyStatus::NotFound, vec![])),
        Err(HostError::NotFound)
    );
    assert_eq!(settle_reply(ReplyOutcome::Closed), Err(HostError::InternalFailure));
    assert_eq!(settle_reply(ReplyOutcome::TimedOut), Ok(vec![]));
}

#[test]
fn v1_final_action_encoding() {
    let msg = v1_action_reply(403);
    assert_eq!(
        msg,
        HostMessage::Response { status: ProxyStatus::Empty, return_value: vec![0, 0, 1, 147] }
    );
    assert_eq!(v1_next_action(ProxyStatus::Empty, &[0, 0, 1, 147]), Some(403));
    assert_eq!(v1_next_action(ProxyStatus::Empty, &[0xff, 0xff, 0xff, 0xff]), Some(-1));
    assert_eq!(v1_next_action(ProxyStatus::Success, &[0, 0, 0, 0]), None);
    assert_eq!(v1_next_action(ProxyStatus::Empty, &[0, 0, 0]), None);
}

#[test]
fn accept_backoff() {
    let mut b = Backoff::new();
    assert_eq!(b.delay_ms, 100);
    assert_eq!(b.after_error(300), 100);
    assert_eq!(b.after_error(300), 200);
    assert_eq!(b.after_error(300), 300);
    assert_eq!(b.after_error(300), 100);
    assert_eq!(b.after_error(800), 200);
    assert_eq!(b.after_error(800), 400);
    assert_eq!(b.after_error(800), 800);
    assert_eq!(b.delay_ms, 100);
    b.after_accept(false);
    assert_eq!(b.delay_ms, 200);
    b.after_accept(true);
    assert_eq!(b.delay_ms, 100);
    assert_eq!(b.after_error(50), 50);
    assert_eq!(b.delay_ms, 100);
    let mut big = Backoff { delay_ms: u64::MAX };
    assert_eq!(big.after_error(u64::MAX), u64::MAX);
    assert_eq!(big.delay_ms, 100);
}

#[test]
fn stub_entries() {
    assert_eq!(proxywasm::abi::unimplemented_entry(), 12);
    assert_eq!(proxywasm::abi::proxy_done(), 0);
}

#[test]
fn dictionary_lookup() {
    let d = Dictionary::from_env(vec![(b"example_key".to_vec(), b"example_value".to_vec())]);
    assert_eq!(d.get(b"example_key"), Ok(b"example_value".to_vec()));
    assert_eq!(d.get(b"missing"), Err(ProxyStatus::NotFound));
    assert_eq!(d.get(&[0xff]), Err(ProxyStatus::BadArgument));
}

#[test]
fn backend_outcomes() {
    assert_eq!(secret_result(Lookup::Found(b"s".to_vec())), Ok(b"s".to_vec()));
    assert_eq!(secret_result(Lookup::Missing), Err(ProxyStatus::NotFound));
    assert_eq!(secret_result(Lookup::Failed), Err(ProxyStatus::InternalFailure));
    assert_eq!(kv_get_result(Lookup::Found(b"v".to_vec())), Ok(Some(b"v".to_vec())));
    assert_eq!(kv_get_result(Lookup::Missing), Ok(None));
    assert_eq!(kv_get_result(Lookup::Failed), Err(ProxyStatus::InternalFailure));
    assert_eq!(open_error_status(OpenError::NoSuchStore), ProxyStatus::NotFound);
    assert_eq!(open_error_status(OpenError::AccessDenied), ProxyStatus::BadArgument);
    assert_eq!(open_error_status(OpenError::Other), ProxyStatus::InternalFailure);
    assert_eq!(membership_flag(true), 1);
    assert_eq!(membership_flag(false), 0);
}

#[test]
fn sorted_set_answer_layout() {
    let score = 1.5f64.to_le_bytes();
    let bytes = serialize_scored(vec![(b"m".to_vec(), score)]).unwrap();
    let mut expected = vec![1, 0, 0, 0, 9, 0, 0, 0, b'm'];
    expected.extend_from_slice(&score);
    expected.push(0);
    assert_eq!(bytes, expected);
}

#[test]
fn clock_and_text_arguments() {
    assert_eq!(current_time_nanoseconds(Some(1_700_000_000_000_000_000)), Ok(1_700_000_000_000_000_000));
    assert_eq!(current_time_nanoseconds(Some((1u128 << 64) + 5)), Ok(5));
    assert_eq!(current_time_nanoseconds(None), Err(HostError::InternalFailure));
    assert_eq!(proxy_set_tick_period_milliseconds(), Err(HostError::Unimplemented));
    assert_eq!(text_argument(b"store"), Ok(()));
    assert_eq!(text_argument(&[0xc0, 0x80]), Err(ProxyStatus::BadArgument));
}

#[test]
fn outbound_bounds() {
    assert_eq!(outbound_capacity(Version::V2), 32);
    assert_eq!(outbound_capacity(Version::V1), 1024);
    assert_eq!(outbound_capacity(Version::V2a), 1024);
}
