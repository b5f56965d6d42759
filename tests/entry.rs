use proxywasm::entry::{
    add_header_map_value_call, dictionary_get_value, get_buffer_bytes_call,
    get_header_map_pairs_call, get_header_map_value_call, get_property_path, log_entry,
    remove_header_map_value_call, replace_header_map_value_call, reply_bytes,
    send_local_response_entry, set_buffer_bytes_call, set_header_map_pairs_call,
    set_property_call, text_input, write_back,
};
use proxywasm::proxy::Proxy;
use proxywasm::store::Dictionary;
use proxywasm::wire::{BufferType, HostError, HostMessage, MapType};

fn memory() -> Vec<u8> {
    let mut m = b"key01value01".to_vec();
    m.resize(64, 0);
    m
}

#[test]
fn header_value_entry_checks_in_order() {
    let mem = memory();
    assert_eq!(get_header_map_value_call(&mem, 99, 0, 5), Err(2));
    assert_eq!(get_header_map_value_call(&mem, 0, 60, 5), Err(6));
    assert_eq!(get_header_map_value_call(&mem, 99, 60, 5), Err(2));
    assert_eq!(get_header_map_value_call(&mem, 1, 0, 5), Err(12));
    assert_eq!(
        get_header_map_value_call(&mem, 0, 0, 5),
        Ok(HostMessage::GetMapValue { map_type: MapType::HttpRequestHeaders, key: b"key01".to_vec() })
    );
}

#[test]
fn header_value_reply_and_write_back() {
    assert_eq!(reply_bytes(Err(HostError::NotFound)), Err(1));
    assert_eq!(reply_bytes(Ok(b"v".to_vec())), Ok(b"v".to_vec()));
    let mut mem = memory();
    assert_eq!(write_back(&mut mem, b"value01", Some(32), 16, 20), 0);
    assert_eq!(&mem[32..39], b"value01");
    assert_eq!(&mem[16..20], &[32, 0, 0, 0]);
    assert_eq!(&mem[20..24], &[7, 0, 0, 0]);
    let before = mem.clone();
    assert_eq!(write_back(&mut mem, b"value01", None, 16, 20), 6);
    assert_eq!(write_back(&mut mem, b"value01", Some(32), 62, 20), 6);
    assert_eq!(mem, before);
}

#[test]
fn header_map_edit_entries() {
    let mem = memory();
    assert_eq!(
        replace_header_map_value_call(&mem, 2, 0, 5, 5, 7),
        Ok(HostMessage::ReplaceMapValue {
            map_type: MapType::HttpResponseHeaders,
            key: b"key01".to_vec(),
            value: b"value01".to_vec(),
        })
    );
    assert_eq!(replace_header_map_value_call(&mem, 2, 0, 5, 60, 7), Err(6));
    assert_eq!(
        add_header_map_value_call(&mem, 0, 0, 5, 5, 7),
        Ok(HostMessage::AddMapValue {
            map_type: MapType::HttpRequestHeaders,
            key: b"key01".to_vec(),
            value: b"value01".to_vec(),
        })
    );
    assert_eq!(add_header_map_value_call(&mem, 8, 0, 5, 5, 7), Err(2));
    assert_eq!(remove_header_map_value_call(&mem, 3, 0, 5), Err(12));
    assert_eq!(
        remove_header_map_value_call(&mem, 0, 0, 5),
        Ok(HostMessage::RemoveMapValue { map_type: MapType::HttpRequestHeaders, key: b"key01".to_vec() })
    );
    assert_eq!(get_header_map_pairs_call(-3), Err(2));
    assert_eq!(get_header_map_pairs_call(4), Err(12));
    assert_eq!(
        get_header_map_pairs_call(0),
        Ok(HostMessage::GetMapPairs { map_type: MapType::HttpRequestHeaders })
    );
    assert_eq!(set_header_map_pairs_call(&mem, 0, 60, 10), Err(6));
    assert_eq!(
        set_header_map_pairs_call(&mem, 2, 0, 3),
        Ok(HostMessage::SetMapPairs { map_type: MapType::HttpResponseHeaders, map: b"key".to_vec() })
    );
}

#[test]
fn buffer_entries() {
    let mem = memory();
    assert_eq!(get_buffer_bytes_call(9, 0, 19), Err(2));
    assert_eq!(get_buffer_bytes_call(6, 0, 19), Err(12));
    assert_eq!(
        get_buffer_bytes_call(0, 0, 19),
        Ok(HostMessage::GetBufferBytes { buffer_type: BufferType::HttpRequestBody, start: 0, max_size: 19 })
    );
    assert_eq!(set_buffer_bytes_call(&mem, 1, 0, 5, 60, 5), Err(6));
    assert_eq!(set_buffer_bytes_call(&mem, 2, 0, 5, 0, 5), Err(12));
    assert_eq!(
        set_buffer_bytes_call(&mem, 1, 0, 5, 0, 5),
        Ok(HostMessage::SetBufferBytes {
            buffer_type: BufferType::HttpResponseBody,
            start: 0,
            size: 5,
            value: b"key01".to_vec(),
        })
    );
}

#[test]
fn property_and_text_entries() {
    let mem = memory();
    assert_eq!(get_property_path(&mem, 0, 3), Ok(b"key".to_vec()));
    assert_eq!(get_property_path(&mem, 63, 3), Err(6));
    assert_eq!(
        set_property_call(&mem, 0, 5, 5, 7),
        Ok(HostMessage::SetProperty { path: b"key01".to_vec(), value: b"value01".to_vec() })
    );
    assert_eq!(set_property_call(&mem, 0, 5, 60, 7), Err(6));
    assert_eq!(text_input(&mem, 0, 5), Ok(b"key01".to_vec()));
    let mut bad = memory();
    bad[0] = 0xff;
    assert_eq!(text_input(&bad, 0, 5), Err(2));
    assert_eq!(text_input(&bad, 70, 5), Err(6));
    let d = Dictionary::from_env(vec![(b"key01".to_vec(), b"example_value".to_vec())]);
    assert_eq!(dictionary_get_value(&mem, &d, 0, 5), Ok(b"example_value".to_vec()));
    assert_eq!(dictionary_get_value(&mem, &d, 5, 5), Err(1));
    assert_eq!(dictionary_get_value(&bad, &d, 0, 5), Err(2));
    assert_eq!(dictionary_get_value(&mem, &d, 62, 5), Err(6));
    assert_eq!(log_entry(&mem, 2, 0, 12), 0);
    assert_eq!(log_entry(&bad, 2, 0, 12), 4);
    assert_eq!(log_entry(&mem, 2, 60, 12), 6);
}

#[test]
fn local_response_entry_sets_once() {
    let mem = memory();
    let mut p = Proxy::new(None);
    assert_eq!(send_local_response_entry(&mut p, &mem, 403, 60, 10, 0, 0), 6);
    assert_eq!(p.status_code(), None);
    assert_eq!(send_local_response_entry(&mut p, &mem, 403, 0, 5, 5, 7), 0);
    assert_eq!(p.status_code(), Some(403));
    assert_eq!(send_local_response_entry(&mut p, &mem, 500, 0, 5, 5, 7), 10);
    assert_eq!(p.status_code(), Some(403));
}
