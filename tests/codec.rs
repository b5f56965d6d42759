use proxywasm::handshake::{handshake_reply, negotiate, open_connection, Opening};
use proxywasm::list::{deserialize_list, list_fits, serialize_list};
use proxywasm::wire::{HostError, ProxyStatus, RequestId, Version};

#[test]
fn serialize_list_layout() {
    let a: &[u8] = b"ab";
    let b: &[u8] = b"";
    let bytes = serialize_list(vec![a, b]);
    assert_eq!(
        bytes,
        vec![2, 0, 0, 0, 2, 0, 0, 0, 0, 0, 0, 0, b'a', b'b', 0, 0]
    );
}

#[test]
fn serialize_empty_list() {
    assert_eq!(serialize_list(vec![]), vec![0, 0, 0, 0]);
}

#[test]
fn list_round_trip() {
    let items: Vec<&[u8]> = vec![b"key1", b"", b"a longer value\x00with a zero", b"z"];
    let bytes = serialize_list(items.clone());
    let back = deserialize_list(&bytes).expect("decodes");
    let expected: Vec<Vec<u8>> = items.iter().map(|s| s.to_vec()).collect();
    assert_eq!(back, expected);
}

#[test]
fn list_decode_rejects_bad_input() {
    assert_eq!(deserialize_list(&[1, 0, 0]), None);
    // count 1, size 2, but the terminator is missing
    assert_eq!(deserialize_list(&[1, 0, 0, 0, 2, 0, 0, 0, b'a', b'b', 1]), None);
    // trailing byte
    assert_eq!(deserialize_list(&[0, 0, 0, 0, 9]), None);
    // count larger than the data
    assert_eq!(deserialize_list(&[5, 0, 0, 0]), None);
}

#[test]
fn list_fits_small_lists() {
    let items: Vec<&[u8]> = vec![b"abc", b"de"];
    assert!(list_fits(&items));
}

#[test]
fn negotiate_picks_first_common_in_offer_order() {
    assert_eq!(negotiate(&vec![0x2a, 0x01, 0x02]), Some(Version::V2a));
    assert_eq!(negotiate(&vec![7, 0x02, 0x01]), Some(Version::V2));
    assert_eq!(negotiate(&vec![3, 4, 0x01]), Some(Version::V1));
}

#[test]
fn negotiate_without_common_version_closes() {
    assert_eq!(negotiate(&vec![]), None);
    assert_eq!(negotiate(&vec![3, 0x2b, 0]), None);
}

#[test]
fn handshake_reply_lists_chosen_version() {
    assert_eq!(handshake_reply(Version::V2a), vec![0x2a]);
    assert_eq!(handshake_reply(Version::V1), vec![0x01]);
}

#[test]
fn version_codes() {
    assert_eq!(Version::V1.code(), 1);
    assert_eq!(Version::V2.code(), 2);
    assert_eq!(Version::V2a.code(), 0x2a);
    assert_eq!(Version::from_code(0x2a), Some(Version::V2a));
    assert_eq!(Version::from_code(3), None);
}

#[test]
fn status_codes() {
    assert_eq!(ProxyStatus::Success.code(), 0);
    assert_eq!(ProxyStatus::NotFound.code(), 1);
    assert_eq!(ProxyStatus::InvalidMemoryAccess.code(), 6);
    assert_eq!(ProxyStatus::InternalFailure.code(), 10);
    assert_eq!(ProxyStatus::Unimplemented.code(), 12);
    assert_eq!(HostError::Unimplemented.status().code(), 12);
    assert_eq!(HostError::Utf8Error.status(), ProxyStatus::ParseFailure);
    assert_eq!(HostError::from_status(ProxyStatus::Success), None);
    assert_eq!(HostError::from_status(ProxyStatus::NotFound), Some(HostError::NotFound));
}

#[test]
fn request_id_key() {
    let id = RequestId { index: 1, generation: 2 };
    assert_eq!(id.key(), (1u64 << 32) + 2);
}

#[test]
fn opening_a_connection() {
    assert_eq!(
        open_connection(Opening::Handshake { supported_versions: vec![9, 0x02, 0x2a] }),
        Some((Version::V2, vec![0x02]))
    );
    assert_eq!(open_connection(Opening::Handshake { supported_versions: vec![9] }), None);
    assert_eq!(open_connection(Opening::Other), None);
    assert_eq!(open_connection(Opening::Ended), None);
}
