use proxywasm::additional::{deserialize_map_pairs, serialize_map_pairs, AdditionalInfo, FastPath};
use proxywasm::host::{CommandRoute, ProxyWasmHost};
use proxywasm::property::{
    compose_uri, decimal_bytes, geo_asn, geo_text, route, shield_host, GeoField, PropertyRoute,
};
use proxywasm::proxy::{HostStep, PropertyStart, Proxy};
use proxywasm::wire::{HostError, HostMessage, MapType, RequestId, Version};

fn pairs(list: &[(&str, &str)]) -> Vec<(Vec<u8>, Vec<u8>)> {
    list.iter().map(|(k, v)| (k.as_bytes().to_vec(), v.as_bytes().to_vec())).collect()
}

#[test]
fn second_local_response_fails() {
    let mut p = Proxy::new(None);
    assert_eq!(p.status_code(), None);
    assert_eq!(p.send_local_response(403), Ok(()));
    assert_eq!(p.status_code(), Some(403));
    assert_eq!(p.send_local_response(500), Err(HostError::InternalFailure));
    assert_eq!(p.status_code(), Some(403));
}

#[test]
fn property_cache_returns_resolved_value() {
    let mut p = Proxy::new(None);
    let path = b"request.path".to_vec();
    assert_eq!(p.cached_property(&path), None);
    let r = p.complete_from_proxy(path.clone(), Ok(b"/asset".to_vec()));
    assert_eq!(r, Ok(b"/asset".to_vec()));
    assert_eq!(p.cached_property(&path), Some(b"/asset".to_vec()));
    let r = p.complete_from_proxy(b"request.x".to_vec(), Err(HostError::NotFound));
    assert_eq!(r, Err(HostError::NotFound));
    assert_eq!(p.cached_property(&b"request.x".to_vec()), None);
}

#[test]
fn host_property_steps() {
    let mut p = Proxy::new(Some("edge_shield"));
    let path = b"request.host".to_vec();
    match p.complete_host_header(path.clone(), Ok(b"example.com".to_vec())) {
        HostStep::Done(Ok(v)) => assert_eq!(v, b"shield_example.com".to_vec()),
        other => panic!("unexpected {:?}", other),
    }
    assert_eq!(p.cached_property(&path), Some(b"shield_example.com".to_vec()));

    let mut q = Proxy::new(Some("edge"));
    match q.complete_host_header(path.clone(), Ok(vec![])) {
        HostStep::AskProxy => {}
        other => panic!("unexpected {:?}", other),
    }
    match q.complete_host_header(path.clone(), Err(HostError::InternalFailure)) {
        HostStep::Done(Err(e)) => assert_eq!(e, HostError::InternalFailure),
        other => panic!("unexpected {:?}", other),
    }
    let mut r = Proxy::new(None);
    match r.complete_host_header(path, Ok(b"h".to_vec())) {
        HostStep::Done(Ok(v)) => assert_eq!(v, b"h".to_vec()),
        other => panic!("unexpected {:?}", other),
    }
}

#[test]
fn property_routes() {
    assert_eq!(route(b"request.country"), PropertyRoute::Geo(GeoField::Country));
    assert_eq!(route(b"request.country_name"), PropertyRoute::Geo(GeoField::CountryName));
    assert_eq!(route(b"request.city"), PropertyRoute::Geo(GeoField::City));
    assert_eq!(route(b"request.asn"), PropertyRoute::Geo(GeoField::Asn));
    assert_eq!(route(b"request.geo_lat"), PropertyRoute::Geo(GeoField::GeoLat));
    assert_eq!(route(b"request.geo_long"), PropertyRoute::Geo(GeoField::GeoLong));
    assert_eq!(route(b"request.region"), PropertyRoute::Geo(GeoField::Region));
    assert_eq!(route(b"request.continent"), PropertyRoute::Geo(GeoField::Continent));
    assert_eq!(route(b"request.uri"), PropertyRoute::Uri);
    assert_eq!(route(b"request.scheme"), PropertyRoute::Scheme);
    assert_eq!(route(b"request.host"), PropertyRoute::Host);
    assert_eq!(route(b"request.path"), PropertyRoute::Forward);
    assert_eq!(route(b"request.x_real_ip"), PropertyRoute::Forward);
}

#[test]
fn property_values() {
    assert_eq!(compose_uri(b"https", b"example.com", b"/a?b"), Ok(b"https://example.com/a?b".to_vec()));
    assert_eq!(compose_uri(b"https", &[0xff], b"/"), Err(HostError::Utf8Error));
    assert_eq!(shield_host(b"h", false), b"h".to_vec());
    assert_eq!(shield_host(b"", true), b"shield_".to_vec());
    assert_eq!(decimal_bytes(23456), b"23456".to_vec());
    assert_eq!(decimal_bytes(0), b"0".to_vec());
    assert_eq!(decimal_bytes(u32::MAX), b"4294967295".to_vec());
    assert_eq!(geo_asn(Some(23456)), b"23456".to_vec());
    assert_eq!(geo_asn(None), Vec::<u8>::new());
    assert_eq!(geo_text(Some("fr")), b"fr".to_vec());
    assert_eq!(geo_text(None), Vec::<u8>::new());
}

#[test]
fn map_pairs_layout_and_round_trip() {
    let h = pairs(&[("key01", "value01"), ("key02", "value02")]);
    let bytes = serialize_map_pairs(&h).unwrap();
    let mut expected = vec![2, 0, 0, 0, 5, 0, 0, 0, 7, 0, 0, 0, 5, 0, 0, 0, 7, 0, 0, 0];
    expected.extend_from_slice(b"key01\0value01\0key02\0value02\0");
    assert_eq!(bytes, expected);
    assert_eq!(deserialize_map_pairs(&bytes), Some(h));
    assert_eq!(deserialize_map_pairs(&bytes[..bytes.len() - 1]), None);
}

#[test]
fn header_get_from_request_data() {
    let info = AdditionalInfo::new(pairs(&[("key01", "value01"), ("key02", "value02")]), vec![]);
    assert_eq!(info.get_request_header_value(b"key01"), Some(b"value01".to_vec()));
    assert_eq!(info.get_request_header_value(b"key02"), Some(b"value02".to_vec()));
    assert_eq!(info.get_request_header_value(b"key03"), None);
}

#[test]
fn request_data_answers_reads_locally() {
    let headers = pairs(&[("a", "1"), ("b", "2"), ("c", "3")]);
    let props = pairs(&[("request.x_real_ip", "10.20.30.40")]);
    let host = ProxyWasmHost::new(
        Version::V2a,
        RequestId { index: 1, generation: 0 },
        Some(AdditionalInfo::new(headers.clone(), props)),
    );
    match host.local_reply(&HostMessage::GetMapPairs { map_type: MapType::HttpRequestHeaders }) {
        FastPath::Answer(Ok(b)) => assert_eq!(Some(b), serialize_map_pairs(&headers)),
        other => panic!("unexpected {:?}", other),
    }
    match host.local_reply(&HostMessage::GetMapValue { map_type: MapType::HttpRequestHeaders, key: b"b".to_vec() }) {
        FastPath::Answer(Ok(b)) => assert_eq!(b, b"2".to_vec()),
        other => panic!("unexpected {:?}", other),
    }
    match host.local_reply(&HostMessage::GetMapValue { map_type: MapType::HttpRequestHeaders, key: b"zz".to_vec() }) {
        FastPath::Answer(Err(e)) => assert_eq!(e, HostError::NotFound),
        other => panic!("unexpected {:?}", other),
    }
    match host.local_reply(&HostMessage::GetProperty { path: b"request.x_real_ip".to_vec() }) {
        FastPath::Answer(Ok(b)) => assert_eq!(b, b"10.20.30.40".to_vec()),
        other => panic!("unexpected {:?}", other),
    }
    assert!(matches!(
        host.local_reply(&HostMessage::GetProperty { path: b"request.path".to_vec() }),
        FastPath::AskProxy
    ));
    assert!(matches!(
        host.local_reply(&HostMessage::GetMapPairs { map_type: MapType::HttpResponseHeaders }),
        FastPath::AskProxy
    ));
    let bare = ProxyWasmHost::new(Version::V2a, RequestId { index: 1, generation: 0 }, None);
    assert!(matches!(
        bare.local_reply(&HostMessage::GetMapPairs { map_type: MapType::HttpRequestHeaders }),
        FastPath::AskProxy
    ));
}

#[test]
fn commands_edit_request_data() {
    let mut host = ProxyWasmHost::new(
        Version::V2a,
        RequestId { index: 1, generation: 0 },
        Some(AdditionalInfo::new(pairs(&[("a", "1"), ("b", "2"), ("a", "3")]), vec![])),
    );
    let add = HostMessage::AddMapValue {
        map_type: MapType::HttpRequestHeaders,
        key: b"x-example-key".to_vec(),
        value: b"example_value".to_vec(),
    };
    assert_eq!(host.command(&add), CommandRoute::Send);
    let info = host.additional_info.as_ref().unwrap();
    assert_eq!(info.get_request_header_value(b"x-example-key"), Some(b"example_value".to_vec()));

    host.command(&HostMessage::ReplaceMapValue {
        map_type: MapType::HttpRequestHeaders,
        key: b"a".to_vec(),
        value: b"9".to_vec(),
    });
    let info = host.additional_info.as_ref().unwrap();
    assert_eq!(
        info.get_request_headers(),
        serialize_map_pairs(&pairs(&[("b", "2"), ("x-example-key", "example_value"), ("a", "9")]))
    );

    host.command(&HostMessage::RemoveMapValue { map_type: MapType::HttpRequestHeaders, key: b"b".to_vec() });
    let info = host.additional_info.as_ref().unwrap();
    assert_eq!(info.get_request_header_value(b"b"), None);

    let map = serialize_map_pairs(&pairs(&[("only", "one")])).unwrap();
    host.command(&HostMessage::SetMapPairs { map_type: MapType::HttpRequestHeaders, map });
    let info = host.additional_info.as_ref().unwrap();
    assert_eq!(info.get_request_headers(), serialize_map_pairs(&pairs(&[("only", "one")])));

    let mut serial = ProxyWasmHost::new(Version::V2, RequestId { index: 1, generation: 0 }, None);
    assert_eq!(serial.command(&add), CommandRoute::SendAndAwait);
}

#[test]
fn property_resolution_begins_by_cache_then_route() {
    let mut p = Proxy::new(None);
    match p.begin_property(&b"request.scheme".to_vec()) {
        PropertyStart::Scheme(q) => assert_eq!(
            q,
            HostMessage::GetMapValue { map_type: MapType::HttpRequestHeaders, key: b"X-Forwarded-Proto".to_vec() }
        ),
        other => panic!("unexpected {:?}", other),
    }
    match p.begin_property(&b"request.host".to_vec()) {
        PropertyStart::Host(q) => assert_eq!(
            q,
            HostMessage::GetMapValue { map_type: MapType::HttpRequestHeaders, key: b"X-CDN-Real-Host".to_vec() }
        ),
        other => panic!("unexpected {:?}", other),
    }
    assert!(matches!(p.begin_property(&b"request.uri".to_vec()), PropertyStart::Uri));
    assert!(matches!(p.begin_property(&b"request.city".to_vec()), PropertyStart::Geo(GeoField::City)));
    let path = b"request.path".to_vec();
    match p.begin_property(&path) {
        PropertyStart::Forward(q) => assert_eq!(q, HostMessage::GetProperty { path: path.clone() }),
        other => panic!("unexpected {:?}", other),
    }
    p.complete_from_proxy(path.clone(), Ok(b"/a".to_vec())).unwrap();
    match p.begin_property(&path) {
        PropertyStart::Cached(v) => assert_eq!(v, b"/a".to_vec()),
        other => panic!("unexpected {:?}", other),
    }
}

#[test]
fn undecodable_map_leaves_headers() {
    let h = pairs(&[("a", "1")]);
    let mut host = ProxyWasmHost::new(
        Version::V1,
        RequestId { index: 1, generation: 0 },
        Some(AdditionalInfo::new(h.clone(), vec![])),
    );
    host.command(&HostMessage::SetMapPairs { map_type: MapType::HttpRequestHeaders, map: vec![9, 9] });
    let info = host.additional_info.as_ref().unwrap();
    assert_eq!(info.get_request_headers(), serialize_map_pairs(&h));
}

#[test]
fn response_header_edits_leave_request_data() {
    let h = pairs(&[("a", "1")]);
    let mut host = ProxyWasmHost::new(
        Version::V2a,
        RequestId { index: 1, generation: 0 },
        Some(AdditionalInfo::new(h.clone(), vec![])),
    );
    host.command(&HostMessage::AddMapValue {
        map_type: MapType::HttpResponseHeaders,
        key: b"b".to_vec(),
        value: b"2".to_vec(),
    });
    host.command(&HostMessage::RemoveMapValue { map_type: MapType::HttpResponseHeaders, key: b"a".to_vec() });
    let info = host.additional_info.as_ref().unwrap();
    assert_eq!(info.get_request_headers(), serialize_map_pairs(&h));
    assert!(matches!(
        host.local_reply(&HostMessage::GetMapValue { map_type: MapType::HttpResponseHeaders, key: b"a".to_vec() }),
        FastPath::AskProxy
    ));
}
