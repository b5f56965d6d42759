use proxywasm::server::{CloseReason, Inbound, Server, Step};
use proxywasm::wire::{Handler, ProxyStatus, RequestId, Version};

fn headers() -> Handler {
    Handler::OnRequestHeaders { context_id: 10, num_headers: 10 }
}

#[test]
fn v2a_routes_replies_by_request_id() {
    let mut s: Server<&str> = Server::new(Version::V2a);
    assert_eq!(s.version(), Version::V2a);
    let id = RequestId { index: 5, generation: 9 };
    match s.on_inbound(Inbound::Entrypoint {
        application: 7,
        handler: headers(),
        additional_info: None,
        request_id: Some(id),
    }) {
        Step::Start { request_id, application, handler, .. } => {
            assert_eq!(request_id, id);
            assert_eq!(application, 7);
            assert_eq!(handler, headers());
        }
        _ => panic!("expected a start"),
    }
    s.await_reply(id, "waiter");
    match s.on_inbound(Inbound::HostResponse { status: ProxyStatus::Success, value: b"v".to_vec(), request_id: Some(id) }) {
        Step::Deliver { waiter, status, value } => {
            assert_eq!(waiter, "waiter");
            assert_eq!(status, ProxyStatus::Success);
            assert_eq!(value, b"v".to_vec());
        }
        _ => panic!("expected a delivery"),
    }
    match s.on_inbound(Inbound::HostResponse { status: ProxyStatus::Success, value: vec![], request_id: Some(id) }) {
        Step::Unsolicited { request_id } => assert_eq!(request_id, id),
        _ => panic!("expected an unsolicited reply"),
    }
    assert!(matches!(
        s.on_inbound(Inbound::HostResponse { status: ProxyStatus::Success, value: vec![], request_id: None }),
        Step::Close(CloseReason::MissingRequestId)
    ));
    assert!(matches!(
        s.on_inbound(Inbound::Entrypoint { application: 1, handler: headers(), additional_info: None, request_id: None }),
        Step::Close(CloseReason::MissingRequestId)
    ));
    assert!(matches!(
        s.on_inbound(Inbound::HostError { message: b"bad".to_vec() }),
        Step::Close(CloseReason::ProxyError)
    ));
    assert!(matches!(s.on_inbound(Inbound::Unexpected), Step::Close(CloseReason::UnexpectedMessage)));
}

#[test]
fn v2_numbers_transactions_serially() {
    let mut s: Server<u8> = Server::new(Version::V2);
    match s.on_inbound(Inbound::Entrypoint { application: 3, handler: headers(), additional_info: None, request_id: None }) {
        Step::Start { request_id, application, .. } => {
            assert_eq!(request_id, RequestId { index: 1, generation: 0 });
            assert_eq!(application, 3);
        }
        _ => panic!("expected a start"),
    }
    // a reply with no call waiting ends the serial connection
    assert!(matches!(
        s.on_inbound(Inbound::HostResponse { status: ProxyStatus::Success, value: vec![], request_id: None }),
        Step::Close(CloseReason::UnexpectedMessage)
    ));
    // the first transaction has not finished: no new entrypoint yet
    assert!(matches!(
        s.on_inbound(Inbound::Entrypoint { application: 3, handler: headers(), additional_info: None, request_id: None }),
        Step::Close(CloseReason::UnexpectedMessage)
    ));
    assert!(s.finish(RequestId { index: 1, generation: 0 }));
    assert!(!s.finish(RequestId { index: 1, generation: 0 }));
    match s.on_inbound(Inbound::Entrypoint { application: 3, handler: headers(), additional_info: None, request_id: None }) {
        Step::Start { request_id, .. } => assert_eq!(request_id, RequestId { index: 2, generation: 0 }),
        _ => panic!("expected a start"),
    }
    s.await_reply(RequestId { index: 2, generation: 0 }, 1);
    match s.on_inbound(Inbound::HostResponse { status: ProxyStatus::NotFound, value: vec![], request_id: None }) {
        Step::Deliver { waiter, status, .. } => {
            assert_eq!(waiter, 1);
            assert_eq!(status, ProxyStatus::NotFound);
        }
        _ => panic!("expected a delivery"),
    }
}

#[test]
fn v1_requests_and_responses() {
    let mut s: Server<u8> = Server::new(Version::V1);
    let id = RequestId { index: 2, generation: 0 };
    match s.on_inbound(Inbound::Request { request_id: id, application: 12345, handler: headers() }) {
        Step::Start { request_id, application, .. } => {
            assert_eq!(request_id, id);
            assert_eq!(application, 12345);
        }
        _ => panic!("expected a start"),
    }
    s.await_reply(id, 4);
    match s.on_inbound(Inbound::Response { request_id: id, value: b"x".to_vec() }) {
        Step::Deliver { waiter, status, value } => {
            assert_eq!(waiter, 4);
            assert_eq!(status, ProxyStatus::Success);
            assert_eq!(value, b"x".to_vec());
        }
        _ => panic!("expected a delivery"),
    }
    assert!(matches!(
        s.on_inbound(Inbound::Entrypoint { application: 1, handler: headers(), additional_info: None, request_id: Some(id) }),
        Step::Close(CloseReason::UnexpectedMessage)
    ));
}

#[test]
fn v2_refuses_entrypoint_while_call_waits() {
    let mut s: Server<u8> = Server::new(Version::V2);
    assert!(matches!(
        s.on_inbound(Inbound::Entrypoint { application: 1, handler: headers(), additional_info: None, request_id: None }),
        Step::Start { .. }
    ));
    s.await_reply(RequestId { index: 1, generation: 0 }, 9);
    assert!(matches!(
        s.on_inbound(Inbound::Entrypoint { application: 1, handler: headers(), additional_info: None, request_id: None }),
        Step::Close(CloseReason::UnexpectedMessage)
    ));
    assert!(matches!(
        s.on_inbound(Inbound::HostError { message: vec![] }),
        Step::Close(CloseReason::UnexpectedMessage)
    ));
    // the waiting call still gets its reply
    match s.on_inbound(Inbound::HostResponse { status: ProxyStatus::Success, value: b"r".to_vec(), request_id: None }) {
        Step::Deliver { waiter, .. } => assert_eq!(waiter, 9),
        _ => panic!("expected a delivery"),
    }
}

#[test]
fn v2a_one_final_action_per_transaction() {
    let mut s: Server<u8> = Server::new(Version::V2a);
    let id = RequestId { index: 4, generation: 1 };
    assert!(matches!(
        s.on_inbound(Inbound::Entrypoint { application: 1, handler: headers(), additional_info: None, request_id: Some(id) }),
        Step::Start { .. }
    ));
    assert!(s.finish(id));
    assert!(!s.finish(id));
    assert!(!s.finish(RequestId { index: 5, generation: 1 }));
}
