use proxywasm::action::{
    run_action, RunResult, admission, classify_failure, context_creations, export_args, export_name, final_action,
    handler_action, init_export, phase, AppStatus, CdnPhase, FailReason, Failure, TrapKind,
    CONTINUE, EXECUTION_PANIC, EXECUTION_TIMEOUT, INTERNAL_ERROR, NOT_ACCEPTABLE, NOT_FOUND,
    OUT_OF_MEMORY, PAUSE, TOO_MANY_REQUESTS,
};
use proxywasm::stats::{row_plan, RowChoice, RowPlan, StatsRows};
use proxywasm::trace::{request_properties, trace_from_reply, trace_id, traceparent_query};
use proxywasm::wire::{Handler, HostError, HostMessage, MapType};

#[test]
fn admission_by_status() {
    assert_eq!(admission(None), Some(NOT_FOUND));
    assert_eq!(admission(Some(AppStatus::Draft)), Some(NOT_ACCEPTABLE));
    assert_eq!(admission(Some(AppStatus::Disabled)), Some(NOT_ACCEPTABLE));
    assert_eq!(admission(Some(AppStatus::RateLimited)), Some(TOO_MANY_REQUESTS));
    assert_eq!(admission(Some(AppStatus::Enabled)), None);
    assert_eq!(NOT_FOUND, 404);
    assert_eq!(NOT_ACCEPTABLE, 406);
    assert_eq!(TOO_MANY_REQUESTS, 429);
}

#[test]
fn failure_classification() {
    assert_eq!(classify_failure(Failure::Exit(0)), (CONTINUE, FailReason::Success));
    assert_eq!(classify_failure(Failure::Exit(3)), (EXECUTION_PANIC, FailReason::Other));
    assert_eq!(
        classify_failure(Failure::Trap(TrapKind::Interrupt)),
        (EXECUTION_TIMEOUT, FailReason::Timeout)
    );
    assert_eq!(
        classify_failure(Failure::Trap(TrapKind::UnreachableCodeReached)),
        (OUT_OF_MEMORY, FailReason::OutOfMemory)
    );
    assert_eq!(
        classify_failure(Failure::Trap(TrapKind::Other)),
        (EXECUTION_PANIC, FailReason::Other)
    );
    assert_eq!(classify_failure(Failure::Deadline), (EXECUTION_TIMEOUT, FailReason::Timeout));
    assert_eq!(classify_failure(Failure::Other), (INTERNAL_ERROR, FailReason::Other));
}

#[test]
fn local_response_status_wins_only_when_stopped() {
    assert_eq!(final_action(PAUSE, Some(403)), 403);
    assert_eq!(final_action(CONTINUE, Some(403)), CONTINUE);
    assert_eq!(final_action(PAUSE, None), PAUSE);
    assert_eq!(final_action(CONTINUE, None), CONTINUE);
}

#[test]
fn handler_dispatch_table() {
    let h = Handler::OnRequestHeaders { context_id: 10, num_headers: 10 };
    assert_eq!(export_name(&h), "proxy_on_request_headers");
    assert_eq!(export_args(&h), vec![10, 10, 1]);
    assert_eq!(phase(&h), CdnPhase::RequestHeaders);
    let b = Handler::OnRequestBody { context_id: 10, body_size: 19, end_of_stream: true };
    assert_eq!(export_name(&b), "proxy_on_request_body");
    assert_eq!(export_args(&b), vec![10, 19, 1]);
    let r = Handler::OnResponseBody { context_id: 7, body_size: 0, end_of_stream: false };
    assert_eq!(export_name(&r), "proxy_on_response_body");
    assert_eq!(export_args(&r), vec![7, 0, 0]);
    assert_eq!(phase(&r), CdnPhase::ResponseBody);
    let s = Handler::OnResponseHeaders { context_id: 4, num_headers: 2 };
    assert_eq!(export_name(&s), "proxy_on_response_headers");
    let l = Handler::OnLog { context_id: 10 };
    assert_eq!(export_name(&l), "proxy_on_log");
    assert_eq!(export_args(&l), vec![10]);
    assert_eq!(handler_action(&l, 5), CONTINUE);
    assert_eq!(handler_action(&h, PAUSE), PAUSE);
}

#[test]
fn initialization_sequence() {
    assert_eq!(init_export(true, true), Some("_initialize"));
    assert_eq!(init_export(false, true), Some("_start"));
    assert_eq!(init_export(false, false), None);
    let h = Handler::OnLog { context_id: 10 };
    assert_eq!(context_creations(&h), vec![(1, 0), (10, 1)]);
}

#[test]
fn log_scenario_continues() {
    // a module that logs on request headers and returns CONTINUE
    let h = Handler::OnRequestHeaders { context_id: 10, num_headers: 10 };
    assert!(proxywasm::abi::proxy_log(2, b"on_http_request_headers: 123").is_ok());
    assert_eq!(final_action(handler_action(&h, CONTINUE), None), 0);
}

#[test]
fn stats_rows_shared_across_body_chunks() {
    let mut rows = StatsRows::new();
    let trace = b"00-0af7651916cd43dd8448eb211c80319c-b7ad6b7169203331-01".to_vec();
    let first = Handler::OnRequestBody { context_id: 10, body_size: 0, end_of_stream: false };
    let last = Handler::OnRequestBody { context_id: 10, body_size: 19, end_of_stream: true };
    let a = rows.row_for(&first, &trace);
    assert!(a.fresh);
    let b = rows.row_for(&first, &trace);
    assert_eq!(b, RowChoice { row: a.row, fresh: false });
    let c = rows.row_for(&last, &trace);
    assert_eq!(c, RowChoice { row: a.row, fresh: false });
    let d = rows.row_for(&first, &trace);
    assert!(d.fresh);
    assert_ne!(d.row, a.row);
}

#[test]
fn stats_rows_fresh_for_other_handlers() {
    let mut rows = StatsRows::new();
    let trace = b"t".to_vec();
    let h = Handler::OnRequestHeaders { context_id: 1, num_headers: 0 };
    let a = rows.row_for(&h, &trace);
    let b = rows.row_for(&h, &trace);
    assert!(a.fresh && b.fresh);
    assert_ne!(a.row, b.row);
    let last = Handler::OnResponseBody { context_id: 1, body_size: 0, end_of_stream: true };
    let c = rows.row_for(&last, &trace);
    let d = rows.row_for(&last, &trace);
    assert!(c.fresh && d.fresh);
    assert_ne!(c.row, d.row);
}

#[test]
fn trace_id_from_header_or_random() {
    let t = b"00-0af7651916cd43dd8448eb211c80319c-b7ad6b7169203331-01".to_vec();
    assert_eq!(trace_id(Ok(t.clone())), t);
    let r = trace_id(Ok(vec![]));
    assert_eq!(r.len(), 10);
    assert!(r.iter().all(|b| b.is_ascii_alphanumeric() || *b == b'_' || *b == b'-'));
    assert_eq!(trace_id(Err(HostError::NotFound)).len(), 10);
    assert_eq!(trace_id(Ok(vec![0xff, 0xfe])).len(), 10);
    assert_eq!(trace_from_reply(Ok(vec![0xff])), None);
    assert_eq!(trace_from_reply(Ok(b"abc".to_vec())), Some(b"abc".to_vec()));
}

#[test]
fn traceparent_query_message() {
    assert_eq!(
        traceparent_query(),
        HostMessage::GetMapValue { map_type: MapType::HttpRequestHeaders, key: b"traceparent".to_vec() }
    );
}

#[test]
fn store_properties() {
    let p = request_properties(b"127.0.0.1", b"trace", "hostname").unwrap();
    assert_eq!(
        p,
        vec![
            (b"client_ip".to_vec(), b"127.0.0.1".to_vec()),
            (b"traceparent".to_vec(), b"trace".to_vec()),
            (b"requestor".to_vec(), b"hostname".to_vec()),
        ]
    );
    assert_eq!(request_properties(&[0xc3], b"t", "h"), Err(HostError::Utf8Error));
}

#[test]
fn run_outcomes() {
    let h = Handler::OnRequestBody { context_id: 10, body_size: 0, end_of_stream: false };
    assert_eq!(run_action(&h, RunResult::Returned { value: PAUSE, local_status: None }), (PAUSE, None));
    assert_eq!(run_action(&h, RunResult::Returned { value: PAUSE, local_status: Some(403) }), (403, None));
    assert_eq!(run_action(&h, RunResult::Returned { value: CONTINUE, local_status: Some(403) }), (CONTINUE, None));
    let l = Handler::OnLog { context_id: 10 };
    assert_eq!(run_action(&l, RunResult::Returned { value: 77, local_status: None }), (CONTINUE, None));
    assert_eq!(
        run_action(&h, RunResult::Failed(Failure::Trap(TrapKind::Interrupt))),
        (EXECUTION_TIMEOUT, Some(FailReason::Timeout))
    );
}

#[test]
fn row_plan_from_lookup() {
    assert_eq!(row_plan(false, Some(7)), RowPlan::Reuse { row: 7, drop: false });
    assert_eq!(row_plan(true, Some(7)), RowPlan::Reuse { row: 7, drop: true });
    assert_eq!(row_plan(false, None), RowPlan::Fresh { keep: true });
    assert_eq!(row_plan(true, None), RowPlan::Fresh { keep: false });
}
