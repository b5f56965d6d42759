//! The execution coordinator's rules: which requests run, which export a
//! handler calls and with what, and which action code the proxy gets back.

use vstd::prelude::*;
use crate::wire::Handler;

verus! {

/// Pass the transaction through.
pub const CONTINUE: i32 = 0;
/// Stop the pipeline until a later callback resumes it.
pub const PAUSE: i32 = 1;
/// The application is unknown.
pub const NOT_FOUND: i32 = 404;
/// The application is a draft or disabled.
pub const NOT_ACCEPTABLE: i32 = 406;
/// The application is rate limited.
pub const TOO_MANY_REQUESTS: i32 = 429;
/// The sidecar failed outside the module.
pub const INTERNAL_ERROR: i32 = 530;
/// The module ran out of memory.
pub const OUT_OF_MEMORY: i32 = 531;
/// The module ran past its deadline.
pub const EXECUTION_TIMEOUT: i32 = 532;
/// The module trapped or exited with a failure.
pub const EXECUTION_PANIC: i32 = 533;

/// Context id of the root context that every instance creates first.
pub const ROOT_CONTEXT_ID: u32 = 1;

/// Lifecycle status of an application in the registry.
#[derive(Clone, Copy, Debug, PartialEq, Eq, Structural)]
pub enum AppStatus {
    Draft,
    Enabled,
    Disabled,
    RateLimited,
}

pub open spec fn spec_admission(status: Option<AppStatus>) -> Option<i32> {
    match status {
        None => Some(NOT_FOUND),
        Some(AppStatus::Draft) => Some(NOT_ACCEPTABLE),
        Some(AppStatus::Disabled) => Some(NOT_ACCEPTABLE),
        Some(AppStatus::RateLimited) => Some(TOO_MANY_REQUESTS),
        Some(AppStatus::Enabled) => None,
    }
}

/// Decides whether a request may run, from the status of its application
/// (`None`: the registry does not know it). `Some(action)` ends the request
/// with that action; `None` lets it proceed.
pub fn admission(status: Option<AppStatus>) -> (r: Option<i32>)
    ensures
        r == spec_admission(status),
{
    match status {
        None => Some(NOT_FOUND),
        Some(AppStatus::Draft) => Some(NOT_ACCEPTABLE),
        Some(AppStatus::Disabled) => Some(NOT_ACCEPTABLE),
        Some(AppStatus::RateLimited) => Some(TOO_MANY_REQUESTS),
        Some(AppStatus::Enabled) => None,
    }
}

/// The reason recorded in the stats row for how a run ended.
#[derive(Clone, Copy, Debug, PartialEq, Eq, Structural)]
pub enum FailReason {
    Success,
    Timeout,
    OutOfMemory,
    Other,
}

/// The kind of trap the engine reported.
#[derive(Clone, Copy, Debug, PartialEq, Eq, Structural)]
pub enum TrapKind {
    Interrupt,
    UnreachableCodeReached,
    Other,
}

/// The root cause of a run that did not return an action.
#[derive(Clone, Copy, Debug, PartialEq, Eq, Structural)]
pub enum Failure {
    /// The module exited through the process-exit call with this code.
    Exit(i32),
    Trap(TrapKind),
    /// The wall-clock deadline around the handler call ran out.
    Deadline,
    Other,
}

pub open spec fn spec_classify(f: Failure) -> (i32, FailReason) {
    match f {
        Failure::Exit(code) => if code == 0 {
            (CONTINUE, FailReason::Success)
        } else {
            (EXECUTION_PANIC, FailReason::Other)
        },
        Failure::Trap(TrapKind::Interrupt) => (EXECUTION_TIMEOUT, FailReason::Timeout),
        Failure::Trap(TrapKind::UnreachableCodeReached) => (OUT_OF_MEMORY, FailReason::OutOfMemory),
        Failure::Trap(TrapKind::Other) => (EXECUTION_PANIC, FailReason::Other),
        Failure::Deadline => (EXECUTION_TIMEOUT, FailReason::Timeout),
        Failure::Other => (INTERNAL_ERROR, FailReason::Other),
    }
}

/// The action and fail reason for a run that ended in `f`.
pub fn classify_failure(f: Failure) -> (r: (i32, FailReason))
    ensures
        r == spec_classify(f),
{
    match f {
        Failure::Exit(code) => if code == 0 {
            (CONTINUE, FailReason::Success)
        } else {
            (EXECUTION_PANIC, FailReason::Other)
        },
        Failure::Trap(TrapKind::Interrupt) => (EXECUTION_TIMEOUT, FailReason::Timeout),
        Failure::Trap(TrapKind::UnreachableCodeReached) => (OUT_OF_MEMORY, FailReason::OutOfMemory),
        Failure::Trap(TrapKind::Other) => (EXECUTION_PANIC, FailReason::Other),
        Failure::Deadline => (EXECUTION_TIMEOUT, FailReason::Timeout),
        Failure::Other => (INTERNAL_ERROR, FailReason::Other),
    }
}

pub open spec fn spec_final_action(returned: i32, local_status: Option<i32>) -> i32 {
    match local_status {
        Some(s) => if returned != CONTINUE {
            s
        } else {
            CONTINUE
        },
        None => returned,
    }
}

/// The action of a run that completed: a locally produced response's status
/// wins when the handler stopped the pipeline; a handler that returned
/// `CONTINUE` continues even if it set a status.
pub fn final_action(returned: i32, local_status: Option<i32>) -> (r: i32)
    ensures
        r == spec_final_action(returned, local_status),
{
    match local_status {
        Some(s) => if returned != CONTINUE {
            s
        } else {
            CONTINUE
        },
        None => returned,
    }
}

/// How a handler's run ended.
#[derive(Clone, Copy, Debug, PartialEq, Eq, Structural)]
pub enum RunResult {
    /// The export returned `value`; `local_status` is the status of the
    /// local response the module sent, if it sent one.
    Returned { value: i32, local_status: Option<i32> },
    Failed(Failure),
}

/// The action the proxy gets for a run, with the fail reason to record
/// when the run did not return.
pub fn run_action(h: &Handler, run: RunResult) -> (r: (i32, Option<FailReason>))
    ensures
        run matches RunResult::Returned { value, local_status } ==> r == (spec_final_action(
            if h is OnLog {
                CONTINUE
            } else {
                value
            },
            local_status,
        ), None::<FailReason>),
        run matches RunResult::Failed(f) ==> r == (spec_classify(f).0, Some(spec_classify(f).1)),
{
    match run {
        RunResult::Returned { value, local_status } => {
            (final_action(handler_action(h, value), local_status), None)
        },
        RunResult::Failed(f) => {
            let (action, reason) = classify_failure(f);
            (action, Some(reason))
        },
    }
}

/// The processing phase recorded in the stats row.
#[derive(Clone, Copy, Debug, PartialEq, Eq, Structural)]
pub enum CdnPhase {
    RequestHeaders,
    ResponseHeaders,
    RequestBody,
    ResponseBody,
    Log,
}

pub open spec fn spec_phase(h: Handler) -> CdnPhase {
    match h {
        Handler::OnRequestHeaders { .. } => CdnPhase::RequestHeaders,
        Handler::OnResponseHeaders { .. } => CdnPhase::ResponseHeaders,
        Handler::OnRequestBody { .. } => CdnPhase::RequestBody,
        Handler::OnResponseBody { .. } => CdnPhase::ResponseBody,
        Handler::OnLog { .. } => CdnPhase::Log,
    }
}

/// The phase a handler runs in.
pub fn phase(h: &Handler) -> (r: CdnPhase)
    ensures
        r == spec_phase(*h),
{
    match h {
        Handler::OnRequestHeaders { .. } => CdnPhase::RequestHeaders,
        Handler::OnResponseHeaders { .. } => CdnPhase::ResponseHeaders,
        Handler::OnRequestBody { .. } => CdnPhase::RequestBody,
        Handler::OnResponseBody { .. } => CdnPhase::ResponseBody,
        Handler::OnLog { .. } => CdnPhase::Log,
    }
}

pub open spec fn spec_context_id(h: Handler) -> u32 {
    match h {
        Handler::OnRequestHeaders { context_id, .. } => context_id,
        Handler::OnResponseHeaders { context_id, .. } => context_id,
        Handler::OnRequestBody { context_id, .. } => context_id,
        Handler::OnResponseBody { context_id, .. } => context_id,
        Handler::OnLog { context_id } => context_id,
    }
}

pub open spec fn spec_export_name(h: Handler) -> Seq<char> {
    match h {
        Handler::OnRequestHeaders { .. } => "proxy_on_request_headers"@,
        Handler::OnResponseHeaders { .. } => "proxy_on_response_headers"@,
        Handler::OnRequestBody { .. } => "proxy_on_request_body"@,
        Handler::OnResponseBody { .. } => "proxy_on_response_body"@,
        Handler::OnLog { .. } => "proxy_on_log"@,
    }
}

/// The module export that a handler calls.
pub fn export_name(h: &Handler) -> (r: &'static str)
    ensures
        r@ == spec_export_name(*h),
{
    match h {
        Handler::OnRequestHeaders { .. } => "proxy_on_request_headers",
        Handler::OnResponseHeaders { .. } => "proxy_on_response_headers",
        Handler::OnRequestBody { .. } => "proxy_on_request_body",
        Handler::OnResponseBody { .. } => "proxy_on_response_body",
        Handler::OnLog { .. } => "proxy_on_log",
    }
}

pub open spec fn spec_export_args(h: Handler) -> Seq<i32> {
    match h {
        Handler::OnRequestHeaders { context_id, num_headers } => seq![
            context_id as i32,
            num_headers as i32,
            1i32,
        ],
        Handler::OnResponseHeaders { context_id, num_headers } => seq![
            context_id as i32,
            num_headers as i32,
            1i32,
        ],
        Handler::OnRequestBody { context_id, body_size, end_of_stream } => seq![
            context_id as i32,
            body_size as i32,
            if end_of_stream { 1i32 } else { 0i32 },
        ],
        Handler::OnResponseBody { context_id, body_size, end_of_stream } => seq![
            context_id as i32,
            body_size as i32,
            if end_of_stream { 1i32 } else { 0i32 },
        ],
        Handler::OnLog { context_id } => seq![context_id as i32],
    }
}

/// The arguments a handler's export is called with, each as the module's
/// `i32`.
pub fn export_args(h: &Handler) -> (r: Vec<i32>)
    ensures
        r@ == spec_export_args(*h),
{
    let r = match h {
        Handler::OnRequestHeaders { context_id, num_headers } => vec![
            *context_id as i32,
            *num_headers as i32,
            1i32,
        ],
        Handler::OnResponseHeaders { context_id, num_headers } => vec![
            *context_id as i32,
            *num_headers as i32,
            1i32,
        ],
        Handler::OnRequestBody { context_id, body_size, end_of_stream } => vec![
            *context_id as i32,
            *body_size as i32,
            if *end_of_stream { 1i32 } else { 0i32 },
        ],
        Handler::OnResponseBody { context_id, body_size, end_of_stream } => vec![
            *context_id as i32,
            *body_size as i32,
            if *end_of_stream { 1i32 } else { 0i32 },
        ],
        Handler::OnLog { context_id } => vec![*context_id as i32],
    };
    assert(r@ =~= spec_export_args(*h));
    r
}

/// The action a handler's export produced: what it returned, except for the
/// log handler, whose export returns nothing and which always continues.
pub fn handler_action(h: &Handler, returned: i32) -> (r: i32)
    ensures
        r == (if h is OnLog {
            CONTINUE
        } else {
            returned
        }),
{
    match h {
        Handler::OnLog { .. } => CONTINUE,
        _ => returned,
    }
}

/// The exports to call before the handler: `_initialize` if the module has
/// it, else `_start` if it has that, else none.
pub fn init_export(has_initialize: bool, has_start: bool) -> (r: Option<&'static str>)
    ensures
        has_initialize ==> (r matches Some(n) && n@ == "_initialize"@),
        !has_initialize && has_start ==> (r matches Some(n) && n@ == "_start"@),
        !has_initialize && !has_start ==> r is None,
{
    if has_initialize {
        Some("_initialize")
    } else if has_start {
        Some("_start")
    } else {
        None
    }
}

/// The `(context, parent)` pairs passed to `proxy_on_context_create`, in
/// order: the root context, then the request's context under it.
pub fn context_creations(h: &Handler) -> (r: Vec<(u32, u32)>)
    ensures
        r@ == seq![(ROOT_CONTEXT_ID, 0u32), (spec_context_id(*h), ROOT_CONTEXT_ID)],
{
    let ctx = match h {
        Handler::OnRequestHeaders { context_id, .. } => *context_id,
        Handler::OnResponseHeaders { context_id, .. } => *context_id,
        Handler::OnRequestBody { context_id, .. } => *context_id,
        Handler::OnResponseBody { context_id, .. } => *context_id,
        Handler::OnLog { context_id } => *context_id,
    };
    let r = vec![(ROOT_CONTEXT_ID, 0u32), (ctx, ROOT_CONTEXT_ID)];
    assert(r@ =~= seq![(ROOT_CONTEXT_ID, 0u32), (spec_context_id(*h), ROOT_CONTEXT_ID)]);
    r
}

} // verus!
