//! The decisions of a connection's serving loop, per protocol version: what
//! an inbound message starts, which waiting call a reply reaches, and when
//! the connection closes. The loop itself, with its stream and tasks, runs
//! outside the library.

use vstd::prelude::*;
use crate::additional::AdditionalInfo;
use crate::connection::{InFlight, ReplyTable};
use crate::wire::{Handler, ProxyStatus, RequestId, Version};

verus! {

/// A decoded message from the proxy, after the handshake.
pub enum Inbound {
    /// v1: run `handler` of application `application`.
    Request { request_id: RequestId, application: i64, handler: Handler },
    /// v1: the answer to a host call.
    Response { request_id: RequestId, value: Vec<u8> },
    /// v2 and v2a: run `handler` of application `application`.
    Entrypoint {
        application: u32,
        handler: Handler,
        additional_info: Option<AdditionalInfo>,
        request_id: Option<RequestId>,
    },
    /// v2 and v2a: the answer to a host call.
    HostResponse { status: ProxyStatus, value: Vec<u8>, request_id: Option<RequestId> },
    /// v2a: the proxy gives up on the connection.
    HostError { message: Vec<u8> },
    /// A handshake or a sidecar-to-proxy message arriving from the proxy.
    Unexpected,
}

/// Why a connection closes.
#[derive(Clone, Copy, Debug, PartialEq, Eq, Structural)]
pub enum CloseReason {
    /// A message that this version does not accept here.
    UnexpectedMessage,
    /// A v2a envelope without the request id it must carry.
    MissingRequestId,
    /// The proxy sent a host error.
    ProxyError,
}

/// What the loop does with an inbound message.
pub enum Step<W> {
    /// Runs a handler for a new transaction.
    Start {
        request_id: RequestId,
        application: i64,
        handler: Handler,
        additional_info: Option<AdditionalInfo>,
    },
    /// Hands a reply to the call that waits for it.
    Deliver { waiter: W, status: ProxyStatus, value: Vec<u8> },
    /// A reply that no call waits for: logged and dropped.
    Unsolicited { request_id: RequestId },
    /// Ends the connection.
    Close(CloseReason),
}

/// How many outbound messages the connection's channel holds before host
/// calls wait: the serial version keeps a short queue.
pub fn outbound_capacity(version: Version) -> (r: usize)
    ensures
        version == Version::V2 ==> r == 32,
        version != Version::V2 ==> r == 1024,
{
    match version {
        Version::V2 => 32,
        _ => 1024,
    }
}

/// The state of one connection's loop.
pub struct Server<W> {
    version: Version,
    replies: ReplyTable<W>,
    running: InFlight,
    index: u32,
}

/// The id the strictly serial version gives its transaction number `index`.
pub open spec fn serial_id(index: u32) -> RequestId {
    RequestId { index, generation: 0 }
}

impl<W> Server<W> {
    /// The connection's protocol version.
    pub closed spec fn spec_version(&self) -> Version {
        self.version
    }

    /// The connection's protocol version.
    pub fn version(&self) -> (r: Version)
        ensures
            r == self.spec_version(),
    {
        self.version
    }

    /// The calls that wait for a reply, by request key.
    pub closed spec fn pending(&self) -> Map<u64, W> {
        self.replies.pending()
    }

    /// The transactions whose final action is still owed, by request key.
    pub closed spec fn running(&self) -> Set<u64> {
        self.running.running()
    }

    /// The index of the latest serial (v2) transaction; zero before the
    /// first.
    pub closed spec fn current_index(&self) -> u32 {
        self.index
    }

    pub fn new(version: Version) -> (r: Server<W>)
        ensures
            r.spec_version() == version,
            r.pending() == Map::<u64, W>::empty(),
            r.running() == Set::<u64>::empty(),
            r.current_index() == 0,
    {
        Server { version, replies: ReplyTable::new(), running: InFlight::new(), index: 0 }
    }

    /// Registers the waiter of a host call sent for `id`.
    pub fn await_reply(&mut self, id: RequestId, waiter: W) -> (r: Option<W>)
        ensures
            final(self).spec_version() == old(self).spec_version(),
            final(self).current_index() == old(self).current_index(),
            final(self).running() == old(self).running(),
            final(self).pending() == old(self).pending().insert(id.spec_key(), waiter),
            r is Some <==> old(self).pending().contains_key(id.spec_key()),
    {
        self.replies.register(id, waiter)
    }

    /// Ends transaction `id` once its handler returned: `true` when it was
    /// running, and its final action is then sent; `false` when it was not,
    /// and nothing is sent. So each transaction gets one final action.
    pub fn finish(&mut self, id: RequestId) -> (r: bool)
        ensures
            final(self).spec_version() == old(self).spec_version(),
            final(self).current_index() == old(self).current_index(),
            final(self).pending() == old(self).pending(),
            final(self).running() == old(self).running().remove(id.spec_key()),
            r == old(self).running().contains(id.spec_key()),
    {
        self.running.finish(id)
    }

    fn deliver(&mut self, id: RequestId, status: ProxyStatus, value: Vec<u8>) -> (r: Step<W>)
        ensures
            final(self).spec_version() == old(self).spec_version(),
            final(self).current_index() == old(self).current_index(),
            final(self).running() == old(self).running(),
            old(self).pending().contains_key(id.spec_key()) ==> (r matches Step::Deliver { waiter, status: s, value: v } && waiter == old(self).pending()[id.spec_key()] && s == status && v@ == value@)
                && final(self).pending() == old(self).pending().remove(id.spec_key()),
            !old(self).pending().contains_key(id.spec_key()) ==> (r matches Step::Unsolicited { request_id } && request_id == id)
                && final(self).pending() == old(self).pending(),
    {
        match self.replies.take(id) {
            Some(waiter) => Step::Deliver { waiter, status, value },
            None => Step::Unsolicited { request_id: id },
        }
    }

    fn start(&mut self, request_id: RequestId, application: i64, handler: Handler, additional_info: Option<AdditionalInfo>) -> (r: Step<W>)
        ensures
            final(self).spec_version() == old(self).spec_version(),
            final(self).current_index() == old(self).current_index(),
            final(self).pending() == old(self).pending(),
            final(self).running() == old(self).running().insert(request_id.spec_key()),
            r matches Step::Start { request_id: i, application: a, handler: h, additional_info: d } && i == request_id && a == application && h == handler && d == additional_info,
    {
        self.running.begin(request_id);
        Step::Start { request_id, application, handler, additional_info }
    }

    /// Decides what an inbound message does on this connection.
    ///
    /// v1 takes requests and responses, a response carrying an `Ok` status.
    /// v2a takes entrypoints and host responses, each with its request id,
    /// and closes on a host error. v2 is strictly serial: it takes an
    /// entrypoint, numbered 1, 2, ... by the connection, only once the
    /// previous transaction finished and no call waits; while the running
    /// transaction's call waits, it takes only that call's reply. Any other
    /// message closes the connection. A started transaction is running until
    /// `finish`; a close changes nothing.
    pub fn on_inbound(&mut self, message: Inbound) -> (r: Step<W>)
        requires
            old(self).spec_version() == Version::V2 ==> old(self).current_index() < u32::MAX,
        ensures
            final(self).spec_version() == old(self).spec_version(),
            r is Close ==> final(self).pending() == old(self).pending() && final(self).running()
                == old(self).running() && final(self).current_index() == old(self).current_index(),
            r matches Step::Start { request_id, .. } ==> final(self).pending() == old(self).pending()
                && final(self).running() == old(self).running().insert(request_id.spec_key()),
            r is Deliver || r is Unsolicited ==> final(self).running() == old(self).running()
                && final(self).current_index() == old(self).current_index(),
            r is Unsolicited ==> final(self).pending() == old(self).pending(),
            old(self).spec_version() != Version::V2 ==> final(self).current_index() == old(self).current_index(),
            message is Unexpected ==> (r matches Step::Close(c) && c == CloseReason::UnexpectedMessage),
            old(self).spec_version() == Version::V1 ==> {
                &&& message matches Inbound::Request { request_id, application, handler } ==> (r matches Step::Start { request_id: i, application: a, handler: h, additional_info } && i == request_id && a == application && h == handler && additional_info is None)
                &&& message matches Inbound::Response { request_id, value } ==> (old(self).pending().contains_key(request_id.spec_key()) ==> (r matches Step::Deliver { waiter, status, value: v } && waiter == old(self).pending()[request_id.spec_key()] && status == ProxyStatus::Success && v@ == value@ && final(self).pending() == old(self).pending().remove(request_id.spec_key())))
                &&& message matches Inbound::Response { request_id, .. } ==> (!old(self).pending().contains_key(request_id.spec_key()) ==> (r matches Step::Unsolicited { request_id: i } && i == request_id))
                &&& !(message is Request || message is Response) ==> (r matches Step::Close(c) && c == CloseReason::UnexpectedMessage)
            },
            old(self).spec_version() == Version::V2a ==> {
                &&& message matches Inbound::Entrypoint { application, handler, request_id, .. } ==> (request_id matches Some(id) ==> (r matches Step::Start { request_id: i, application: a, handler: h, .. } && i == id && a == application as i64 && h == handler))
                &&& message matches Inbound::Entrypoint { request_id, .. } ==> (request_id is None ==> (r matches Step::Close(c) && c == CloseReason::MissingRequestId))
                &&& message matches Inbound::HostResponse { status, value, request_id } ==> (request_id matches Some(id) ==> (old(self).pending().contains_key(id.spec_key()) ==> (r matches Step::Deliver { waiter, status: s, value: v } && waiter == old(self).pending()[id.spec_key()] && s == status && v@ == value@ && final(self).pending() == old(self).pending().remove(id.spec_key()))))
                &&& message matches Inbound::HostResponse { request_id, .. } ==> (request_id matches Some(id) ==> (!old(self).pending().contains_key(id.spec_key()) ==> (r matches Step::Unsolicited { request_id: i } && i == id)))
                &&& message matches Inbound::HostResponse { request_id, .. } ==> (request_id is None ==> (r matches Step::Close(c) && c == CloseReason::MissingRequestId))
                &&& message is HostError ==> (r matches Step::Close(c) && c == CloseReason::ProxyError)
                &&& (message is Request || message is Response) ==> (r matches Step::Close(c) && c == CloseReason::UnexpectedMessage)
            },
            old(self).spec_version() == Version::V2 ==> {
                let current = serial_id(old(self).current_index()).spec_key();
                let busy = old(self).running().contains(current) || old(self).pending().contains_key(current);
                &&& message matches Inbound::Entrypoint { application, handler, .. } ==> (!busy ==> (r matches Step::Start { request_id: i, application: a, handler: h, additional_info } && i == serial_id((old(self).current_index() + 1) as u32) && a == application as i64 && h == handler && additional_info is None && final(self).current_index() == old(self).current_index() + 1))
                &&& message is Entrypoint ==> (busy ==> (r matches Step::Close(c) && c == CloseReason::UnexpectedMessage))
                &&& message matches Inbound::HostResponse { status, value, .. } ==> (old(self).pending().contains_key(current) ==> (r matches Step::Deliver { waiter, status: s, value: v } && waiter == old(self).pending()[current] && s == status && v@ == value@ && final(self).pending() == old(self).pending().remove(current)))
                &&& message is HostResponse ==> (!old(self).pending().contains_key(current) ==> (r matches Step::Close(c) && c == CloseReason::UnexpectedMessage))
                &&& !(message is Entrypoint || message is HostResponse) ==> (r matches Step::Close(c) && c == CloseReason::UnexpectedMessage)
            },
    {
        match self.version {
            Version::V1 => match message {
                Inbound::Request { request_id, application, handler } => self.start(
                    request_id,
                    application,
                    handler,
                    None,
                ),
                Inbound::Response { request_id, value } => self.deliver(
                    request_id,
                    ProxyStatus::Success,
                    value,
                ),
                _ => Step::Close(CloseReason::UnexpectedMessage),
            },
            Version::V2a => match message {
                Inbound::Entrypoint { application, handler, additional_info, request_id } => {
                    match request_id {
                        Some(id) => self.start(id, application as i64, handler, additional_info),
                        None => Step::Close(CloseReason::MissingRequestId),
                    }
                },
                Inbound::HostResponse { status, value, request_id } => match request_id {
                    Some(id) => self.deliver(id, status, value),
                    None => Step::Close(CloseReason::MissingRequestId),
                },
                Inbound::HostError { .. } => Step::Close(CloseReason::ProxyError),
                _ => Step::Close(CloseReason::UnexpectedMessage),
            },
            Version::V2 => {
                let current = RequestId { index: self.index, generation: 0 };
                let busy = self.running.contains(current) || self.replies.waits(current);
                match message {
                    Inbound::Entrypoint { application, handler, .. } => {
                        if busy {
                            Step::Close(CloseReason::UnexpectedMessage)
                        } else {
                            self.index = self.index + 1;
                            let id = RequestId { index: self.index, generation: 0 };
                            self.start(id, application as i64, handler, None)
                        }
                    },
                    Inbound::HostResponse { status, value, .. } => {
                        if self.replies.waits(current) {
                            self.deliver(current, status, value)
                        } else {
                            Step::Close(CloseReason::UnexpectedMessage)
                        }
                    },
                    _ => Step::Close(CloseReason::UnexpectedMessage),
                }
            },
        }
    }
}

} // verus!
