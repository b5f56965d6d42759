//! Per-connection bookkeeping: which calls await a reply, which transactions
//! are in flight, how replies settle, and how the accept loop backs off.

use vstd::prelude::*;
use std::collections::{HashMap, HashSet};
use crate::wire::{HostError, HostMessage, ProxyStatus, RequestId};

verus! {

broadcast use vstd::std_specs::hash::group_hash_axioms;

/// The waiters of host calls that expect a reply, keyed by request id.
pub struct ReplyTable<W> {
    waiters: HashMap<u64, W>,
}

impl<W> ReplyTable<W> {
    /// The waiting calls, by request key.
    pub closed spec fn pending(&self) -> Map<u64, W> {
        self.waiters@
    }

    pub fn new() -> (r: ReplyTable<W>)
        ensures
            r.pending() == Map::<u64, W>::empty(),
    {
        ReplyTable { waiters: HashMap::new() }
    }

    /// Registers the waiter of a call sent for `id`. A waiter still
    /// registered for `id` is handed back: it will never get a reply.
    pub fn register(&mut self, id: RequestId, waiter: W) -> (r: Option<W>)
        ensures
            final(self).pending() == old(self).pending().insert(id.spec_key(), waiter),
            r is Some <==> old(self).pending().contains_key(id.spec_key()),
            r matches Some(w) ==> w == old(self).pending()[id.spec_key()],
    {
        self.waiters.insert(id.key(), waiter)
    }

    /// Whether a call sent for `id` waits for its reply.
    pub fn waits(&self, id: RequestId) -> (r: bool)
        ensures
            r == self.pending().contains_key(id.spec_key()),
    {
        self.waiters.contains_key(&id.key())
    }

    /// Routes a reply for `id`: the waiter registered for it leaves the table
    /// and is returned. `None` means an unsolicited reply, to be discarded.
    pub fn take(&mut self, id: RequestId) -> (r: Option<W>)
        ensures
            old(self).pending().contains_key(id.spec_key()) ==> r == Some(
                old(self).pending()[id.spec_key()],
            ) && final(self).pending() == old(self).pending().remove(id.spec_key()),
            !old(self).pending().contains_key(id.spec_key()) ==> r is None && final(self).pending()
                == old(self).pending(),
    {
        let key = id.key();
        let r = self.waiters.remove(&key);
        proof {
            if !old(self).pending().contains_key(key) {
                assert(self.waiters@ =~= old(self).pending());
            }
        }
        r
    }
}

/// Each call awaits exactly one reply: once the waiter of a key left the
/// table, a further reply with that key finds no waiter until a new call
/// registers one.
pub proof fn lemma_one_reply_per_call<W>(pending: Map<u64, W>, key: u64)
    requires
        pending.contains_key(key),
    ensures
        !pending.remove(key).contains_key(key),
        pending.remove(key).insert(key, pending[key]) == pending,
{
    assert(pending.remove(key).insert(key, pending[key]) =~= pending);
}

/// The transactions of a connection whose final action is still owed.
pub struct InFlight {
    ids: HashSet<u64>,
}

impl InFlight {
    pub closed spec fn running(&self) -> Set<u64> {
        self.ids@
    }

    pub fn new() -> (r: InFlight)
        ensures
            r.running() == Set::<u64>::empty(),
    {
        InFlight { ids: HashSet::new() }
    }

    /// Starts a transaction; `false` when one with that id is already running.
    pub fn begin(&mut self, id: RequestId) -> (r: bool)
        ensures
            final(self).running() == old(self).running().insert(id.spec_key()),
            r == !old(self).running().contains(id.spec_key()),
    {
        self.ids.insert(id.key())
    }

    /// Whether the transaction `id` is running.
    pub fn contains(&self, id: RequestId) -> (r: bool)
        ensures
            r == self.running().contains(id.spec_key()),
    {
        self.ids.contains(&id.key())
    }

    /// Ends a transaction: `true` when it was running, and its final action
    /// is then sent; `false` when it was not, and nothing is sent.
    pub fn finish(&mut self, id: RequestId) -> (r: bool)
        ensures
            final(self).running() == old(self).running().remove(id.spec_key()),
            r == old(self).running().contains(id.spec_key()),
    {
        let key = id.key();
        let r = self.ids.remove(&key);
        proof {
            assert(self.ids@ =~= old(self).running().remove(key));
        }
        r
    }
}

/// A transaction gets one final action: after it finished, finishing it
/// again sends nothing.
pub proof fn lemma_one_final_action(running: Set<u64>, key: u64)
    ensures
        !running.remove(key).contains(key),
{
}

/// How long a host call waits for the proxy's reply, in milliseconds.
pub const REPLY_TIMEOUT_MS: u64 = 200;

/// How the wait for a proxy's reply ended.
#[derive(Debug)]
pub enum ReplyOutcome {
    /// The proxy answered with a status and bytes.
    Answered(ProxyStatus, Vec<u8>),
    /// The connection closed before an answer came.
    Closed,
    /// No answer came within the reply timeout.
    TimedOut,
}

/// The result a host call gets from its reply: the bytes of an `Ok` answer,
/// the error an other status stands for, `InternalFailure` on a closed
/// connection, and empty bytes when the proxy did not answer in time.
pub fn settle_reply(outcome: ReplyOutcome) -> (r: Result<Vec<u8>, HostError>)
    ensures
        outcome matches ReplyOutcome::Answered(s, v) ==> (s == ProxyStatus::Success ==> (r matches Ok(
            x,
        ) && x@ == v@)) && (s != ProxyStatus::Success ==> r == Err::<Vec<u8>, HostError>(
            HostError::spec_from_status(s)->Some_0,
        )),
        outcome is Closed ==> r == Err::<Vec<u8>, HostError>(HostError::InternalFailure),
        outcome is TimedOut ==> (r matches Ok(x) && x@.len() == 0),
{
    match outcome {
        ReplyOutcome::Answered(status, value) => match HostError::from_status(status) {
            None => Ok(value),
            Some(e) => Err(e),
        },
        ReplyOutcome::Closed => Err(HostError::InternalFailure),
        ReplyOutcome::TimedOut => Ok(Vec::new()),
    }
}

/// The big-endian bytes of `n`.
pub open spec fn be32(n: u32) -> Seq<u8> {
    seq![((n >> 24u32) & 0xff) as u8, ((n >> 16u32) & 0xff) as u8, ((n >> 8u32) & 0xff) as u8, (n & 0xff) as u8]
}

/// How a v1 connection carries a final action inside the sidecar: as an
/// `Empty` response whose value is the action's big-endian bytes.
pub fn v1_action_reply(action: i32) -> (r: HostMessage)
    ensures
        r matches HostMessage::Response { status, return_value } && status == ProxyStatus::Empty
            && return_value@ == be32(action as u32),
{
    let n = action as u32;
    let v = vec![((n >> 24u32) & 0xff) as u8, ((n >> 16u32) & 0xff) as u8, ((n >> 8u32) & 0xff) as u8, (n & 0xff) as u8];
    assert(v@ =~= be32(n));
    HostMessage::Response { status: ProxyStatus::Empty, return_value: v }
}

/// Reads back a v1 final action: an `Empty` response of exactly four bytes.
/// Any other response is not a final action.
pub fn v1_next_action(status: ProxyStatus, value: &[u8]) -> (r: Option<i32>)
    ensures
        r is Some <==> (status == ProxyStatus::Empty && value@.len() == 4),
        r matches Some(a) ==> be32(a as u32) == value@,
{
    if status != ProxyStatus::Empty || value.len() != 4 {
        return None;
    }
    let b0 = value[0];
    let b1 = value[1];
    let b2 = value[2];
    let b3 = value[3];
    let n: u32 = ((b0 as u32) << 24u32) | ((b1 as u32) << 16u32) | ((b2 as u32) << 8u32) | (b3 as u32);
    assert(((n >> 24u32) & 0xff) as u8 == b0 && ((n >> 16u32) & 0xff) as u8 == b1 && ((n >> 8u32)
        & 0xff) as u8 == b2 && (n & 0xff) as u8 == b3) by (bit_vector)
        requires
            n == ((b0 as u32) << 24u32) | ((b1 as u32) << 16u32) | ((b2 as u32) << 8u32) | (b3 as u32),
    ;
    let a = n as i32;
    assert((a as u32) == n) by (bit_vector)
        requires
            a == n as i32,
    ;
    assert(be32(a as u32) =~= value@);
    Some(a)
}

/// A v1 final action survives its trip through the sidecar's response.
pub proof fn lemma_v1_action_round_trip(action: i32)
    ensures
        ({
            let b = be32(action as u32);
            let n = ((b[0] as u32) << 24u32) | ((b[1] as u32) << 16u32) | ((b[2] as u32) << 8u32) | (b[3] as u32);
            n as i32 == action
        }),
{
    let m = action as u32;
    let b0 = ((m >> 24u32) & 0xff) as u8;
    let b1 = ((m >> 16u32) & 0xff) as u8;
    let b2 = ((m >> 8u32) & 0xff) as u8;
    let b3 = (m & 0xff) as u8;
    assert((((b0 as u32) << 24u32) | ((b1 as u32) << 16u32) | ((b2 as u32) << 8u32) | (b3 as u32))
        == m) by (bit_vector)
        requires
            b0 == ((m >> 24u32) & 0xff) as u8,
            b1 == ((m >> 16u32) & 0xff) as u8,
            b2 == ((m >> 8u32) & 0xff) as u8,
            b3 == (m & 0xff) as u8,
    ;
    assert((m as i32) == action) by (bit_vector)
        requires
            m == action as u32,
    ;
}

fn saturating_times(a: u64, k: u64) -> (r: u64)
    requires
        k > 0,
    ensures
        r == if a as int * k as int <= u64::MAX {
            (a * k) as u64
        } else {
            u64::MAX
        },
{
    if a > u64::MAX / k {
        assert(a as int * k as int > u64::MAX) by (nonlinear_arith)
            requires
                a > u64::MAX / k,
                k > 0,
        ;
        u64::MAX
    } else {
        assert(a as int * k as int <= u64::MAX) by (nonlinear_arith)
            requires
                a <= u64::MAX / k,
                k > 0,
        ;
        a * k
    }
}

/// The first sleep after a failed accept, in milliseconds.
pub const BACKOFF_START_MS: u64 = 100;

/// The accept loop's backoff: the sleep before the next retry, in
/// milliseconds.
pub struct Backoff {
    pub delay_ms: u64,
}

impl Backoff {
    pub fn new() -> (r: Backoff)
        ensures
            r.delay_ms == BACKOFF_START_MS,
    {
        Backoff { delay_ms: BACKOFF_START_MS }
    }

    /// After a failed accept: how long to sleep, never more than `max_ms`.
    /// The sleep doubles from 100 ms with each failure until it reaches
    /// `max_ms`; after that sleep it starts again from 100 ms.
    pub fn after_error(&mut self, max_ms: u64) -> (sleep_ms: u64)
        ensures
            sleep_ms <= max_ms,
            sleep_ms == if old(self).delay_ms <= max_ms {
                old(self).delay_ms
            } else {
                max_ms
            },
            sleep_ms == max_ms ==> final(self).delay_ms == BACKOFF_START_MS,
            sleep_ms < max_ms ==> final(self).delay_ms == if old(self).delay_ms as int * 2
                <= u64::MAX {
                (old(self).delay_ms * 2) as u64
            } else {
                u64::MAX
            },
    {
        let sleep_ms = if self.delay_ms <= max_ms {
            self.delay_ms
        } else {
            max_ms
        };
        if sleep_ms == max_ms {
            self.delay_ms = BACKOFF_START_MS;
        } else {
            self.delay_ms = saturating_times(self.delay_ms, 2);
        }
        sleep_ms
    }

    /// After an accepted connection that was handed on: back to 100 ms.
    /// When the shutdown handle is gone the connection is dropped and the
    /// delay doubles instead.
    pub fn after_accept(&mut self, handed_on: bool)
        ensures
            handed_on ==> final(self).delay_ms == BACKOFF_START_MS,
            !handed_on ==> final(self).delay_ms == if old(self).delay_ms as int * 2 <= u64::MAX {
                (old(self).delay_ms * 2) as u64
            } else {
                u64::MAX
            },
    {
        if handed_on {
            self.delay_ms = BACKOFF_START_MS;
        } else {
            self.delay_ms = saturating_times(self.delay_ms, 2);
        }
    }
}

} // verus!
