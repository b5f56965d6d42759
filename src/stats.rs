//! Which stats row a handler reports to. Streaming body handlers of one
//! request share a row, kept by trace id while the body streams; every other
//! handler gets a row of its own.

use vstd::prelude::*;
use crate::wire::Handler;

verus! {

/// Rows of streaming requests, keyed by trace id, by row number.
pub type StatsCache = mini_moka::sync::Cache<Vec<u8>, u64>;

/// The rows a stats cache was given and has not had invalidated: the latest
/// row inserted under each trace id.
pub uninterp spec fn stats_entries(c: StatsCache) -> Map<Seq<u8>, u64>;

/// Relies on `mini_moka::sync::CacheBuilder::time_to_idle` and `build`: a
/// new cache whose entries expire after `idle_secs` without access holds
/// nothing. The builder panics beyond a thousand years.
#[verifier::external_body]
fn new_stats_cache(idle_secs: u64) -> (r: StatsCache)
    requires
        idle_secs <= 31_536_000_000,
    ensures
        stats_entries(r).is_empty(),
{
    mini_moka::sync::Cache::builder().time_to_idle(std::time::Duration::from_secs(idle_secs)).build()
}

/// Relies on `mini_moka::sync::Cache::get`: a clone of the latest row
/// inserted under the key, or nothing when there is none or it expired.
#[verifier::external_body]
fn stats_get(c: &StatsCache, key: &Vec<u8>) -> (r: Option<u64>)
    ensures
        r matches Some(v) ==> stats_entries(*c).contains_key(key@) && v == stats_entries(*c)[key@],
{
    c.get(key)
}

/// Relies on `mini_moka::sync::Cache::insert`: the row becomes the latest
/// one under its key.
#[verifier::external_body]
fn stats_insert(c: &mut StatsCache, key: Vec<u8>, row: u64)
    ensures
        stats_entries(*final(c)) == stats_entries(*old(c)).insert(key@, row),
{
    c.insert(key, row)
}

/// Relies on `mini_moka::sync::Cache::invalidate`: the key's entry is gone.
#[verifier::external_body]
fn stats_invalidate(c: &mut StatsCache, key: &Vec<u8>)
    ensures
        stats_entries(*final(c)) == stats_entries(*old(c)).remove(key@),
{
    c.invalidate(key)
}

/// Seconds a streaming request's row stays cached without a new chunk.
pub const STATS_IDLE_SECS: u64 = 1;

/// The stats row a handler reports to.
#[derive(Clone, Copy, Debug, PartialEq, Eq, Structural)]
pub struct RowChoice {
    /// The row's number.
    pub row: u64,
    /// Whether the row is new and has to be created.
    pub fresh: bool,
}

/// What a body chunk does with the row lookup's answer.
#[derive(Clone, Copy, Debug, PartialEq, Eq, Structural)]
pub enum RowPlan {
    /// Report to the cached row; `drop` it from the cache after the last
    /// chunk.
    Reuse { row: u64, drop: bool },
    /// Report to a new row; `keep` it cached unless this is the last chunk.
    Fresh { keep: bool },
}

/// Decides a body chunk's row from the cache's answer for its trace id: a
/// cached row is reused, and dropped on the last chunk; without one a new
/// row is made, and cached unless this is the last chunk.
pub fn row_plan(end_of_stream: bool, cached: Option<u64>) -> (r: RowPlan)
    ensures
        cached matches Some(row) ==> r == (RowPlan::Reuse { row, drop: end_of_stream }),
        cached is None ==> r == (RowPlan::Fresh { keep: !end_of_stream }),
{
    match cached {
        Some(row) => RowPlan::Reuse { row, drop: end_of_stream },
        None => RowPlan::Fresh { keep: !end_of_stream },
    }
}

/// Allocates stats rows and keeps those of streaming requests.
pub struct StatsRows {
    cache: StatsCache,
    next_row: u64,
}

pub open spec fn spec_end_of_stream(h: Handler) -> Option<bool> {
    match h {
        Handler::OnRequestBody { end_of_stream, .. } => Some(end_of_stream),
        Handler::OnResponseBody { end_of_stream, .. } => Some(end_of_stream),
        _ => None,
    }
}

impl StatsRows {
    /// Every cached row was allocated before the next one.
    pub closed spec fn wf(&self) -> bool {
        forall|k: Seq<u8>| #[trigger]
            stats_entries(self.cache).contains_key(k) ==> stats_entries(self.cache)[k]
                < self.next_row
    }

    /// The cached rows, by trace id.
    pub closed spec fn kept(&self) -> Map<Seq<u8>, u64> {
        stats_entries(self.cache)
    }

    /// The number the next new row gets; every row handed out so far has a
    /// smaller one.
    pub closed spec fn next(&self) -> u64 {
        self.next_row
    }

    pub fn new() -> (r: StatsRows)
        ensures
            r.wf(),
            r.kept().is_empty(),
            r.next() == 0,
    {
        StatsRows { cache: new_stats_cache(STATS_IDLE_SECS), next_row: 0 }
    }

    fn allocate(&mut self) -> (r: u64)
        requires
            old(self).wf(),
            old(self).next() < u64::MAX,
        ensures
            final(self).wf(),
            r == old(self).next(),
            final(self).next() == old(self).next() + 1,
            final(self).kept() == old(self).kept(),
    {
        let r = self.next_row;
        self.next_row = self.next_row + 1;
        r
    }

    /// The row for `handler` of the request traced by `trace`. A body chunk
    /// that is not the last reuses the request's cached row, or caches a new
    /// one; the last chunk reuses the cached row and drops it from the cache,
    /// so that a later chunk with the same trace id gets a new row. Other
    /// handlers always get a new row.
    pub fn row_for(&mut self, handler: &Handler, trace: &Vec<u8>) -> (r: RowChoice)
        requires
            old(self).wf(),
            old(self).next() < u64::MAX,
        ensures
            final(self).wf(),
            r.fresh ==> r.row == old(self).next() && final(self).next() == old(self).next() + 1,
            !r.fresh ==> old(self).kept().contains_key(trace@) && r.row == old(self).kept()[trace@]
                && final(self).next() == old(self).next(),
            spec_end_of_stream(*handler) is None ==> r.fresh && final(self).kept() == old(
                self,
            ).kept(),
            spec_end_of_stream(*handler) == Some(false) ==> final(self).kept() == old(
                self,
            ).kept().insert(trace@, r.row),
            spec_end_of_stream(*handler) == Some(true) ==> final(self).kept() == old(
                self,
            ).kept().remove(trace@),
    {
        let end_of_stream = match handler {
            Handler::OnRequestBody { end_of_stream, .. } => *end_of_stream,
            Handler::OnResponseBody { end_of_stream, .. } => *end_of_stream,
            _ => {
                let row = self.allocate();
                return RowChoice { row, fresh: true };
            },
        };
        let cached = stats_get(&self.cache, trace);
        match row_plan(end_of_stream, cached) {
            RowPlan::Reuse { row, drop } => {
                if drop {
                    stats_invalidate(&mut self.cache, trace);
                } else {
                    proof {
                        assert(stats_entries(self.cache).insert(trace@, row) =~= stats_entries(
                            self.cache,
                        ));
                    }
                }
                RowChoice { row, fresh: false }
            },
            RowPlan::Fresh { keep } => {
                let row = self.allocate();
                if keep {
                    stats_insert(&mut self.cache, trace.clone(), row);
                } else {
                    stats_invalidate(&mut self.cache, trace);
                }
                RowChoice { row, fresh: true }
            },
        }
    }
}

} // verus!
