//! Per-request host state: the single-assignment slot for a locally produced
//! response and the property resolver with its cache.

use vstd::prelude::*;
use vstd::string::StringSliceAdditionalSpecFns;
use crate::property::{
    append_bytes, bytes_equal, route, shield_host, spec_route, GeoField, PropertyRoute,
    REAL_HOST_HEADER, SCHEME_HEADER, SHIELD_PREFIX,
};
use crate::wire::{HostError, HostMessage, MapType};

verus! {

#[verifier::external_type_specification]
#[verifier::external_body]
#[verifier::reject_recursive_types(T)]
pub struct ExOnceCell<T>(tokio::sync::OnceCell<T>);

#[verifier::external_type_specification]
#[verifier::external_body]
#[verifier::reject_recursive_types(K)]
#[verifier::reject_recursive_types(V)]
#[verifier::reject_recursive_types(S)]
pub struct ExCache<K, V, S>(mini_moka::sync::Cache<K, V, S>);

/// The value a status slot holds: empty, or the one value it was set to.
pub uninterp spec fn slot_contents(c: tokio::sync::OnceCell<i32>) -> Seq<i32>;

/// Relies on `tokio::sync::OnceCell::new`: a new cell holds no value.
#[verifier::external_body]
fn new_slot() -> (r: tokio::sync::OnceCell<i32>)
    ensures
        slot_contents(r) == Seq::<i32>::empty(),
{
    tokio::sync::OnceCell::new()
}

/// Relies on `tokio::sync::OnceCell::set`: an empty cell takes the value; a
/// cell that holds one refuses and keeps it. With the cell borrowed
/// exclusively no other task can be setting it at the same time.
#[verifier::external_body]
fn slot_set(c: &mut tokio::sync::OnceCell<i32>, v: i32) -> (r: bool)
    ensures
        slot_contents(*old(c)).len() == 0 ==> r && slot_contents(*final(c)) == seq![v],
        slot_contents(*old(c)).len() != 0 ==> !r && slot_contents(*final(c)) == slot_contents(
            *old(c),
        ),
{
    c.set(v).is_ok()
}

/// Relies on `tokio::sync::OnceCell::get`: the value the cell holds, if any.
#[verifier::external_body]
fn slot_get(c: &tokio::sync::OnceCell<i32>) -> (r: Option<i32>)
    ensures
        slot_contents(*c).len() == 0 ==> r is None,
        slot_contents(*c).len() != 0 ==> r == Some(slot_contents(*c)[0]),
{
    c.get().copied()
}

/// The cache of property values, keyed by property path.
pub type PropertyCache = mini_moka::sync::Cache<Vec<u8>, Vec<u8>>;

/// The entries a property cache was given and has not dropped by an
/// explicit removal: the latest value inserted under each key.
pub uninterp spec fn cache_entries(c: PropertyCache) -> Map<Seq<u8>, Seq<u8>>;

/// The number of entries a property cache was made to hold at most.
pub uninterp spec fn cache_capacity(c: PropertyCache) -> u64;

/// Relies on `mini_moka::sync::Cache::new`: a new cache, bounded to
/// `capacity` entries, holds nothing.
#[verifier::external_body]
fn new_cache(capacity: u64) -> (r: PropertyCache)
    ensures
        cache_entries(r).is_empty(),
        cache_capacity(r) == capacity,
{
    mini_moka::sync::Cache::new(capacity)
}

/// Relies on `mini_moka::sync::Cache::get`: a clone of the latest value
/// inserted under the key, or nothing when the key was never inserted or
/// its entry was evicted or expired.
#[verifier::external_body]
fn cache_get(c: &PropertyCache, key: &Vec<u8>) -> (r: Option<Vec<u8>>)
    ensures
        r matches Some(v) ==> cache_entries(*c).contains_key(key@) && v@ == cache_entries(*c)[key@],
{
    c.get(key)
}

/// Relies on `mini_moka::sync::Cache::insert`: the value becomes the latest
/// one under its key; the cache keeps the bound it was made with.
#[verifier::external_body]
fn cache_insert(c: &mut PropertyCache, key: Vec<u8>, value: Vec<u8>)
    ensures
        cache_entries(*final(c)) == cache_entries(*old(c)).insert(key@, value@),
        cache_capacity(*final(c)) == cache_capacity(*old(c)),
{
    c.insert(key, value)
}


/// Capacity of the per-request property cache.
pub const PROPERTY_CACHE_CAPACITY: u64 = 32;

/// The node role whose hosts carry the shield prefix.
pub const EDGE_SHIELD_ROLE: &'static str = "edge_shield";

/// Where the host property's resolution stands after the real-host header
/// came back.
#[derive(Debug)]
pub enum HostStep {
    /// Resolved, or failed.
    Done(Result<Vec<u8>, HostError>),
    /// The header gave nothing: ask the proxy for the property.
    AskProxy,
}

/// How a property resolution begins.
#[derive(Debug)]
pub enum PropertyStart {
    /// Answered from the cache.
    Cached(Vec<u8>),
    /// Ask the geo-IP service about the client's address, which is the
    /// `request.x_real_ip` property.
    Geo(GeoField),
    /// Resolve `request.scheme`, `request.host` and `request.path`, in that
    /// order, stopping at the first error, and compose them.
    Uri,
    /// Send this call; its answer is the scheme.
    Scheme(HostMessage),
    /// Send this call; hand its answer to `complete_host_header`.
    Host(HostMessage),
    /// Send this call; hand its answer to `complete_from_proxy`.
    Forward(HostMessage),
}

/// The call for one request header.
fn header_query(name: &str) -> (r: HostMessage)
    ensures
        r matches HostMessage::GetMapValue { map_type, key } && map_type
            == MapType::HttpRequestHeaders && key@ == name.spec_bytes(),
{
    let mut key: Vec<u8> = Vec::new();
    append_bytes(&mut key, name.as_bytes());
    HostMessage::GetMapValue { map_type: MapType::HttpRequestHeaders, key }
}

/// The host state of one request, owned by one module instance for one
/// handler call.
pub struct Proxy {
    status_code: tokio::sync::OnceCell<i32>,
    property_cache: PropertyCache,
    edge_shield: bool,
    resolved: Ghost<Seq<(Seq<u8>, Seq<u8>)>>,
}

impl Proxy {
    /// The property cache is bounded to 32 entries, every cached property
    /// value is the value of an earlier successful resolution of its path,
    /// and the status slot holds at most one value.
    pub closed spec fn wf(&self) -> bool {
        &&& cache_capacity(self.property_cache) == PROPERTY_CACHE_CAPACITY
        &&& slot_contents(self.status_code).len() <= 1
        &&& forall|k: Seq<u8>|
            #[trigger] cache_entries(self.property_cache).contains_key(k) ==> exists|i: int|
                0 <= i < self.resolved@.len() && self.resolved@[i] == (
                    k,
                    cache_entries(self.property_cache)[k],
                )
    }

    /// The status of the locally produced response, once one was sent.
    pub closed spec fn local_status(&self) -> Option<i32> {
        if slot_contents(self.status_code).len() == 0 {
            None
        } else {
            Some(slot_contents(self.status_code)[0])
        }
    }

    /// The successful resolutions so far that the cache took in, as
    /// `(path, value)` pairs, oldest first.
    pub closed spec fn resolutions(&self) -> Seq<(Seq<u8>, Seq<u8>)> {
        self.resolved@
    }

    /// The most entries the property cache holds.
    pub closed spec fn property_capacity(&self) -> u64 {
        cache_capacity(self.property_cache)
    }

    /// Whether the node's role is `edge_shield`.
    pub closed spec fn spec_edge_shield(&self) -> bool {
        self.edge_shield
    }

    /// Fresh state for one request on a node with the given role.
    pub fn new(role: Option<&str>) -> (r: Proxy)
        ensures
            r.wf(),
            r.property_capacity() == PROPERTY_CACHE_CAPACITY,
            r.local_status() is None,
            r.resolutions().len() == 0,
            r.spec_edge_shield() == (role matches Some(s) && s.spec_bytes()
                == EDGE_SHIELD_ROLE.spec_bytes()),
    {
        let edge_shield = match role {
            Some(s) => bytes_equal(s.as_bytes(), EDGE_SHIELD_ROLE.as_bytes()),
            None => false,
        };
        Proxy {
            status_code: new_slot(),
            property_cache: new_cache(PROPERTY_CACHE_CAPACITY),
            edge_shield,
            resolved: Ghost(Seq::empty()),
        }
    }

    /// Records the status of a locally produced response. The slot takes one
    /// value per request: a second call fails with `InternalFailure` and
    /// keeps the first status.
    pub fn send_local_response(&mut self, status_code: i32) -> (r: Result<(), HostError>)
        requires
            old(self).wf(),
        ensures
            final(self).wf(),
            final(self).resolutions() == old(self).resolutions(),
            final(self).spec_edge_shield() == old(self).spec_edge_shield(),
            old(self).local_status() is None ==> r is Ok && final(self).local_status() == Some(
                status_code,
            ),
            old(self).local_status() is Some ==> r == Err::<(), HostError>(
                HostError::InternalFailure,
            ) && final(self).local_status() == old(self).local_status(),
    {
        let done = slot_set(&mut self.status_code, status_code);
        assert(self.property_cache == old(self).property_cache);
        assert(self.resolved == old(self).resolved);
        if done {
            Ok(())
        } else {
            Err(HostError::InternalFailure)
        }
    }

    /// The status of the locally produced response, if one was sent.
    pub fn status_code(&self) -> (r: Option<i32>)
        requires
            self.wf(),
        ensures
            r == self.local_status(),
    {
        slot_get(&self.status_code)
    }

    /// A cached value of the property at `path`. What it returns is the
    /// value of an earlier successful resolution of that path.
    pub fn cached_property(&self, path: &Vec<u8>) -> (r: Option<Vec<u8>>)
        requires
            self.wf(),
        ensures
            r matches Some(v) ==> exists|i: int|
                0 <= i < self.resolutions().len() && self.resolutions()[i] == (path@, v@),
    {
        let r = cache_get(&self.property_cache, path);
        proof {
            if r is Some {
                let v = r->Some_0;
                let entries = cache_entries(self.property_cache);
                assert(entries.contains_key(path@));
                let i = choose|i: int|
                    0 <= i < self.resolved@.len() && self.resolved@[i] == (path@, entries[path@]);
                assert(self.resolutions()[i] == (path@, v@));
            }
        }
        r
    }

    /// Begins resolving the property at `path`: a cached value first, then
    /// by the path's route.
    pub fn begin_property(&self, path: &Vec<u8>) -> (r: PropertyStart)
        requires
            self.wf(),
        ensures
            r matches PropertyStart::Cached(v) ==> exists|i: int|
                0 <= i < self.resolutions().len() && self.resolutions()[i] == (path@, v@),
            !(r is Cached) ==> {
                &&& spec_route(path@) matches PropertyRoute::Geo(f) ==> (r matches PropertyStart::Geo(g) && g == f)
                &&& spec_route(path@) is Uri ==> r is Uri
                &&& spec_route(path@) is Scheme ==> (r matches PropertyStart::Scheme(HostMessage::GetMapValue { map_type, key }) && map_type == MapType::HttpRequestHeaders && key@ == SCHEME_HEADER.spec_bytes())
                &&& spec_route(path@) is Host ==> (r matches PropertyStart::Host(HostMessage::GetMapValue { map_type, key }) && map_type == MapType::HttpRequestHeaders && key@ == REAL_HOST_HEADER.spec_bytes())
                &&& spec_route(path@) is Forward ==> (r matches PropertyStart::Forward(HostMessage::GetProperty { path: p }) && p@ == path@)
            },
    {
        match self.cached_property(path) {
            Some(v) => PropertyStart::Cached(v),
            None => match route(path.as_slice()) {
                PropertyRoute::Geo(f) => PropertyStart::Geo(f),
                PropertyRoute::Uri => PropertyStart::Uri,
                PropertyRoute::Scheme => PropertyStart::Scheme(header_query(SCHEME_HEADER)),
                PropertyRoute::Host => PropertyStart::Host(header_query(REAL_HOST_HEADER)),
                PropertyRoute::Forward => PropertyStart::Forward(
                    HostMessage::GetProperty { path: path.clone() },
                ),
            },
        }
    }

    fn record(&mut self, path: Vec<u8>, value: Vec<u8>)
        requires
            old(self).wf(),
        ensures
            final(self).wf(),
            final(self).resolutions() == old(self).resolutions().push((path@, value@)),
            final(self).local_status() == old(self).local_status(),
            final(self).spec_edge_shield() == old(self).spec_edge_shield(),
    {
        let ghost p = path@;
        let ghost v = value@;
        let ghost before = self.resolved@;
        self.resolved = Ghost(self.resolved@.push((p, v)));
        cache_insert(&mut self.property_cache, path, value);
        proof {
            let entries = cache_entries(self.property_cache);
            assert forall|k: Seq<u8>| #[trigger] entries.contains_key(k) implies exists|i: int|
                0 <= i < self.resolved@.len() && self.resolved@[i] == (k, entries[k]) by {
                if k == p {
                    assert(self.resolved@[before.len() as int] == (k, entries[k]));
                } else {
                    assert(cache_entries(old(self).property_cache).contains_key(k));
                    let i = choose|i: int|
                        0 <= i < before.len() && before[i] == (
                            k,
                            cache_entries(old(self).property_cache)[k],
                        );
                    assert(self.resolved@[i] == before[i]);
                }
            }
        }
    }

    /// Completes a resolution that the proxy answered: a value is cached and
    /// returned, an error is returned and nothing is cached.
    pub fn complete_from_proxy(&mut self, path: Vec<u8>, reply: Result<Vec<u8>, HostError>) -> (r:
        Result<Vec<u8>, HostError>)
        requires
            old(self).wf(),
        ensures
            final(self).wf(),
            r == reply,
            final(self).local_status() == old(self).local_status(),
            final(self).spec_edge_shield() == old(self).spec_edge_shield(),
            r matches Ok(v) ==> final(self).resolutions() == old(self).resolutions().push(
                (path@, v@),
            ),
            r is Err ==> final(self).resolutions() == old(self).resolutions(),
    {
        match reply {
            Ok(value) => {
                self.record(path, value.clone());
                Ok(value)
            },
            Err(e) => Err(e),
        }
    }

    /// Continues the host property's resolution with the real-host header's
    /// answer: an error ends it; a value, prefixed on an edge-shield node,
    /// resolves it when not empty and is cached; an empty value leaves it to
    /// the proxy.
    pub fn complete_host_header(&mut self, path: Vec<u8>, header: Result<Vec<u8>, HostError>) -> (r:
        HostStep)
        requires
            old(self).wf(),
        ensures
            final(self).wf(),
            final(self).local_status() == old(self).local_status(),
            final(self).spec_edge_shield() == old(self).spec_edge_shield(),
            header matches Err(e) ==> (r matches HostStep::Done(Err(e2)) && e2 == e
                && final(self).resolutions() == old(self).resolutions()),
            header matches Ok(h) ==> {
                let host = if old(self).spec_edge_shield() {
                    SHIELD_PREFIX.spec_bytes() + h@
                } else {
                    h@
                };
                &&& host.len() == 0 ==> r is AskProxy && final(self).resolutions()
                    == old(self).resolutions()
                &&& host.len() != 0 ==> (r matches HostStep::Done(Ok(v)) && v@ == host
                    && final(self).resolutions() == old(self).resolutions().push((path@, host)))
            },
    {
        match header {
            Err(e) => HostStep::Done(Err(e)),
            Ok(h) => {
                let host = shield_host(&h, self.edge_shield);
                if host.len() == 0 {
                    HostStep::AskProxy
                } else {
                    self.record(path, host.clone());
                    HostStep::Done(Ok(host))
                }
            },
        }
    }
}

} // verus!
