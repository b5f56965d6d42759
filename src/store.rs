//! The host functions that the sidecar answers itself: the per-application
//! dictionary, and the outcomes of the secret and key-value backends.

use vstd::prelude::*;
use crate::additional::{first_value, pairs_view};
use crate::list::{fits_list, serialize_list, serialized, slices_view, vecs_view};
use crate::property::{append_bytes, is_utf8, utf8_valid};
use crate::wire::ProxyStatus;

verus! {

/// The application's dictionary: a snapshot of its environment.
pub struct Dictionary {
    entries: Vec<(Vec<u8>, Vec<u8>)>,
}

impl Dictionary {
    pub closed spec fn entries(&self) -> Seq<(Seq<u8>, Seq<u8>)> {
        pairs_view(self.entries@)
    }

    /// The dictionary of an application's environment variables.
    pub fn from_env(env: Vec<(Vec<u8>, Vec<u8>)>) -> (r: Dictionary)
        ensures
            r.entries() == pairs_view(env@),
    {
        Dictionary { entries: env }
    }

    /// Looks a key up: the key must be UTF-8 (`BadArgument`), and a key that
    /// is not there is `NotFound`.
    pub fn get(&self, key: &[u8]) -> (r: Result<Vec<u8>, ProxyStatus>)
        ensures
            !is_utf8(key@) ==> r == Err::<Vec<u8>, ProxyStatus>(ProxyStatus::BadArgument),
            is_utf8(key@) && first_value(self.entries(), key@) is None ==> r == Err::<
                Vec<u8>,
                ProxyStatus,
            >(ProxyStatus::NotFound),
            is_utf8(key@) && first_value(self.entries(), key@) is Some ==> (r matches Ok(v) && Some(
                v@,
            ) == first_value(self.entries(), key@)),
    {
        if !utf8_valid(key) {
            return Err(ProxyStatus::BadArgument);
        }
        let ghost p = pairs_view(self.entries@);
        assert(p.subrange(0, p.len() as int) =~= p);
        let mut i: usize = 0;
        while i < self.entries.len()
            invariant
                p == pairs_view(self.entries@),
                is_utf8(key@),
                0 <= i <= self.entries@.len(),
                first_value(p, key@) == first_value(p.subrange(i as int, p.len() as int), key@),
            decreases self.entries@.len() - i,
        {
            let ghost rest = p.subrange(i as int, p.len() as int);
            assert(rest.drop_first() =~= p.subrange(i + 1, p.len() as int));
            if crate::property::bytes_equal(self.entries[i].0.as_slice(), key) {
                return Ok(self.entries[i].1.clone());
            }
            i = i + 1;
        }
        Err(ProxyStatus::NotFound)
    }
}

/// What a secret or key-value backend answered.
#[derive(Debug)]
pub enum Lookup {
    Found(Vec<u8>),
    Missing,
    Failed,
}

/// The result of a secret lookup: a missing secret is `NotFound`, a failed
/// backend `InternalFailure`.
pub fn secret_result(reply: Lookup) -> (r: Result<Vec<u8>, ProxyStatus>)
    ensures
        reply matches Lookup::Found(v) ==> (r matches Ok(x) && x@ == v@),
        reply is Missing ==> r == Err::<Vec<u8>, ProxyStatus>(ProxyStatus::NotFound),
        reply is Failed ==> r == Err::<Vec<u8>, ProxyStatus>(ProxyStatus::InternalFailure),
{
    match reply {
        Lookup::Found(v) => Ok(v),
        Lookup::Missing => Err(ProxyStatus::NotFound),
        Lookup::Failed => Err(ProxyStatus::InternalFailure),
    }
}

/// The result of a key-value read: a missing key succeeds with no value, a
/// failed backend is `InternalFailure`.
pub fn kv_get_result(reply: Lookup) -> (r: Result<Option<Vec<u8>>, ProxyStatus>)
    ensures
        reply matches Lookup::Found(v) ==> (r matches Ok(Some(x)) && x@ == v@),
        reply is Missing ==> (r matches Ok(None)),
        reply is Failed ==> r == Err::<Option<Vec<u8>>, ProxyStatus>(ProxyStatus::InternalFailure),
{
    match reply {
        Lookup::Found(v) => Ok(Some(v)),
        Lookup::Missing => Ok(None),
        Lookup::Failed => Err(ProxyStatus::InternalFailure),
    }
}

/// Why a key-value store could not be opened.
#[derive(Clone, Copy, Debug, PartialEq, Eq, Structural)]
pub enum OpenError {
    NoSuchStore,
    AccessDenied,
    Other,
}

/// The status for a store that could not be opened.
pub fn open_error_status(e: OpenError) -> (r: ProxyStatus)
    ensures
        e == OpenError::NoSuchStore ==> r == ProxyStatus::NotFound,
        e == OpenError::AccessDenied ==> r == ProxyStatus::BadArgument,
        e == OpenError::Other ==> r == ProxyStatus::InternalFailure,
{
    match e {
        OpenError::NoSuchStore => ProxyStatus::NotFound,
        OpenError::AccessDenied => ProxyStatus::BadArgument,
        OpenError::Other => ProxyStatus::InternalFailure,
    }
}

/// The membership flag written for a bloom-filter check.
pub fn membership_flag(present: bool) -> (r: u32)
    ensures
        r == (if present {
            1u32
        } else {
            0u32
        }),
{
    if present {
        1
    } else {
        0
    }
}

/// The elements of a sorted-set answer: each member's value followed by the
/// eight little-endian bytes of its score.
pub open spec fn scored(items: Seq<(Seq<u8>, Seq<u8>)>) -> Seq<Seq<u8>> {
    items.map_values(|i: (Seq<u8>, Seq<u8>)| i.0 + i.1)
}

/// Serializes a sorted-set answer; `None` when it would pass `i32::MAX`
/// bytes.
pub fn serialize_scored(items: Vec<(Vec<u8>, [u8; 8])>) -> (r: Option<Vec<u8>>)
    ensures
        r is Some <==> fits_list(scored(items@.map_values(|i: (Vec<u8>, [u8; 8])| (i.0@, i.1@)))),
        r matches Some(b) ==> b@ == serialized(
            scored(items@.map_values(|i: (Vec<u8>, [u8; 8])| (i.0@, i.1@))),
        ),
{
    let ghost want = scored(items@.map_values(|i: (Vec<u8>, [u8; 8])| (i.0@, i.1@)));
    let mut elements: Vec<Vec<u8>> = Vec::new();
    let mut i: usize = 0;
    while i < items.len()
        invariant
            want == scored(items@.map_values(|i: (Vec<u8>, [u8; 8])| (i.0@, i.1@))),
            0 <= i <= items@.len(),
            vecs_view(elements@) == want.subrange(0, i as int),
        decreases items@.len() - i,
    {
        let mut e: Vec<u8> = Vec::new();
        append_bytes(&mut e, items[i].0.as_slice());
        append_bytes(&mut e, &items[i].1);
        let ghost before = elements@;
        assert(e@ == want[i as int]);
        elements.push(e);
        assert(vecs_view(elements@) =~= vecs_view(before).push(want[i as int]));
        assert(vecs_view(elements@) =~= want.subrange(0, i + 1));
        i = i + 1;
    }
    assert(want.subrange(0, want.len() as int) =~= want);
    let mut slices: Vec<&[u8]> = Vec::new();
    let mut j: usize = 0;
    while j < elements.len()
        invariant
            0 <= j <= elements@.len(),
            slices_view(slices@) == vecs_view(elements@).subrange(0, j as int),
        decreases elements@.len() - j,
    {
        let ghost before = slices@;
        let sl = elements[j].as_slice();
        assert(sl@ == vecs_view(elements@)[j as int]);
        slices.push(sl);
        assert(slices_view(slices@) =~= slices_view(before).push(sl@));
        assert(slices_view(slices@) =~= vecs_view(elements@).subrange(0, j + 1));
        j = j + 1;
    }
    assert(vecs_view(elements@).subrange(0, elements@.len() as int) =~= vecs_view(elements@));
    if !crate::list::list_fits(&slices) {
        return None;
    }
    Some(serialize_list(slices))
}

} // verus!
