//! The request data a proxy may attach to an entrypoint: the request's
//! headers and some properties. Reads of them are answered here without a
//! round trip, and the module's header edits are applied here too, so that
//! later reads see them.

use vstd::prelude::*;
use crate::list::{
    deserialize_list, element_area, fits_list, le32, lemma_element_area_len,
    lemma_le32_round_trip, lemma_size_table, lemma_total_len_nonneg, list_fits, push_le32,
    read_le32, serialize_counted, serialized, size_table, slices_view, vecs_view,
};
use crate::wire::{HostError, HostMessage, MapType, Version};

verus! {

/// A header or property list, as byte-string pairs.
pub open spec fn pairs_view(v: Seq<(Vec<u8>, Vec<u8>)>) -> Seq<(Seq<u8>, Seq<u8>)> {
    v.map_values(|p: (Vec<u8>, Vec<u8>)| (p.0@, p.1@))
}

/// The pairs' names and values in order: name, value, name, value, ...
pub open spec fn flatten(p: Seq<(Seq<u8>, Seq<u8>)>) -> Seq<Seq<u8>>
    decreases p.len(),
{
    if p.len() == 0 {
        seq![]
    } else {
        flatten(p.drop_last()) + seq![p.last().0, p.last().1]
    }
}

/// The serialized header map: the pair count, the size of each name and
/// value, then each name and value followed by a zero byte.
pub open spec fn map_pairs_bytes(p: Seq<(Seq<u8>, Seq<u8>)>) -> Seq<u8> {
    le32(p.len() as u32) + size_table(flatten(p)) + element_area(flatten(p))
}

/// The value of the first pair named `k`.
pub open spec fn first_value(p: Seq<(Seq<u8>, Seq<u8>)>, k: Seq<u8>) -> Option<Seq<u8>>
    decreases p.len(),
{
    if p.len() == 0 {
        None
    } else if p[0].0 == k {
        Some(p[0].1)
    } else {
        first_value(p.drop_first(), k)
    }
}

/// The pairs not named `k`, in order.
pub open spec fn without(p: Seq<(Seq<u8>, Seq<u8>)>, k: Seq<u8>) -> Seq<(Seq<u8>, Seq<u8>)>
    decreases p.len(),
{
    if p.len() == 0 {
        seq![]
    } else if p.last().0 == k {
        without(p.drop_last(), k)
    } else {
        without(p.drop_last(), k).push(p.last())
    }
}

/// Serializes a header map; `None` when it would pass `i32::MAX` bytes.
pub fn serialize_map_pairs(pairs: &Vec<(Vec<u8>, Vec<u8>)>) -> (r: Option<Vec<u8>>)
    ensures
        r is Some <==> fits_list(flatten(pairs_view(pairs@))),
        r matches Some(b) ==> b@ == map_pairs_bytes(pairs_view(pairs@)),
{
    let ghost p = pairs_view(pairs@);
    let mut flat: Vec<&[u8]> = Vec::new();
    let mut i: usize = 0;
    while i < pairs.len()
        invariant
            p == pairs_view(pairs@),
            0 <= i <= pairs@.len(),
            slices_view(flat@) == flatten(p.subrange(0, i as int)),
        decreases pairs@.len() - i,
    {
        assert(p.subrange(0, i + 1).drop_last() =~= p.subrange(0, i as int));
        flat.push(pairs[i].0.as_slice());
        flat.push(pairs[i].1.as_slice());
        assert(slices_view(flat@) =~= flatten(p.subrange(0, i + 1)));
        i = i + 1;
    }
    assert(p.subrange(0, p.len() as int) =~= p);
    if !list_fits(&flat) {
        return None;
    }
    Some(serialize_counted(pairs.len() as u32, flat))
}

proof fn lemma_flatten_len(p: Seq<(Seq<u8>, Seq<u8>)>)
    ensures
        flatten(p).len() == 2 * p.len(),
    decreases p.len(),
{
    if p.len() > 0 {
        lemma_flatten_len(p.drop_last());
    }
}

proof fn lemma_serialized_len(l: Seq<Seq<u8>>)
    ensures
        serialized(l).len() >= 4 + 5 * l.len(),
{
    lemma_size_table(l);
    lemma_element_area_len(l);
    lemma_total_len_nonneg(l);
}

/// Two pair lists with the same flattening are equal.
proof fn lemma_flatten_injective(a: Seq<(Seq<u8>, Seq<u8>)>, b: Seq<(Seq<u8>, Seq<u8>)>)
    requires
        flatten(a) == flatten(b),
    ensures
        a == b,
    decreases a.len(),
{
    lemma_flatten_len(a);
    lemma_flatten_len(b);
    if a.len() > 0 {
        let fa = flatten(a);
        assert(fa[fa.len() - 2] == a.last().0);
        assert(fa[fa.len() - 1] == a.last().1);
        assert(fa[fa.len() - 2] == b.last().0);
        assert(fa[fa.len() - 1] == b.last().1);
        assert(flatten(a.drop_last()) =~= fa.subrange(0, fa.len() - 2));
        assert(flatten(b.drop_last()) =~= fa.subrange(0, fa.len() - 2));
        lemma_flatten_injective(a.drop_last(), b.drop_last());
        assert(a.last() == b.last());
        assert(a =~= a.drop_last().push(a.last()));
        assert(b =~= b.drop_last().push(b.last()));
    } else {
        assert(a =~= b);
    }
}

/// Reads a serialized header map back; `None` when the bytes are not the
/// serialized form of any map.
pub fn deserialize_map_pairs(b: &[u8]) -> (r: Option<Vec<(Vec<u8>, Vec<u8>)>>)
    ensures
        r matches Some(p) ==> map_pairs_bytes(pairs_view(p@)) == b@ && fits_list(
            flatten(pairs_view(p@)),
        ),
        forall|p: Seq<(Seq<u8>, Seq<u8>)>|
            fits_list(flatten(p)) && #[trigger] map_pairs_bytes(p) == b@ ==> (r matches Some(x)
                && pairs_view(x@) == p),
{
    if b.len() < 4 || b.len() > i32::MAX as usize {
        proof {
            assert forall|p: Seq<(Seq<u8>, Seq<u8>)>| fits_list(flatten(p)) && #[trigger] map_pairs_bytes(p) == b@ implies false by {
                lemma_flatten_len(p);
                lemma_serialized_len(flatten(p));
                lemma_total_len_nonneg(flatten(p));
                lemma_size_table(flatten(p));
                lemma_element_area_len(flatten(p));
            }
        }
        return None;
    }
    let n = read_le32(b, 0);
    if n > 0x1000_0000 {
        proof {
            assert forall|p: Seq<(Seq<u8>, Seq<u8>)>| fits_list(flatten(p)) && #[trigger] map_pairs_bytes(p) == b@ implies false by {
                lemma_flatten_len(p);
                lemma_total_len_nonneg(flatten(p));
                lemma_le32_round_trip(p.len() as u32);
                assert(b@[0] == le32(p.len() as u32)[0]);
                assert(b@[1] == le32(p.len() as u32)[1]);
                assert(b@[2] == le32(p.len() as u32)[2]);
                assert(b@[3] == le32(p.len() as u32)[3]);
            }
        }
        return None;
    }
    let n2: u32 = 2 * n;
    let mut b2: Vec<u8> = Vec::new();
    push_le32(&mut b2, n2);
    crate::property::append_bytes(&mut b2, vstd::slice::slice_subrange(b, 4, b.len()));
    let ghost tail = b@.subrange(4, b@.len() as int);
    assert(b2@ == le32(n2) + tail);
    proof {
        assert forall|p: Seq<(Seq<u8>, Seq<u8>)>| fits_list(flatten(p)) && #[trigger] map_pairs_bytes(p) == b@ implies
            serialized(flatten(p)) == b2@ && p.len() == n by {
            lemma_flatten_len(p);
            lemma_total_len_nonneg(flatten(p));
            lemma_le32_round_trip(p.len() as u32);
            assert(b@[0] == le32(p.len() as u32)[0]);
            assert(b@[1] == le32(p.len() as u32)[1]);
            assert(b@[2] == le32(p.len() as u32)[2]);
            assert(b@[3] == le32(p.len() as u32)[3]);
            assert(p.len() == n);
            assert(tail =~= size_table(flatten(p)) + element_area(flatten(p)));
            assert(serialized(flatten(p)) =~= b2@);
        }
    }
    let items = match deserialize_list(b2.as_slice()) {
        Some(items) => items,
        None => {
            return None;
        },
    };
    let ghost xv = vecs_view(items@);
    proof {
        lemma_serialized_len(xv);
        lemma_le32_round_trip((xv.len() as u32));
        lemma_le32_round_trip(n2);
        assert(serialized(xv).subrange(0, 4) =~= le32(xv.len() as u32));
        assert(b2@.subrange(0, 4) =~= le32(n2));
        assert(le32(xv.len() as u32)[0] == le32(n2)[0]);
        assert(le32(xv.len() as u32)[1] == le32(n2)[1]);
        assert(le32(xv.len() as u32)[2] == le32(n2)[2]);
        assert(le32(xv.len() as u32)[3] == le32(n2)[3]);
        assert(xv.len() == n2);
    }
    let mut pairs: Vec<(Vec<u8>, Vec<u8>)> = Vec::new();
    let mut i: usize = 0;
    while i < n as usize
        invariant
            xv == vecs_view(items@),
            xv.len() == 2 * n,
            n <= 0x1000_0000,
            0 <= i <= n,
            pairs@.len() == i,
            flatten(pairs_view(pairs@)) == xv.subrange(0, 2 * i as int),
        decreases n - i,
    {
        let name = items[2 * i].clone();
        let value = items[2 * i + 1].clone();
        let ghost before = pairs@;
        pairs.push((name, value));
        proof {
            let pv = pairs_view(pairs@);
            assert(pv.drop_last() =~= pairs_view(before));
            assert(pv.last() == (xv[2 * i as int], xv[2 * i + 1]));
            assert(xv.subrange(0, 2 * i + 2) =~= xv.subrange(0, 2 * i as int) + seq![
                xv[2 * i as int],
                xv[2 * i + 1],
            ]);
        }
        i = i + 1;
    }
    proof {
        assert(xv.subrange(0, 2 * n as int) =~= xv);
        let pv = pairs_view(pairs@);
        assert(map_pairs_bytes(pv) =~= b@) by {
            assert(serialized(xv) == b2@);
            assert(b@ =~= b@.subrange(0, 4) + tail);
            crate::list::lemma_le32_of_bytes(b@[0], b@[1], b@[2], b@[3]);
            assert(b@.subrange(0, 4) =~= le32(n));
            assert(serialized(xv) =~= le32(n2) + size_table(xv) + element_area(xv));
            assert(tail =~= b2@.subrange(4, b2@.len() as int));
            assert(size_table(xv) + element_area(xv) =~= serialized(xv).subrange(4, serialized(xv).len() as int));
        }
        assert(fits_list(flatten(pv))) by {
            lemma_flatten_len(pv);
            lemma_size_table(xv);
            lemma_element_area_len(xv);
            assert(serialized(xv).len() == b2@.len());
        }
        assert forall|p: Seq<(Seq<u8>, Seq<u8>)>| fits_list(flatten(p)) && #[trigger] map_pairs_bytes(p) == b@ implies
            pv == p by {
            assert(serialized(flatten(p)) == b2@);
            lemma_flatten_injective(pv, p);
        }
    }
    Some(pairs)
}

fn first_value_of(pairs: &Vec<(Vec<u8>, Vec<u8>)>, key: &[u8]) -> (r: Option<Vec<u8>>)
    ensures
        r matches Some(v) ==> first_value(pairs_view(pairs@), key@) == Some(v@),
        r is None ==> first_value(pairs_view(pairs@), key@) is None,
{
    let ghost p = pairs_view(pairs@);
    assert(p.subrange(0, p.len() as int) =~= p);
    let mut i: usize = 0;
    while i < pairs.len()
        invariant
            p == pairs_view(pairs@),
            0 <= i <= pairs@.len(),
            first_value(p, key@) == first_value(p.subrange(i as int, p.len() as int), key@),
        decreases pairs@.len() - i,
    {
        let ghost rest = p.subrange(i as int, p.len() as int);
        assert(rest.drop_first() =~= p.subrange(i + 1, p.len() as int));
        assert(rest[0] == (pairs@[i as int].0@, pairs@[i as int].1@));
        if crate::property::bytes_equal(pairs[i].0.as_slice(), key) {
            return Some(pairs[i].1.clone());
        }
        i = i + 1;
    }
    None
}

fn remove_named(pairs: &mut Vec<(Vec<u8>, Vec<u8>)>, key: &[u8])
    ensures
        pairs_view(final(pairs)@) == without(pairs_view(old(pairs)@), key@),
{
    let ghost p = pairs_view(pairs@);
    let mut kept: Vec<(Vec<u8>, Vec<u8>)> = Vec::new();
    let mut i: usize = 0;
    while i < pairs.len()
        invariant
            p == pairs_view(pairs@),
            0 <= i <= pairs@.len(),
            pairs_view(kept@) == without(p.subrange(0, i as int), key@),
        decreases pairs@.len() - i,
    {
        assert(p.subrange(0, i + 1).drop_last() =~= p.subrange(0, i as int));
        if !crate::property::bytes_equal(pairs[i].0.as_slice(), key) {
            let name = pairs[i].0.clone();
            let value = pairs[i].1.clone();
            let ghost before = kept@;
            kept.push((name, value));
            assert(pairs_view(kept@) =~= pairs_view(before).push(p[i as int]));
        }
        i = i + 1;
    }
    assert(p.subrange(0, p.len() as int) =~= p);
    *pairs = kept;
}

/// Request headers and properties that the proxy sent with an entrypoint.
pub struct AdditionalInfo {
    headers: Vec<(Vec<u8>, Vec<u8>)>,
    properties: Vec<(Vec<u8>, Vec<u8>)>,
}

impl AdditionalInfo {
    /// The request headers, in order.
    pub closed spec fn headers(&self) -> Seq<(Seq<u8>, Seq<u8>)> {
        pairs_view(self.headers@)
    }

    /// The property bindings, in order.
    pub closed spec fn properties(&self) -> Seq<(Seq<u8>, Seq<u8>)> {
        pairs_view(self.properties@)
    }

    pub fn new(headers: Vec<(Vec<u8>, Vec<u8>)>, properties: Vec<(Vec<u8>, Vec<u8>)>) -> (r:
        AdditionalInfo)
        ensures
            r.headers() == pairs_view(headers@),
            r.properties() == pairs_view(properties@),
    {
        AdditionalInfo { headers, properties }
    }

    /// The request headers in their serialized map form; `None` when that
    /// would pass `i32::MAX` bytes.
    pub fn get_request_headers(&self) -> (r: Option<Vec<u8>>)
        ensures
            r is Some <==> fits_list(flatten(self.headers())),
            r matches Some(b) ==> b@ == map_pairs_bytes(self.headers()),
    {
        serialize_map_pairs(&self.headers)
    }

    /// The value of the first request header named `key`.
    pub fn get_request_header_value(&self, key: &[u8]) -> (r: Option<Vec<u8>>)
        ensures
            r matches Some(v) ==> first_value(self.headers(), key@) == Some(v@),
            r is None ==> first_value(self.headers(), key@) is None,
    {
        first_value_of(&self.headers, key)
    }

    /// The value bound to the property `path`.
    pub fn get_property_value(&self, path: &[u8]) -> (r: Option<Vec<u8>>)
        ensures
            r matches Some(v) ==> first_value(self.properties(), path@) == Some(v@),
            r is None ==> first_value(self.properties(), path@) is None,
    {
        first_value_of(&self.properties, path)
    }

    /// Adds a request header after the others.
    pub fn add_request_header_value(&mut self, key: Vec<u8>, value: Vec<u8>)
        ensures
            final(self).headers() == old(self).headers().push((key@, value@)),
            final(self).properties() == old(self).properties(),
    {
        self.headers.push((key, value));
        assert(pairs_view(self.headers@) =~= pairs_view(old(self).headers@).push((key@, value@)));
    }

    /// Removes every request header named `key`.
    pub fn remove_request_header_value(&mut self, key: &[u8])
        ensures
            final(self).headers() == without(old(self).headers(), key@),
            final(self).properties() == old(self).properties(),
    {
        remove_named(&mut self.headers, key);
    }

    /// Makes `value` the one value of the request header `key`: the headers
    /// of that name give way to one at the end.
    pub fn replace_request_header_value(&mut self, key: Vec<u8>, value: Vec<u8>)
        ensures
            final(self).headers() == without(old(self).headers(), key@).push((key@, value@)),
            final(self).properties() == old(self).properties(),
    {
        remove_named(&mut self.headers, key.as_slice());
        let ghost mid = self.headers@;
        self.headers.push((key, value));
        assert(pairs_view(self.headers@) =~= pairs_view(mid).push((key@, value@)));
    }

    /// Replaces all request headers.
    pub fn set_request_headers(&mut self, headers: Vec<(Vec<u8>, Vec<u8>)>)
        ensures
            final(self).headers() == pairs_view(headers@),
            final(self).properties() == old(self).properties(),
    {
        self.headers = headers;
    }
}

/// Whether a host call's edits reach the request data: only connections
/// whose envelopes carry it do.
pub fn edits_reach_request_data(version: Version) -> (r: bool)
    ensures
        r == (version == Version::V1 || version == Version::V2a),
{
    match version {
        Version::V1 | Version::V2a => true,
        Version::V2 => false,
    }
}

/// Whether a message edits the request header map.
pub open spec fn request_headers_edit(message: HostMessage) -> bool {
    match message {
        HostMessage::AddMapValue { map_type, .. } => map_type == MapType::HttpRequestHeaders,
        HostMessage::ReplaceMapValue { map_type, .. } => map_type == MapType::HttpRequestHeaders,
        HostMessage::RemoveMapValue { map_type, .. } => map_type == MapType::HttpRequestHeaders,
        HostMessage::SetMapPairs { map_type, .. } => map_type == MapType::HttpRequestHeaders,
        _ => false,
    }
}

/// Applies a command's edit of the request headers. `headers` is the
/// already decoded map of a `SetMapPairs`; other messages and other maps
/// leave the data as it is.
pub fn apply_command(info: &mut AdditionalInfo, message: &HostMessage, headers: Option<Vec<(Vec<u8>, Vec<u8>)>>)
    ensures
        final(info).properties() == old(info).properties(),
        message matches HostMessage::AddMapValue { map_type, key, value } ==> (map_type
            == MapType::HttpRequestHeaders ==> final(info).headers() == old(info).headers().push(
            (key@, value@),
        )),
        message matches HostMessage::ReplaceMapValue { map_type, key, value } ==> (map_type
            == MapType::HttpRequestHeaders ==> final(info).headers() == without(old(info).headers(), key@).push(
            (key@, value@),
        )),
        message matches HostMessage::RemoveMapValue { map_type, key } ==> (map_type
            == MapType::HttpRequestHeaders ==> final(info).headers() == without(old(info).headers(), key@)),
        message matches HostMessage::SetMapPairs { map_type, .. } ==> (map_type
            == MapType::HttpRequestHeaders ==> (headers matches Some(h) ==> final(info).headers() == pairs_view(h@))),
        message matches HostMessage::SetMapPairs { map_type, .. } ==> (map_type
            == MapType::HttpRequestHeaders ==> (headers is None ==> final(info).headers() == old(info).headers())),
        !(message is AddMapValue || message is ReplaceMapValue || message is RemoveMapValue || message is SetMapPairs) ==> final(info).headers() == old(info).headers(),
        !request_headers_edit(*message) ==> final(info).headers() == old(info).headers(),
{
    match message {
        HostMessage::AddMapValue { map_type: MapType::HttpRequestHeaders, key, value } => {
            info.add_request_header_value(key.clone(), value.clone());
        },
        HostMessage::ReplaceMapValue { map_type: MapType::HttpRequestHeaders, key, value } => {
            info.replace_request_header_value(key.clone(), value.clone());
        },
        HostMessage::RemoveMapValue { map_type: MapType::HttpRequestHeaders, key } => {
            info.remove_request_header_value(key.as_slice());
        },
        HostMessage::SetMapPairs { map_type: MapType::HttpRequestHeaders, .. } => {
            match headers {
                Some(h) => info.set_request_headers(h),
                None => {},
            }
        },
        _ => {},
    }
}

/// How a host call that expects a reply is answered from the request data.
#[derive(Debug)]
pub enum FastPath {
    /// Answered here; nothing goes to the proxy.
    Answer(Result<Vec<u8>, HostError>),
    /// The proxy has to answer.
    AskProxy,
}

/// Answers a host call from the request data where it can: the request
/// header map, a request header (`NotFound` when it is absent), or a bound
/// property. Everything else goes to the proxy.
pub fn fast_reply(info: &AdditionalInfo, message: &HostMessage) -> (r: FastPath)
    ensures
        message matches HostMessage::GetMapPairs { map_type } ==> (map_type
            == MapType::HttpRequestHeaders && fits_list(flatten(info.headers())) ==> (r matches FastPath::Answer(Ok(b)) && b@ == map_pairs_bytes(info.headers()))),
        message matches HostMessage::GetMapPairs { map_type } ==> (!(map_type
            == MapType::HttpRequestHeaders && fits_list(flatten(info.headers()))) ==> r is AskProxy),
        message matches HostMessage::GetMapValue { map_type, key } ==> (map_type
            == MapType::HttpRequestHeaders ==> (first_value(info.headers(), key@) matches Some(v) ==> (r matches FastPath::Answer(Ok(b)) && b@ == v))),
        message matches HostMessage::GetMapValue { map_type, key } ==> (map_type
            == MapType::HttpRequestHeaders ==> (first_value(info.headers(), key@) is None ==> (r matches FastPath::Answer(Err(e)) && e == HostError::NotFound))),
        message matches HostMessage::GetMapValue { map_type, .. } ==> (map_type
            != MapType::HttpRequestHeaders ==> r is AskProxy),
        message matches HostMessage::GetProperty { path } ==> (first_value(info.properties(), path@) matches Some(v) ==> (r matches FastPath::Answer(Ok(b)) && b@ == v)),
        message matches HostMessage::GetProperty { path } ==> (first_value(info.properties(), path@) is None ==> r is AskProxy),
        !(message is GetMapPairs || message is GetMapValue || message is GetProperty) ==> r is AskProxy,
{
    match message {
        HostMessage::GetMapPairs { map_type: MapType::HttpRequestHeaders } => {
            match info.get_request_headers() {
                Some(b) => FastPath::Answer(Ok(b)),
                None => FastPath::AskProxy,
            }
        },
        HostMessage::GetMapValue { map_type: MapType::HttpRequestHeaders, key } => {
            match info.get_request_header_value(key.as_slice()) {
                Some(v) => FastPath::Answer(Ok(v)),
                None => FastPath::Answer(Err(HostError::NotFound)),
            }
        },
        HostMessage::GetProperty { path } => {
            match info.get_property_value(path.as_slice()) {
                Some(v) => FastPath::Answer(Ok(v)),
                None => FastPath::AskProxy,
            }
        },
        _ => FastPath::AskProxy,
    }
}

} // verus!
