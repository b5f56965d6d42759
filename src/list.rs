//! The serialized-list format used by key-value scans and sorted-set ranges:
//! a little-endian `i32` count, one little-endian `i32` size per element,
//! then each element's bytes followed by a zero byte.

use vstd::prelude::*;

verus! {

/// The four little-endian bytes of `n`.
pub open spec fn le32(n: u32) -> Seq<u8> {
    seq![(n & 0xff) as u8, ((n >> 8u32) & 0xff) as u8, ((n >> 16u32) & 0xff) as u8, ((n >> 24u32) & 0xff) as u8]
}

/// The `u32` that four little-endian bytes encode.
pub open spec fn from_le32(b0: u8, b1: u8, b2: u8, b3: u8) -> u32 {
    (b0 as u32) | ((b1 as u32) << 8u32) | ((b2 as u32) << 16u32) | ((b3 as u32) << 24u32)
}

pub proof fn lemma_le32_round_trip(n: u32)
    ensures
        from_le32(le32(n)[0], le32(n)[1], le32(n)[2], le32(n)[3]) == n,
{
    let b0 = (n & 0xff) as u8;
    let b1 = ((n >> 8u32) & 0xff) as u8;
    let b2 = ((n >> 16u32) & 0xff) as u8;
    let b3 = ((n >> 24u32) & 0xff) as u8;
    assert(((b0 as u32) | ((b1 as u32) << 8u32) | ((b2 as u32) << 16u32) | ((b3 as u32) << 24u32)) == n) by (bit_vector)
        requires
            b0 == (n & 0xff) as u8,
            b1 == ((n >> 8u32) & 0xff) as u8,
            b2 == ((n >> 16u32) & 0xff) as u8,
            b3 == ((n >> 24u32) & 0xff) as u8,
    ;
}

pub(crate) fn push_le32(out: &mut Vec<u8>, n: u32)
    ensures
        final(out)@ == old(out)@ + le32(n),
{
    out.push((n & 0xff) as u8);
    out.push(((n >> 8u32) & 0xff) as u8);
    out.push(((n >> 16u32) & 0xff) as u8);
    out.push(((n >> 24u32) & 0xff) as u8);
    assert(out@ =~= old(out)@ + le32(n));
}


/// Sum of the element lengths.
pub open spec fn total_len(l: Seq<Seq<u8>>) -> int
    decreases l.len(),
{
    if l.len() == 0 {
        0
    } else {
        total_len(l.drop_last()) + l.last().len()
    }
}

/// The size table: one little-endian size per element.
pub open spec fn size_table(l: Seq<Seq<u8>>) -> Seq<u8>
    decreases l.len(),
{
    if l.len() == 0 {
        seq![]
    } else {
        size_table(l.drop_last()) + le32(l.last().len() as u32)
    }
}

/// The element area: each element followed by a zero byte.
pub open spec fn element_area(l: Seq<Seq<u8>>) -> Seq<u8>
    decreases l.len(),
{
    if l.len() == 0 {
        seq![]
    } else {
        element_area(l.drop_last()) + l.last() + seq![0u8]
    }
}

/// The serialized form of a list of byte strings.
pub open spec fn serialized(l: Seq<Seq<u8>>) -> Seq<u8> {
    le32(l.len() as u32) + size_table(l) + element_area(l)
}

/// A list whose serialized form stays within `i32::MAX` bytes.
pub open spec fn fits_list(l: Seq<Seq<u8>>) -> bool {
    4 + 5 * l.len() + total_len(l) <= i32::MAX
}

/// The byte strings that a list of slices views.
pub open spec fn slices_view(l: Seq<&[u8]>) -> Seq<Seq<u8>> {
    l.map_values(|s: &[u8]| s@)
}

/// The byte strings that a list of vectors views.
pub open spec fn vecs_view(l: Seq<Vec<u8>>) -> Seq<Seq<u8>> {
    l.map_values(|v: Vec<u8>| v@)
}

pub(crate) proof fn lemma_total_len_nonneg(l: Seq<Seq<u8>>)
    ensures
        total_len(l) >= 0,
        forall|i: int| 0 <= i < l.len() ==> l[i].len() <= total_len(l),
    decreases l.len(),
{
    if l.len() > 0 {
        let p = l.drop_last();
        lemma_total_len_nonneg(p);
        assert forall|i: int| 0 <= i < l.len() implies l[i].len() <= total_len(l) by {
            if i < p.len() {
                assert(l[i] == p[i]);
            }
        }
    }
}

pub(crate) proof fn lemma_size_table(l: Seq<Seq<u8>>)
    ensures
        size_table(l).len() == 4 * l.len(),
        forall|i: int|
            0 <= i < l.len() ==> #[trigger] size_table(l).subrange(4 * i, 4 * i + 4) == le32(
                l[i].len() as u32,
            ),
    decreases l.len(),
{
    if l.len() > 0 {
        let p = l.drop_last();
        lemma_size_table(p);
        assert forall|i: int| 0 <= i < l.len() implies #[trigger] size_table(l).subrange(
            4 * i,
            4 * i + 4,
        ) == le32(l[i].len() as u32) by {
            if i < p.len() {
                assert(size_table(l).subrange(4 * i, 4 * i + 4) =~= size_table(p).subrange(
                    4 * i,
                    4 * i + 4,
                ));
            } else {
                assert(size_table(l).subrange(4 * i, 4 * i + 4) =~= le32(l.last().len() as u32));
            }
        }
    }
}

pub(crate) proof fn lemma_element_area_len(l: Seq<Seq<u8>>)
    ensures
        element_area(l).len() == total_len(l) + l.len(),
    decreases l.len(),
{
    if l.len() > 0 {
        lemma_element_area_len(l.drop_last());
    }
}

proof fn lemma_element_area_concat(a: Seq<Seq<u8>>, b: Seq<Seq<u8>>)
    ensures
        element_area(a + b) == element_area(a) + element_area(b),
    decreases b.len(),
{
    if b.len() == 0 {
        assert(a + b =~= a);
        assert(element_area(a) + element_area(b) =~= element_area(a));
    } else {
        lemma_element_area_concat(a, b.drop_last());
        assert((a + b).drop_last() =~= a + b.drop_last());
        assert(element_area(a + b) =~= element_area(a) + element_area(b));
    }
}

proof fn lemma_total_len_concat(a: Seq<Seq<u8>>, b: Seq<Seq<u8>>)
    ensures
        total_len(a + b) == total_len(a) + total_len(b),
    decreases b.len(),
{
    if b.len() == 0 {
        assert(a + b =~= a);
    } else {
        lemma_total_len_concat(a, b.drop_last());
        assert((a + b).drop_last() =~= a + b.drop_last());
    }
}

/// Splits the element area at element `i`: the elements before it, the
/// element itself with its terminator, and the elements after it.
proof fn lemma_element_area_split(l: Seq<Seq<u8>>, i: int)
    requires
        0 <= i < l.len(),
    ensures
        element_area(l) == element_area(l.subrange(0, i)) + l[i] + seq![0u8] + element_area(
            l.subrange(i + 1, l.len() as int),
        ),
        element_area(l.subrange(0, i + 1)) == element_area(l.subrange(0, i)) + l[i] + seq![0u8],
{
    let pre = l.subrange(0, i);
    let mid = l.subrange(i, i + 1);
    let post = l.subrange(i + 1, l.len() as int);
    assert(l =~= pre + mid + post);
    assert(l.subrange(0, i + 1) =~= pre + mid);
    lemma_element_area_concat(pre + mid, post);
    lemma_element_area_concat(pre, mid);
    assert(mid.drop_last() =~= Seq::<Seq<u8>>::empty());
    assert(mid.last() == l[i]);
    assert(element_area(Seq::<Seq<u8>>::empty()) =~= Seq::<u8>::empty());
    assert(element_area(mid) =~= l[i] + seq![0u8]);
}


/// Appends the size table and the element area of `list`.
fn write_items(bytes: &mut Vec<u8>, list: &Vec<&[u8]>)
    requires
        fits_list(slices_view(list@)),
    ensures
        final(bytes)@ == old(bytes)@ + size_table(slices_view(list@)) + element_area(
            slices_view(list@),
        ),
{
    let ghost l = slices_view(list@);
    let ghost start = bytes@;
    proof {
        lemma_total_len_nonneg(l);
    }
    let mut i: usize = 0;
    while i < list.len()
        invariant
            l == slices_view(list@),
            fits_list(l),
            forall|j: int| 0 <= j < l.len() ==> l[j].len() <= total_len(l),
            0 <= i <= list.len(),
            bytes@ == start + size_table(l.subrange(0, i as int)),
        decreases list.len() - i,
    {
        assert(l.subrange(0, i + 1).drop_last() =~= l.subrange(0, i as int));
        assert(l[i as int] == list[i as int]@);
        push_le32(bytes, list[i].len() as u32);
        assert(bytes@ =~= start + size_table(l.subrange(0, i + 1)));
        i = i + 1;
    }
    assert(l.subrange(0, l.len() as int) =~= l);
    let ghost header = bytes@;
    let mut i: usize = 0;
    while i < list.len()
        invariant
            l == slices_view(list@),
            0 <= i <= list.len(),
            header == start + size_table(l),
            bytes@ == header + element_area(l.subrange(0, i as int)),
        decreases list.len() - i,
    {
        proof {
            lemma_element_area_split(l, i as int);
        }
        let value: &[u8] = list[i];
        assert(l[i as int] == value@);
        bytes.extend_from_slice(value);
        bytes.push(0u8);
        assert(bytes@ =~= header + element_area(l.subrange(0, i + 1)));
        i = i + 1;
    }
    assert(l.subrange(0, l.len() as int) =~= l);
}

/// Serializes a list of byte strings: the count, the size table, then each
/// element followed by a zero byte.
pub fn serialize_list(list: Vec<&[u8]>) -> (r: Vec<u8>)
    requires
        fits_list(slices_view(list@)),
    ensures
        r@ == serialized(slices_view(list@)),
{
    let mut bytes: Vec<u8> = Vec::new();
    push_le32(&mut bytes, list.len() as u32);
    write_items(&mut bytes, &list);
    bytes
}

/// Serializes `count` followed by the size table and element area of
/// `list`: the header-map form, where the count is that of the pairs.
pub(crate) fn serialize_counted(count: u32, list: Vec<&[u8]>) -> (r: Vec<u8>)
    requires
        fits_list(slices_view(list@)),
    ensures
        r@ == le32(count) + size_table(slices_view(list@)) + element_area(slices_view(list@)),
{
    let mut bytes: Vec<u8> = Vec::new();
    push_le32(&mut bytes, count);
    write_items(&mut bytes, &list);
    bytes
}

/// Whether a list's serialized form stays within `i32::MAX` bytes.
pub fn list_fits(list: &Vec<&[u8]>) -> (r: bool)
    ensures
        r == fits_list(slices_view(list@)),
{
    let ghost l = slices_view(list@);
    let mut acc: u64 = 4;
    let mut i: usize = 0;
    while i < list.len()
        invariant
            l == slices_view(list@),
            0 <= i <= list.len(),
            acc == 4 + 5 * i + total_len(l.subrange(0, i as int)),
            acc <= i32::MAX,
        decreases list.len() - i,
    {
        assert(l.subrange(0, i + 1).drop_last() =~= l.subrange(0, i as int));
        assert(l[i as int] == list[i as int]@);
        let n = list[i].len();
        if n as u64 > i32::MAX as u64 - 5 || acc > i32::MAX as u64 - 5 - n as u64 {
            proof {
                lemma_total_len_concat(l.subrange(0, i + 1), l.subrange(i + 1, l.len() as int));
                assert(l =~= l.subrange(0, i + 1) + l.subrange(i + 1, l.len() as int));
                lemma_total_len_nonneg(l.subrange(i + 1, l.len() as int));
            }
            return false;
        }
        acc = acc + 5 + n as u64;
        i = i + 1;
    }
    assert(l.subrange(0, l.len() as int) =~= l);
    true
}

pub(crate) proof fn lemma_le32_of_bytes(b0: u8, b1: u8, b2: u8, b3: u8)
    ensures
        le32(from_le32(b0, b1, b2, b3)) == seq![b0, b1, b2, b3],
{
    let n = from_le32(b0, b1, b2, b3);
    assert((n & 0xff) as u8 == b0 && ((n >> 8u32) & 0xff) as u8 == b1 && ((n >> 16u32) & 0xff) as u8
        == b2 && ((n >> 24u32) & 0xff) as u8 == b3) by (bit_vector)
        requires
            n == (b0 as u32) | ((b1 as u32) << 8u32) | ((b2 as u32) << 16u32) | ((b3 as u32)
                << 24u32),
    ;
    assert(le32(n) =~= seq![b0, b1, b2, b3]);
}

/// What any serialized list shows of itself: its count, its sizes, where its
/// element area starts and how long it is.
proof fn lemma_serialized_layout(l: Seq<Seq<u8>>, b: Seq<u8>)
    requires
        fits_list(l),
        serialized(l) == b,
    ensures
        b.len() == 4 + 4 * l.len() + total_len(l) + l.len(),
        from_le32(b[0], b[1], b[2], b[3]) == l.len(),
        forall|i: int|
            0 <= i < l.len() ==> from_le32(
                #[trigger] b[4 + 4 * i],
                b[4 + 4 * i + 1],
                b[4 + 4 * i + 2],
                b[4 + 4 * i + 3],
            ) == l[i].len(),
        b.subrange(4 + 4 * l.len() as int, b.len() as int) == element_area(l),
{
    lemma_size_table(l);
    lemma_element_area_len(l);
    lemma_total_len_nonneg(l);
    let n = l.len();
    lemma_le32_round_trip(n as u32);
    assert(b.subrange(0, 4) =~= le32(n as u32));
    assert forall|i: int| 0 <= i < l.len() implies from_le32(
        #[trigger] b[4 + 4 * i],
        b[4 + 4 * i + 1],
        b[4 + 4 * i + 2],
        b[4 + 4 * i + 3],
    ) == l[i].len() by {
        let t = size_table(l);
        assert(t.subrange(4 * i, 4 * i + 4) == le32(l[i].len() as u32));
        assert(b[4 + 4 * i] == t[4 * i]);
        assert(b[4 + 4 * i + 1] == t[4 * i + 1]);
        assert(b[4 + 4 * i + 2] == t[4 * i + 2]);
        assert(b[4 + 4 * i + 3] == t[4 * i + 3]);
        assert(t[4 * i] == t.subrange(4 * i, 4 * i + 4)[0]);
        assert(t[4 * i + 1] == t.subrange(4 * i, 4 * i + 4)[1]);
        assert(t[4 * i + 2] == t.subrange(4 * i, 4 * i + 4)[2]);
        assert(t[4 * i + 3] == t.subrange(4 * i, 4 * i + 4)[3]);
        lemma_le32_round_trip(l[i].len() as u32);
    }
    assert(b.subrange(4 + 4 * n as int, b.len() as int) =~= element_area(l));
}

/// Where element `i` of a serialized list lies, given where the elements
/// before it ended.
proof fn lemma_next_element(l: Seq<Seq<u8>>, b: Seq<u8>, i: int, start: int, pos: int)
    requires
        fits_list(l),
        serialized(l) == b,
        0 <= i < l.len(),
        start == 4 + 4 * l.len(),
        start <= pos <= b.len(),
        b.subrange(start, pos) == element_area(l.subrange(0, i)),
    ensures
        pos + l[i].len() < b.len(),
        b[pos + l[i].len()] == 0,
        b.subrange(pos, pos + l[i].len()) == l[i],
{
    lemma_serialized_layout(l, b);
    lemma_element_area_split(l, i);
    lemma_element_area_len(l.subrange(0, i));
    let area = b.subrange(start, b.len() as int);
    let k = l[i].len();
    assert(b.subrange(start, pos).len() == pos - start);
    let rest = element_area(l.subrange(i + 1, l.len() as int));
    assert(area == element_area(l.subrange(0, i)) + l[i] + seq![0u8] + rest);
    assert(area[(pos - start) + k] == 0);
    assert(b.subrange(pos, pos + k) =~= area.subrange(pos - start, pos - start + k));
    assert(area.subrange(pos - start, pos - start + k) =~= l[i]);
}

pub(crate) fn read_le32(b: &[u8], at: usize) -> (r: u32)
    requires
        at + 4 <= b@.len(),
    ensures
        r == from_le32(b@[at as int], b@[at + 1], b@[at + 2], b@[at + 3]),
{
    (b[at] as u32) | ((b[at + 1] as u32) << 8u32) | ((b[at + 2] as u32) << 16u32) | ((b[at
        + 3] as u32) << 24u32)
}

/// Reads a serialized list back. Returns `None` when the bytes are not the
/// serialized form of any list.
pub fn deserialize_list(b: &[u8]) -> (r: Option<Vec<Vec<u8>>>)
    ensures
        r matches Some(l) ==> serialized(vecs_view(l@)) == b@,
        forall|l: Seq<Seq<u8>>|
            fits_list(l) && #[trigger] serialized(l) == b@ ==> (r matches Some(x) && vecs_view(
                x@,
            ) == l),
{
    if b.len() < 4 {
        proof {
            assert forall|l: Seq<Seq<u8>>| fits_list(l) && #[trigger] serialized(l) == b@ implies false by {
                lemma_serialized_layout(l, b@);
            }
        }
        return None;
    }
    let count = read_le32(b, 0);
    let n = count as usize;
    if n > (b.len() - 4) / 4 {
        proof {
            assert forall|l: Seq<Seq<u8>>| fits_list(l) && #[trigger] serialized(l) == b@ implies false by {
                lemma_serialized_layout(l, b@);
                lemma_total_len_nonneg(l);
            }
        }
        return None;
    }
    assert(4 + 4 * n <= b@.len()) by (nonlinear_arith)
        requires
            n <= (b@.len() - 4) / 4,
            b@.len() >= 4,
    ;
    let start = 4 + 4 * n;
    let mut sizes: Vec<u32> = Vec::new();
    let mut i: usize = 0;
    while i < n
        invariant
            start == 4 + 4 * n,
            start <= b@.len(),
            0 <= i <= n,
            sizes@.len() == i,
            forall|j: int|
                0 <= j < i ==> #[trigger] sizes@[j] == from_le32(
                    b@[4 + 4 * j],
                    b@[4 + 4 * j + 1],
                    b@[4 + 4 * j + 2],
                    b@[4 + 4 * j + 3],
                ),
        decreases n - i,
    {
        sizes.push(read_le32(b, 4 + 4 * i));
        i = i + 1;
    }
    let mut out: Vec<Vec<u8>> = Vec::new();
    let mut pos: usize = start;
    let mut i: usize = 0;
    proof {
        assert(b@.subrange(4, 4) =~= size_table(vecs_view(out@)));
        assert(b@.subrange(start as int, pos as int) =~= element_area(vecs_view(out@)));
        assert forall|l: Seq<Seq<u8>>| fits_list(l) && #[trigger] serialized(l) == b@ implies vecs_view(
            out@,
        ) == l.subrange(0, 0) by {
            assert(vecs_view(out@) =~= l.subrange(0, 0));
        }
    }
    while i < n
        invariant
            n == count as usize,
            count == from_le32(b@[0], b@[1], b@[2], b@[3]),
            start == 4 + 4 * n,
            start <= b@.len(),
            sizes@.len() == n,
            forall|j: int|
                0 <= j < n ==> #[trigger] sizes@[j] == from_le32(
                    b@[4 + 4 * j],
                    b@[4 + 4 * j + 1],
                    b@[4 + 4 * j + 2],
                    b@[4 + 4 * j + 3],
                ),
            0 <= i <= n,
            out@.len() == i,
            start <= pos <= b@.len(),
            b@.subrange(4, 4 + 4 * i) == size_table(vecs_view(out@)),
            b@.subrange(start as int, pos as int) == element_area(vecs_view(out@)),
            forall|l: Seq<Seq<u8>>|
                fits_list(l) && #[trigger] serialized(l) == b@ ==> vecs_view(out@) == l.subrange(
                    0,
                    i as int,
                ),
        decreases n - i,
    {
        let k = sizes[i] as usize;
        proof {
            assert forall|l: Seq<Seq<u8>>| fits_list(l) && #[trigger] serialized(l) == b@ implies (
            l.len() == n && l[i as int].len() == k && pos + k < b@.len() && b@[pos + k] == 0
                && b@.subrange(pos as int, pos + k) == l[i as int]) by {
                lemma_serialized_layout(l, b@);
                lemma_next_element(l, b@, i as int, start as int, pos as int);
            }
        }
        if k >= b.len() - pos {
            return None;
        }
        if b[pos + k] != 0 {
            return None;
        }
        let item = vstd::slice::slice_to_vec(vstd::slice::slice_subrange(b, pos, pos + k));
        let ghost before = out@;
        out.push(item);
        proof {
            let v = vecs_view(out@);
            assert(v.drop_last() =~= vecs_view(before));
            assert(v.last() == b@.subrange(pos as int, pos + k));
            lemma_le32_of_bytes(b@[4 + 4 * i], b@[4 + 4 * i + 1], b@[4 + 4 * i + 2], b@[4 + 4 * i + 3]);
            assert(b@.subrange(4, 4 + 4 * (i + 1)) =~= b@.subrange(4, 4 + 4 * i) + seq![
                b@[4 + 4 * i],
                b@[4 + 4 * i + 1],
                b@[4 + 4 * i + 2],
                b@[4 + 4 * i + 3],
            ]);
            assert(b@.subrange(4, 4 + 4 * (i + 1)) == size_table(v));
            assert(b@.subrange(start as int, pos + k + 1) =~= b@.subrange(start as int, pos as int)
                + b@.subrange(pos as int, pos + k) + seq![0u8]);
            assert forall|l: Seq<Seq<u8>>| fits_list(l) && #[trigger] serialized(l) == b@ implies v
                == l.subrange(0, i + 1) by {
                assert(vecs_view(before) == l.subrange(0, i as int));
                assert(v =~= l.subrange(0, i + 1));
            }
        }
        pos = pos + k + 1;
        i = i + 1;
    }
    if pos != b.len() {
        proof {
            assert forall|l: Seq<Seq<u8>>| fits_list(l) && #[trigger] serialized(l) == b@ implies false by {
                lemma_serialized_layout(l, b@);
                assert(vecs_view(out@) == l.subrange(0, n as int));
                assert(l.subrange(0, n as int) =~= l);
                lemma_element_area_len(l);
            }
        }
        return None;
    }
    proof {
        let v = vecs_view(out@);
        lemma_le32_of_bytes(b@[0], b@[1], b@[2], b@[3]);
        assert(b@ =~= b@.subrange(0, 4) + b@.subrange(4, start as int) + b@.subrange(
            start as int,
            pos as int,
        ));
        assert(b@.subrange(0, 4) =~= le32(v.len() as u32));
        assert forall|l: Seq<Seq<u8>>| fits_list(l) && #[trigger] serialized(l) == b@ implies v == l by {
            lemma_serialized_layout(l, b@);
            assert(v == l.subrange(0, n as int));
            assert(l.subrange(0, n as int) =~= l);
        }
    }
    Some(out)
}


/// Two lists of the same length with the same serialized form agree on
/// their first `i` elements, which end at the same place.
proof fn lemma_same_prefix(l: Seq<Seq<u8>>, decoded: Seq<Seq<u8>>, i: int)
    requires
        fits_list(l),
        fits_list(decoded),
        serialized(decoded) == serialized(l),
        l.len() == decoded.len(),
        0 <= i <= l.len(),
    ensures
        decoded.subrange(0, i) == l.subrange(0, i),
        4 + 4 * l.len() + element_area(l.subrange(0, i)).len() <= serialized(l).len(),
        serialized(l).subrange(
            4 + 4 * l.len() as int,
            4 + 4 * l.len() + element_area(l.subrange(0, i)).len() as int,
        ) == element_area(l.subrange(0, i)),
    decreases i,
{
    let b = serialized(l);
    let start: int = 4 + 4 * l.len() as int;
    lemma_serialized_layout(l, b);
    lemma_total_len_nonneg(l);
    if i == 0 {
        assert(decoded.subrange(0, 0) =~= l.subrange(0, 0));
        assert(element_area(l.subrange(0, 0)) =~= Seq::<u8>::empty()) by {
            assert(l.subrange(0, 0) =~= Seq::<Seq<u8>>::empty());
        }
        assert(b.subrange(start, start) =~= Seq::<u8>::empty());
    } else {
        let j = i - 1;
        lemma_same_prefix(l, decoded, j);
        let pos: int = start + element_area(l.subrange(0, j)).len() as int;
        lemma_next_element(l, b, j, start, pos);
        lemma_serialized_layout(decoded, b);
        assert(from_le32(b[4 + 4 * j], b[4 + 4 * j + 1], b[4 + 4 * j + 2], b[4 + 4 * j + 3])
            == l[j].len());
        assert(decoded[j].len() == l[j].len());
        lemma_next_element(decoded, b, j, start, pos);
        assert(decoded[j] == l[j]);
        lemma_element_area_split(l, j);
        assert(decoded.subrange(0, i) =~= l.subrange(0, i));
        assert(b.subrange(start, pos + l[j].len() + 1) =~= b.subrange(start, pos) + b.subrange(
            pos,
            pos + l[j].len(),
        ) + seq![0u8]);
    }
}

/// Serialized lists round-trip: a list that serializes to the same bytes as a
/// list within `i32::MAX` bytes is that list. With the contracts of
/// `serialize_list` and `deserialize_list`, decoding the output of
/// `serialize_list(L)` therefore gives `L` back.
pub proof fn lemma_list_round_trip(l: Seq<Seq<u8>>, decoded: Seq<Seq<u8>>)
    requires
        fits_list(l),
        serialized(decoded) == serialized(l),
    ensures
        decoded == l,
{
    let b = serialized(l);
    lemma_size_table(decoded);
    lemma_element_area_len(decoded);
    lemma_total_len_nonneg(decoded);
    lemma_serialized_layout(l, b);
    assert(fits_list(decoded));
    lemma_serialized_layout(decoded, b);
    lemma_le32_round_trip(l.len() as u32);
    assert(decoded.len() == l.len());
    let n = l.len() as int;
    lemma_same_prefix(l, decoded, n);
    assert(decoded.subrange(0, n) =~= decoded);
    assert(l.subrange(0, n) =~= l);
}

} // verus!
