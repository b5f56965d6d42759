//! The module's linear memory as host functions use it: bounds-checked reads
//! of `(ptr, size)` inputs, and the write-back of a variable-sized result
//! with its `(offset, size)` pair. No access outside the memory traps: it is
//! reported as `InvalidMemoryAccess`.

use vstd::prelude::*;
use crate::list::le32;
use crate::wire::ProxyStatus;

verus! {

/// A pointer or size passed by the module, read as unsigned.
pub open spec fn unsigned(x: i32) -> int {
    (x as u32) as int
}

/// Whether `(ptr, size)` lies inside a memory of `len` bytes.
pub open spec fn range_in(len: int, ptr: i32, size: i32) -> bool {
    unsigned(ptr) + unsigned(size) <= len
}

/// The memory `m` with `d` written at `at`.
pub open spec fn written(m: Seq<u8>, at: int, d: Seq<u8>) -> Seq<u8> {
    m.subrange(0, at) + d + m.subrange(at + d.len(), m.len() as int)
}

/// Copies the input `(ptr, size)` out of the module's memory; `None` when the
/// range does not lie inside it.
pub fn read_guest(mem: &[u8], ptr: i32, size: i32) -> (r: Option<Vec<u8>>)
    ensures
        r is Some <==> range_in(mem@.len() as int, ptr, size),
        r matches Some(v) ==> v@ == mem@.subrange(unsigned(ptr), unsigned(ptr) + unsigned(size)),
{
    let p = ptr as u32 as usize;
    let n = size as u32 as usize;
    if n > mem.len() || p > mem.len() - n {
        return None;
    }
    Some(vstd::slice::slice_to_vec(vstd::slice::slice_subrange(mem, p, p + n)))
}

fn write_at(mem: &mut [u8], at: usize, data: &[u8])
    requires
        at + data@.len() <= old(mem)@.len(),
    ensures
        final(mem)@ == written(old(mem)@, at as int, data@),
{
    let total = mem.len();
    let mut i: usize = 0;
    while i < data.len()
        invariant
            total == old(mem)@.len(),
            at + data@.len() <= old(mem)@.len(),
            mem@.len() == old(mem)@.len(),
            0 <= i <= data@.len(),
            forall|j: int|
                0 <= j < mem@.len() ==> #[trigger] mem@[j] == if at <= j < at + i {
                    data@[j - at]
                } else {
                    old(mem)@[j]
                },
        decreases data@.len() - i,
    {
        mem[at + i] = data[i];
        i = i + 1;
    }
    assert(mem@ =~= written(old(mem)@, at as int, data@));
}

fn le32_bytes(n: u32) -> (r: [u8; 4])
    ensures
        r@ == le32(n),
{
    let r = [(n & 0xff) as u8, ((n >> 8u32) & 0xff) as u8, ((n >> 16u32) & 0xff) as u8, ((n
        >> 24u32) & 0xff) as u8];
    assert(r@ =~= le32(n));
    r
}

/// The memory after a result of `value` was placed at `offset` and its
/// `(offset, size)` pair written to the two out-pointers.
pub open spec fn returned(m: Seq<u8>, offset: i32, value: Seq<u8>, out_data: i32, out_size: i32) -> Seq<u8> {
    let m1 = written(m, unsigned(offset), value);
    let m2 = written(m1, unsigned(out_data), le32(offset as u32));
    written(m2, unsigned(out_size), le32(value.len() as u32))
}

/// Whether a result of `len` bytes at `offset` and its two out-pointers all
/// lie inside a memory of `mem_len` bytes.
pub open spec fn return_fits(mem_len: int, offset: i32, len: int, out_data: i32, out_size: i32) -> bool {
    &&& offset >= 0
    &&& len <= i32::MAX
    &&& unsigned(offset) + len <= mem_len
    &&& unsigned(out_data) + 4 <= mem_len
    &&& unsigned(out_size) + 4 <= mem_len
}

/// Hands a variable-sized result to the module: writes `value` at `offset`,
/// which the module's allocator returned, then the little-endian offset and
/// size at the two out-pointers. Anything outside the memory leaves it as it
/// was and reports `InvalidMemoryAccess`.
pub fn return_bytes(mem: &mut [u8], offset: i32, value: &[u8], out_data: i32, out_size: i32) -> (r:
    ProxyStatus)
    ensures
        return_fits(old(mem)@.len() as int, offset, value@.len() as int, out_data, out_size) ==> r
            == ProxyStatus::Success && final(mem)@ == returned(
            old(mem)@,
            offset,
            value@,
            out_data,
            out_size,
        ),
        !return_fits(old(mem)@.len() as int, offset, value@.len() as int, out_data, out_size) ==> r
            == ProxyStatus::InvalidMemoryAccess && final(mem)@ == old(mem)@,
{
    let len = mem.len();
    if offset < 0 || value.len() > i32::MAX as usize {
        return ProxyStatus::InvalidMemoryAccess;
    }
    let at = offset as u32 as usize;
    let data_ptr = out_data as u32 as usize;
    let size_ptr = out_size as u32 as usize;
    if value.len() > len || at > len - value.len() || len < 4 || data_ptr > len - 4 || size_ptr
        > len - 4 {
        return ProxyStatus::InvalidMemoryAccess;
    }
    write_at(mem, at, value);
    let off = le32_bytes(offset as u32);
    write_at(mem, data_ptr, &off);
    let size = le32_bytes(value.len() as u32);
    write_at(mem, size_ptr, &size);
    ProxyStatus::Success
}

/// Writes a 4-byte little-endian value at `ptr`, as for an opened store's
/// handle or a membership flag.
pub fn write_u32(mem: &mut [u8], ptr: i32, value: u32) -> (r: ProxyStatus)
    ensures
        unsigned(ptr) + 4 <= old(mem)@.len() ==> r == ProxyStatus::Success && final(mem)@
            == written(old(mem)@, unsigned(ptr), le32(value)),
        unsigned(ptr) + 4 > old(mem)@.len() ==> r == ProxyStatus::InvalidMemoryAccess
            && final(mem)@ == old(mem)@,
{
    let at = ptr as u32 as usize;
    if mem.len() < 4 || at > mem.len() - 4 {
        return ProxyStatus::InvalidMemoryAccess;
    }
    let b = le32_bytes(value);
    write_at(mem, at, &b);
    ProxyStatus::Success
}

} // verus!
