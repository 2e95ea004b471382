//! Little-endian field readers over a byte buffer, and the null-terminated
//! string scan used by the string tables of an image.
//!
//! The whole reader assumes the host's native (little-endian) byte order; the
//! image's own data-encoding byte is deliberately never inspected.

use vstd::prelude::*;

verus! {

/// The 16-bit value stored little-endian at `off`.
pub open spec fn u16_le(d: Seq<u8>, off: int) -> u16 {
    (d[off] as u16) | ((d[off + 1] as u16) << 8)
}

/// The 32-bit value stored little-endian at `off`.
pub open spec fn u32_le(d: Seq<u8>, off: int) -> u32 {
    (d[off] as u32) | ((d[off + 1] as u32) << 8) | ((d[off + 2] as u32) << 16)
        | ((d[off + 3] as u32) << 24)
}

/// The 64-bit value stored little-endian at `off`.
pub open spec fn u64_le(d: Seq<u8>, off: int) -> u64 {
    (u32_le(d, off) as u64) | ((u32_le(d, off + 4) as u64) << 32)
}

pub fn read_u16(d: &Vec<u8>, off: usize) -> (r: u16)
    requires
        off + 2 <= d@.len(),
    ensures
        r == u16_le(d@, off as int),
{
    let _n: usize = d.len();
    (d[off] as u16) | ((d[off + 1] as u16) << 8)
}

pub fn read_u32(d: &Vec<u8>, off: usize) -> (r: u32)
    requires
        off + 4 <= d@.len(),
    ensures
        r == u32_le(d@, off as int),
{
    let _n: usize = d.len();
    (d[off] as u32) | ((d[off + 1] as u32) << 8) | ((d[off + 2] as u32) << 16)
        | ((d[off + 3] as u32) << 24)
}

pub fn read_u64(d: &Vec<u8>, off: usize) -> (r: u64)
    requires
        off + 8 <= d@.len(),
    ensures
        r == u64_le(d@, off as int),
{
    let _n: usize = d.len();
    (read_u32(d, off) as u64) | ((read_u32(d, off + 4) as u64) << 32)
}

/// The bytes from `off` up to (not including) the first null byte; empty when
/// `off` is outside the buffer or points directly at a null byte.
pub open spec fn cstr_at(d: Seq<u8>, off: int) -> Seq<u8>
    decreases d.len() - off,
{
    if off < 0 || off >= d.len() || d[off] == 0 {
        Seq::empty()
    } else {
        seq![d[off]] + cstr_at(d, off + 1)
    }
}

/// Scans forward from `off` and returns the name bytes, terminator stripped.
pub fn read_cstr(d: &Vec<u8>, off: u64) -> (r: Vec<u8>)
    ensures
        r@ == cstr_at(d@, off as int),
{
    let mut out: Vec<u8> = Vec::new();
    if off >= d.len() as u64 {
        assert(out@ =~= cstr_at(d@, off as int));
        return out;
    }
    let mut i: usize = off as usize;
    while i < d.len() && d[i] != 0
        invariant
            off <= i <= d@.len(),
            cstr_at(d@, off as int) == out@ + cstr_at(d@, i as int),
        decreases d@.len() - i,
    {
        out.push(d[i]);
        i = i + 1;
        assert(cstr_at(d@, i - 1) == seq![d@[i - 1]] + cstr_at(d@, i as int));
        assert(cstr_at(d@, off as int) == out@ + cstr_at(d@, i as int));
    }
    assert(cstr_at(d@, i as int) =~= Seq::<u8>::empty());
    assert(out@ =~= out@ + Seq::<u8>::empty());
    out
}

/// Byte-for-byte equality of two buffers.
pub fn bytes_eq(a: &Vec<u8>, b: &Vec<u8>) -> (r: bool)
    ensures
        r == (a@ == b@),
{
    if a.len() != b.len() {
        return false;
    }
    let mut i: usize = 0;
    while i < a.len()
        invariant
            i <= a@.len(),
            a@.len() == b@.len(),
            forall|j: int| 0 <= j < i ==> a@[j] == b@[j],
        decreases a@.len() - i,
    {
        if a[i] != b[i] {
            return false;
        }
        i = i + 1;
    }
    proof {
        assert(a@ =~= b@);
    }
    true
}

} // verus!

