//! Little-endian integers and byte ranges inside a byte region.
use vstd::prelude::*;

verus! {

/// The 16-bit little-endian integer stored at `at`.
pub open spec fn le_u16(d: Seq<u8>, at: int) -> int {
    d[at] as int + d[at + 1] as int * 0x100
}

/// The 32-bit little-endian integer stored at `at`.
pub open spec fn le_u32(d: Seq<u8>, at: int) -> int {
    le_u16(d, at) + le_u16(d, at + 2) * 0x1_0000
}

/// The 64-bit little-endian integer stored at `at`.
pub open spec fn le_u64(d: Seq<u8>, at: int) -> int {
    le_u32(d, at) + le_u32(d, at + 4) * 0x1_0000_0000
}

/// The `len` bytes of `d` that start at `start`, when all of them lie inside `d`.
pub open spec fn span(d: Seq<u8>, start: int, len: int) -> Option<Seq<u8>> {
    if 0 <= start && 0 <= len && start + len <= d.len() {
        Some(d.subrange(start, start + len))
    } else {
        None
    }
}

/// The contents of an optional borrowed byte range.
pub open spec fn bytes_of(r: Option<&[u8]>) -> Option<Seq<u8>> {
    match r {
        Some(s) => Some(s@),
        None => None,
    }
}

pub fn read_u16(d: &[u8], at: usize) -> (r: u16)
    requires
        at + 2 <= d@.len(),
    ensures
        r == le_u16(d@, at as int),
{
    let lo = d[at] as u16;
    let hi = d[at + 1] as u16;
    lo + hi * 0x100
}

pub fn read_u32(d: &[u8], at: usize) -> (r: u32)
    requires
        at + 4 <= d@.len(),
    ensures
        r == le_u32(d@, at as int),
{
    let _ = d.len();
    let lo = read_u16(d, at) as u32;
    let hi = read_u16(d, at + 2) as u32;
    lo + hi * 0x1_0000
}

pub fn read_u64(d: &[u8], at: usize) -> (r: u64)
    requires
        at + 8 <= d@.len(),
    ensures
        r == le_u64(d@, at as int),
{
    let _ = d.len();
    let lo = read_u32(d, at) as u64;
    let hi = read_u32(d, at + 4) as u64;
    lo + hi * 0x1_0000_0000
}

/// Borrows the `len` bytes of `d` that start at `start`, or gives `None`
/// when they do not all lie inside `d`.
pub fn span_of<'a>(d: &'a [u8], start: u64, len: u64) -> (r: Option<&'a [u8]>)
    ensures
        bytes_of(r) == span(d@, start as int, len as int),
{
    let n = d.len() as u64;
    if start <= n && len <= n - start {
        let s = start as usize;
        let e = (start + len) as usize;
        Some(vstd::slice::slice_subrange(d, s, e))
    } else {
        None
    }
}

} // verus!
