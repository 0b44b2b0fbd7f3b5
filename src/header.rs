//! The fixed-size header at the start of every NX container.
use crate::bytes::{le_u32, le_u64, read_u32, read_u64};
use vstd::prelude::*;

verus! {

/// Size in bytes of the header.
pub const HEADER_SIZE: usize = 52;

/// The tag "PKG4" read as a little-endian 32-bit integer.
pub const MAGIC: u32 = 0x34474B50;

/// The header fields: a tag, then a count and a table offset for each of
/// nodes, strings, bitmaps and audio.
#[derive(Clone, Copy, Debug, PartialEq, Eq, Structural)]
pub struct Header {
    pub magic: u32,
    pub nodecount: u32,
    pub nodeoffset: u64,
    pub stringcount: u32,
    pub stringoffset: u64,
    pub bitmapcount: u32,
    pub bitmapoffset: u64,
    pub audiocount: u32,
    pub audiooffset: u64,
}

/// The header that the first `HEADER_SIZE` bytes of `d` spell.
pub open spec fn header_of(d: Seq<u8>) -> Header {
    Header {
        magic: le_u32(d, 0) as u32,
        nodecount: le_u32(d, 4) as u32,
        nodeoffset: le_u64(d, 8) as u64,
        stringcount: le_u32(d, 16) as u32,
        stringoffset: le_u64(d, 20) as u64,
        bitmapcount: le_u32(d, 28) as u32,
        bitmapoffset: le_u64(d, 32) as u64,
        audiocount: le_u32(d, 40) as u32,
        audiooffset: le_u64(d, 44) as u64,
    }
}

impl Header {
    /// Reads the header from the start of `d`.
    pub fn read(d: &[u8]) -> (h: Header)
        requires
            d@.len() >= HEADER_SIZE,
        ensures
            h == header_of(d@),
    {
        Header {
            magic: read_u32(d, 0),
            nodecount: read_u32(d, 4),
            nodeoffset: read_u64(d, 8),
            stringcount: read_u32(d, 16),
            stringoffset: read_u64(d, 20),
            bitmapcount: read_u32(d, 28),
            bitmapoffset: read_u64(d, 32),
            audiocount: read_u32(d, 40),
            audiooffset: read_u64(d, 44),
        }
    }
}

} // verus!
