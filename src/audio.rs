//! Audio records: an 82-byte format header followed by the payload.
use vstd::prelude::*;

verus! {

/// Size in bytes of the format header that starts every audio record.
pub const AUDIO_HEADER_SIZE: usize = 82;

/// Relies on `<[u8]>::first_chunk`: it gives the first 82 bytes as an
/// array exactly when there are at least 82.
#[verifier::external_body]
fn first_82(b: &[u8]) -> (r: Option<&[u8; 82]>)
    ensures
        r is Some <==> b@.len() >= 82,
        r matches Some(a) ==> a@ == b@.subrange(0, 82),
{
    b.first_chunk::<82>()
}

/// Some audio, possibly a sound effect or music.
#[derive(Clone, Copy)]
pub struct Audio<'a> {
    data: &'a [u8],
    index: u32,
}

impl<'a> Audio<'a> {
    /// All bytes of the record, header included.
    pub closed spec fn bytes(&self) -> Seq<u8> {
        self.data@
    }

    /// The index of the record in the audio table.
    pub closed spec fn table_index(&self) -> u32 {
        self.index
    }

    /// Creates an `Audio` over the record `data`, found at `index` of the
    /// audio table.
    pub fn construct(data: &'a [u8], index: u32) -> (r: Audio<'a>)
        ensures
            r.bytes() == data@,
            r.table_index() == index,
    {
        Audio { data, index }
    }

    /// The audio data, without the format header.
    pub fn data(&self) -> (r: &'a [u8])
        requires
            self.bytes().len() >= AUDIO_HEADER_SIZE,
        ensures
            r@ == self.bytes().subrange(AUDIO_HEADER_SIZE as int, self.bytes().len() as int),
    {
        vstd::slice::slice_subrange(self.data, AUDIO_HEADER_SIZE, self.data.len())
    }

    /// The format header.
    pub fn header(&self) -> (r: &'a [u8; 82])
        requires
            self.bytes().len() >= AUDIO_HEADER_SIZE,
        ensures
            r@ == self.bytes().subrange(0, AUDIO_HEADER_SIZE as int),
    {
        match first_82(self.data) {
            Some(h) => h,
            None => vstd::pervasive::unreached(),
        }
    }

    /// Index of the audio within the offset table.
    pub fn index(&self) -> (r: u32)
        ensures
            r == self.table_index(),
    {
        self.index
    }
}

} // verus!
