//! Bitmaps: LZ4-compressed pixel data of four bytes per pixel, whose
//! width and height the caller supplies.
use vstd::prelude::*;

verus! {

/// The largest length, in bytes, of the LZ4 routine's input or output: its
/// sizes are 32-bit signed integers.
pub const LZ4_LIMIT: u64 = 0x7FFF_FFFF;

/// What LZ4 block decompression of `src` produces into a buffer of
/// `capacity` bytes, or `None` when the block is malformed or does not fit.
pub uninterp spec fn lz4_block(src: Seq<u8>, capacity: nat) -> Option<Seq<u8>>;

/// Relies on `lz4::block::decompress_to_buffer` with the buffer's length as
/// the expected size: on success it reports how many bytes it wrote, and
/// those bytes are the decompressed block, which depends on the input and
/// the room given alone.
#[verifier::external_body]
fn decompress_block(src: &[u8], out: &mut [u8]) -> (r: Option<usize>)
    requires
        src@.len() <= LZ4_LIMIT,
        old(out)@.len() <= LZ4_LIMIT,
    ensures
        final(out)@.len() == old(out)@.len(),
        match lz4_block(src@, old(out)@.len()) {
            Some(d) => r == Some(d.len() as usize) && d.len() <= old(out)@.len()
                && final(out)@.subrange(0, d.len() as int) == d,
            None => r is None,
        },
{
    let size = out.len() as i32;
    lz4::block::decompress_to_buffer(src, Some(size), out).ok()
}

/// Why decompressing a bitmap failed.
#[derive(Clone, Copy, Debug, PartialEq, Eq, Structural)]
pub enum BitmapError {
    /// The output buffer's length is not the bitmap's `len()`.
    BufferSize,
    /// The compressed data is malformed, or does not decompress to exactly
    /// `len()` bytes.
    Decompress,
}

/// Number of bytes of `width` by `height` pixels of four bytes each.
pub open spec fn pixel_len(width: int, height: int) -> int {
    width * height * 4
}

/// A bitmap: its dimensions and its compressed pixel data.
#[derive(Clone, Copy)]
pub struct Bitmap<'a> {
    width: u16,
    height: u16,
    data: &'a [u8],
}

impl<'a> Bitmap<'a> {
    /// Width in pixels.
    pub closed spec fn spec_width(&self) -> u16 {
        self.width
    }

    /// Height in pixels.
    pub closed spec fn spec_height(&self) -> u16 {
        self.height
    }

    /// The compressed bytes.
    pub closed spec fn raw(&self) -> Seq<u8> {
        self.data@
    }

    /// Length in bytes of the decompressed pixels.
    pub open spec fn size(&self) -> int {
        pixel_len(self.spec_width() as int, self.spec_height() as int)
    }

    /// The compressed bytes decompress to exactly `size()` bytes.
    pub open spec fn decodes(&self) -> bool {
        &&& self.raw().len() <= LZ4_LIMIT
        &&& self.size() <= LZ4_LIMIT
        &&& lz4_block(self.raw(), self.size() as nat) matches Some(d)
        &&& d.len() == self.size()
    }

    /// The decompressed pixels, when `decodes()`.
    pub open spec fn pixels(&self) -> Seq<u8> {
        lz4_block(self.raw(), self.size() as nat).unwrap()
    }

    /// What a call of `data` leaves: a buffer `before` becomes `after`, with
    /// result `r`.
    pub open spec fn data_outcome(
        &self,
        before: Seq<u8>,
        after: Seq<u8>,
        r: Result<(), BitmapError>,
    ) -> bool {
        if before.len() != self.size() {
            r == Err::<(), BitmapError>(BitmapError::BufferSize) && after == before
        } else if self.decodes() {
            r == Ok::<(), BitmapError>(()) && after == self.pixels()
        } else {
            r == Err::<(), BitmapError>(BitmapError::Decompress) && after.len() == before.len()
        }
    }

    /// Creates a `Bitmap` from its compressed `data` and its dimensions.
    pub fn construct(data: &'a [u8], width: u16, height: u16) -> (r: Bitmap<'a>)
        ensures
            r.raw() == data@,
            r.spec_width() == width,
            r.spec_height() == height,
    {
        Bitmap { width, height, data }
    }

    /// The width in pixels.
    pub fn width(&self) -> (r: u16)
        ensures
            r == self.spec_width(),
    {
        self.width
    }

    /// The height in pixels.
    pub fn height(&self) -> (r: u16)
        ensures
            r == self.spec_height(),
    {
        self.height
    }

    /// The length of the decompressed data in bytes.
    pub fn len(&self) -> (r: u32)
        requires
            self.size() <= u32::MAX,
        ensures
            r == self.size(),
    {
        let w = self.width as u32;
        let h = self.height as u32;
        assert(w * h <= 0xFFFF * 0xFFFF) by (nonlinear_arith)
            requires
                w <= 0xFFFF,
                h <= 0xFFFF,
        ;
        w * h * 4
    }

    /// Decompresses the bitmap into `out`, which must be `len()` bytes long.
    pub fn data(&self, out: &mut [u8]) -> (r: Result<(), BitmapError>)
        ensures
            self.data_outcome(old(out)@, final(out)@, r),
    {
        let w = self.width as u64;
        let h = self.height as u64;
        assert(w * h <= 0xFFFF * 0xFFFF) by (nonlinear_arith)
            requires
                w <= 0xFFFF,
                h <= 0xFFFF,
        ;
        let size = w * h * 4;
        if out.len() as u64 != size {
            return Err(BitmapError::BufferSize);
        }
        if self.data.len() as u64 > LZ4_LIMIT || size > LZ4_LIMIT {
            return Err(BitmapError::Decompress);
        }
        match decompress_block(self.data, out) {
            Some(n) => if n as u64 == size {
                assert(out@ =~= out@.subrange(0, n as int));
                Ok(())
            } else {
                Err(BitmapError::Decompress)
            },
            None => Err(BitmapError::Decompress),
        }
    }

    /// The raw (LZ4-compressed) bitmap data.
    pub fn raw_data(&self) -> (r: &'a [u8])
        ensures
            r@ == self.raw(),
    {
        self.data
    }
}

/// Decompressing one bitmap twice, into buffers of equal length, gives the
/// same result both times, and on success the same bytes.
pub proof fn lemma_data_repeatable(
    b: Bitmap,
    before1: Seq<u8>,
    after1: Seq<u8>,
    r1: Result<(), BitmapError>,
    before2: Seq<u8>,
    after2: Seq<u8>,
    r2: Result<(), BitmapError>,
)
    requires
        before1.len() == before2.len(),
        b.data_outcome(before1, after1, r1),
        b.data_outcome(before2, after2, r2),
    ensures
        r1 == r2,
        r1 is Ok ==> after1 == after2,
{
}

/// A bitmap with no columns or no rows has nothing to decompress: its
/// length is zero.
pub proof fn lemma_empty_bitmap(b: Bitmap)
    requires
        b.spec_width() == 0 || b.spec_height() == 0,
    ensures
        b.size() == 0,
{
}

} // verus!
