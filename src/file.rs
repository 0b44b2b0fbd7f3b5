//! An NX container over a borrowed byte region, and index-based lookups
//! into its node table and its string, audio and bitmap pools.
//!
//! The region is trusted to come from a well-formed file, but nothing here
//! reads outside it: a lookup whose table slot or record would fall outside
//! the region, or whose index is not below the matching count, gives `None`.
use crate::bytes::{bytes_of, le_u16, le_u32, le_u64, read_u16, read_u32, read_u64, span, span_of};
use crate::header::{header_of, Header, HEADER_SIZE, MAGIC};
use vstd::prelude::*;
use vstd::string::StringSliceAdditionalSpecFns;
use vstd::utf8::valid_utf8;

verus! {

/// Lets `Error` carry a `std::io::Error`, which stays opaque here.
#[verifier::external_type_specification]
#[verifier::external_body]
pub struct ExIoError(std::io::Error);

/// Size in bytes of one record of the node table.
pub const NODE_SIZE: u64 = 20;

/// An error that opening a container can give.
#[derive(Debug)]
pub enum Error {
    /// A failure of the file system or of the mapping.
    Io(std::io::Error),
    /// The header's tag is not the NX tag.
    InvalidMagic,
    /// The region is shorter than the header.
    TooShort,
}

impl Error {
    /// A short text for the error; for `Io`, the text of its cause.
    pub fn description(&self) -> (r: String)
        ensures
            self is InvalidMagic ==> r@ == "Header magic value was invalid"@,
            self is TooShort ==> r@ == "File was too short for header"@,
    {
        match self {
            Error::Io(e) => e.to_string(),
            Error::InvalidMagic => "Header magic value was invalid".to_string(),
            Error::TooShort => "File was too short for header".to_string(),
        }
    }

    /// The underlying failure, which only `Io` has.
    pub fn cause(&self) -> (r: Option<&std::io::Error>)
        ensures
            match self {
                Error::Io(e) => r == Some(e),
                _ => r is None,
            },
    {
        match self {
            Error::Io(e) => Some(e),
            _ => None,
        }
    }
}

impl From<std::io::Error> for Error {
    fn from(err: std::io::Error) -> (r: Error)
        ensures
            r == Error::Io(err),
    {
        Error::Io(err)
    }
}

impl vstd::std_specs::convert::FromSpecImpl<std::io::Error> for Error {
    open spec fn obeys_from_spec() -> bool {
        true
    }

    open spec fn from_spec(v: std::io::Error) -> Error {
        Error::Io(v)
    }
}

/// Relies on `std::str::from_utf8`: it accepts exactly the valid UTF-8
/// sequences and borrows them unchanged.
#[verifier::external_body]
fn utf8_str<'b>(b: &'b [u8]) -> (r: Option<&'b str>)
    ensures
        r is Some <==> valid_utf8(b@),
        r matches Some(s) ==> s.spec_bytes() == b@,
{
    std::str::from_utf8(b).ok()
}

/// The record offset in slot `index` of the offset table at `table`, when
/// the slot lies inside `d`.
pub open spec fn table_entry(d: Seq<u8>, table: int, index: int) -> Option<int> {
    if table + 8 * index + 8 <= d.len() {
        Some(le_u64(d, table + 8 * index))
    } else {
        None
    }
}

/// The node record at `index`.
pub open spec fn node_record(d: Seq<u8>, index: int) -> Option<Seq<u8>> {
    let h = header_of(d);
    if index < h.nodecount {
        span(d, h.nodeoffset + NODE_SIZE * index, NODE_SIZE as int)
    } else {
        None
    }
}

/// The bytes of the string at `index`: a 16-bit length, then that many bytes.
pub open spec fn string_record(d: Seq<u8>, index: int) -> Option<Seq<u8>> {
    let h = header_of(d);
    if index < h.stringcount {
        match table_entry(d, h.stringoffset as int, index) {
            Some(off) => if off + 2 <= d.len() {
                span(d, off + 2, le_u16(d, off))
            } else {
                None
            },
            None => None,
        }
    } else {
        None
    }
}

/// The string at `index`, when its bytes are valid UTF-8.
pub open spec fn string_text(d: Seq<u8>, index: int) -> Option<Seq<u8>> {
    match string_record(d, index) {
        Some(b) => if valid_utf8(b) {
            Some(b)
        } else {
            None
        },
        None => None,
    }
}

/// The `length` bytes of the audio at `index`, its 82-byte header included.
pub open spec fn audio_record(d: Seq<u8>, index: int, length: int) -> Option<Seq<u8>> {
    let h = header_of(d);
    if index < h.audiocount {
        match table_entry(d, h.audiooffset as int, index) {
            Some(off) => span(d, off, length),
            None => None,
        }
    } else {
        None
    }
}

/// The compressed bytes of the bitmap at `index`: a 32-bit length, then
/// that many bytes.
pub open spec fn bitmap_record(d: Seq<u8>, index: int) -> Option<Seq<u8>> {
    let h = header_of(d);
    if index < h.bitmapcount {
        match table_entry(d, h.bitmapoffset as int, index) {
            Some(off) => if off + 4 <= d.len() {
                span(d, off + 4, le_u32(d, off))
            } else {
                None
            },
            None => None,
        }
    } else {
        None
    }
}

/// The bytes of an optional string.
pub open spec fn str_bytes(r: Option<&str>) -> Option<Seq<u8>> {
    match r {
        Some(s) => Some(s.spec_bytes()),
        None => None,
    }
}

/// An NX container: a byte region whose header has been checked.
pub struct File<'a> {
    data: &'a [u8],
    header: Header,
}

impl<'a> View for File<'a> {
    type V = Seq<u8>;

    closed spec fn view(&self) -> Seq<u8> {
        self.data@
    }
}

impl<'a> File<'a> {
    /// The region holds a whole header with the NX tag, and the stored
    /// header is the one it spells.
    pub closed spec fn wf(&self) -> bool {
        &&& self.data@.len() >= HEADER_SIZE
        &&& self.header == header_of(self.data@)
        &&& self.header.magic == MAGIC
    }

    /// Checks the header at the start of `data` and opens the container.
    pub fn open(data: &'a [u8]) -> (r: Result<File<'a>, Error>)
        ensures
            data@.len() < HEADER_SIZE ==> r matches Err(Error::TooShort),
            data@.len() >= HEADER_SIZE && header_of(data@).magic != MAGIC ==> r matches Err(
                Error::InvalidMagic,
            ),
            data@.len() >= HEADER_SIZE && header_of(data@).magic == MAGIC ==> (r matches Ok(f)
                && f@ == data@ && f.wf()),
    {
        if data.len() < HEADER_SIZE {
            return Err(Error::TooShort);
        }
        let header = Header::read(data);
        if header.magic != MAGIC {
            return Err(Error::InvalidMagic);
        }
        Ok(File { data, header })
    }

    /// The header of the container.
    fn header(&self) -> (r: Header)
        requires
            self.wf(),
        ensures
            r == header_of(self@),
    {
        self.header
    }

    /// Number of nodes in the container.
    pub fn node_count(&self) -> (r: u32)
        requires
            self.wf(),
        ensures
            r == header_of(self@).nodecount,
    {
        self.header().nodecount
    }

    /// Number of strings in the container.
    pub fn string_count(&self) -> (r: u32)
        requires
            self.wf(),
        ensures
            r == header_of(self@).stringcount,
    {
        self.header().stringcount
    }

    /// Number of bitmaps in the container.
    pub fn bitmap_count(&self) -> (r: u32)
        requires
            self.wf(),
        ensures
            r == header_of(self@).bitmapcount,
    {
        self.header().bitmapcount
    }

    /// Number of audio entries in the container.
    pub fn audio_count(&self) -> (r: u32)
        requires
            self.wf(),
        ensures
            r == header_of(self@).audiocount,
    {
        self.header().audiocount
    }

    /// The record offset in slot `index` of the offset table at `table`.
    fn resolve(&self, table: u64, index: u32) -> (r: Option<u64>)
        requires
            self.wf(),
        ensures
            match table_entry(self@, table as int, index as int) {
                Some(off) => r == Some(off as u64),
                None => r is None,
            },
    {
        let n = self.data.len() as u64;
        let slot = 8 * (index as u64);
        if table <= n && slot + 8 <= n - table {
            Some(read_u64(self.data, (table + slot) as usize))
        } else {
            None
        }
    }

    /// The root node's record, the first of the node table.
    pub fn root(&self) -> (r: Option<&'a [u8]>)
        requires
            self.wf(),
        ensures
            bytes_of(r) == node_record(self@, 0),
    {
        self.get_node(0)
    }

    /// The string at `index` of the string table.
    pub fn get_str(&self, index: u32) -> (r: Option<&'a str>)
        requires
            self.wf(),
        ensures
            str_bytes(r) == string_text(self@, index as int),
    {
        if index >= self.header.stringcount {
            return None;
        }
        let off = match self.resolve(self.header.stringoffset, index) {
            Some(off) => off,
            None => return None,
        };
        let n = self.data.len() as u64;
        if off > n || n - off < 2 {
            return None;
        }
        let len = read_u16(self.data, off as usize) as u64;
        match span_of(self.data, off + 2, len) {
            Some(b) => utf8_str(b),
            None => None,
        }
    }

    /// The raw record at `index` of the node table.
    pub fn get_node(&self, index: u32) -> (r: Option<&'a [u8]>)
        requires
            self.wf(),
        ensures
            bytes_of(r) == node_record(self@, index as int),
    {
        if index >= self.header.nodecount {
            return None;
        }
        let n = self.data.len() as u64;
        let at = NODE_SIZE * (index as u64);
        if self.header.nodeoffset > n || at > n - self.header.nodeoffset {
            return None;
        }
        span_of(self.data, self.header.nodeoffset + at, NODE_SIZE)
    }

    /// The `length` bytes of the audio at `index` of the audio table.
    pub fn get_audio(&self, index: u32, length: u32) -> (r: Option<&'a [u8]>)
        requires
            self.wf(),
        ensures
            bytes_of(r) == audio_record(self@, index as int, length as int),
    {
        if index >= self.header.audiocount {
            return None;
        }
        match self.resolve(self.header.audiooffset, index) {
            Some(off) => span_of(self.data, off, length as u64),
            None => None,
        }
    }

    /// The compressed bytes of the bitmap at `index` of the bitmap table.
    pub fn get_bitmap(&self, index: u32) -> (r: Option<&'a [u8]>)
        requires
            self.wf(),
        ensures
            bytes_of(r) == bitmap_record(self@, index as int),
    {
        if index >= self.header.bitmapcount {
            return None;
        }
        let off = match self.resolve(self.header.bitmapoffset, index) {
            Some(off) => off,
            None => return None,
        };
        let n = self.data.len() as u64;
        if off > n || n - off < 4 {
            return None;
        }
        let len = read_u32(self.data, off as usize) as u64;
        span_of(self.data, off + 4, len)
    }
}

/// A region that holds a whole header with the NX tag opens, and the counts
/// that the container reports are the count fields as the header stores them.
pub proof fn lemma_open_reports_counts(data: Seq<u8>, f: File)
    requires
        data.len() >= HEADER_SIZE,
        le_u32(data, 0) == MAGIC,
        f@ == data,
    ensures
        header_of(data).magic == MAGIC,
        header_of(f@).nodecount == le_u32(data, 4),
        header_of(f@).stringcount == le_u32(data, 16),
        header_of(f@).bitmapcount == le_u32(data, 28),
        header_of(f@).audiocount == le_u32(data, 40),
{
}

} // verus!
