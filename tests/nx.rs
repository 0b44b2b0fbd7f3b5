use nx::{Audio, Bitmap, BitmapError, Error, File, Header};

fn put_u32(v: &mut Vec<u8>, x: u32) {
    v.extend_from_slice(&x.to_le_bytes());
}

fn put_u64(v: &mut Vec<u8>, x: u64) {
    v.extend_from_slice(&x.to_le_bytes());
}

fn audio_bytes() -> Vec<u8> {
    (0..100u32).map(|i| (i * 7 % 251) as u8).collect()
}

fn pixels() -> Vec<u8> {
    vec![1, 2, 3, 4, 1, 2, 3, 4, 9, 9, 9, 9, 0, 0, 0, 0]
}

/// A container with two nodes, the string "hello", one 100-byte audio
/// record and one 2x2 bitmap.
fn container() -> Vec<u8> {
    let compressed = lz4::block::compress(&pixels(), None, false).unwrap();
    let mut v = Vec::new();
    v.extend_from_slice(b"PKG4");
    put_u32(&mut v, 2);
    put_u64(&mut v, 52);
    put_u32(&mut v, 1);
    put_u64(&mut v, 92);
    put_u32(&mut v, 1);
    put_u64(&mut v, 215);
    put_u32(&mut v, 1);
    put_u64(&mut v, 107);
    assert_eq!(v.len(), 52);
    for i in 0..40u8 {
        v.push(i);
    }
    put_u64(&mut v, 100);
    v.extend_from_slice(&[5, 0]);
    v.extend_from_slice(b"hello");
    put_u64(&mut v, 115);
    v.extend_from_slice(&audio_bytes());
    assert_eq!(v.len(), 215);
    put_u64(&mut v, 223);
    put_u32(&mut v, compressed.len() as u32);
    v.extend_from_slice(&compressed);
    v
}

#[test]
fn open_reports_header_counts() {
    let data = container();
    let f = File::open(&data).unwrap();
    assert_eq!(f.node_count(), 2);
    assert_eq!(f.string_count(), 1);
    assert_eq!(f.bitmap_count(), 1);
    assert_eq!(f.audio_count(), 1);
}

#[test]
fn header_read_fields() {
    let data = container();
    let h = Header::read(&data);
    assert_eq!(h.magic, 0x34474B50);
    assert_eq!(h.nodeoffset, 52);
    assert_eq!(h.stringoffset, 92);
    assert_eq!(h.bitmapoffset, 215);
    assert_eq!(h.audiooffset, 107);
}

#[test]
fn open_too_short() {
    let data = container();
    assert!(matches!(File::open(&data[..51]), Err(Error::TooShort)));
    assert!(matches!(File::open(&[]), Err(Error::TooShort)));
}

#[test]
fn open_invalid_magic() {
    let mut data = container();
    data[3] = b'3';
    assert!(matches!(File::open(&data), Err(Error::InvalidMagic)));
    assert!(matches!(File::open(&data[..52]), Err(Error::InvalidMagic)));
}

#[test]
fn open_header_only() {
    let data = container();
    let f = File::open(&data[..52]).unwrap();
    assert_eq!(f.node_count(), 2);
    assert_eq!(f.get_str(0), None);
    assert_eq!(f.get_node(0), None);
}

#[test]
fn get_str_hello() {
    let data = container();
    let f = File::open(&data).unwrap();
    assert_eq!(f.get_str(0), Some("hello"));
}

#[test]
fn get_str_index_past_count() {
    let data = container();
    let f = File::open(&data).unwrap();
    assert_eq!(f.get_str(1), None);
}

#[test]
fn get_str_invalid_utf8() {
    let mut data = container();
    data[102] = 0xFF;
    let f = File::open(&data).unwrap();
    assert_eq!(f.get_str(0), None);
}

#[test]
fn get_str_record_past_end() {
    let mut data = container();
    data[100] = 0xFF;
    data[101] = 0xFF;
    let f = File::open(&data).unwrap();
    assert_eq!(f.get_str(0), None);
}

#[test]
fn get_node_records() {
    let data = container();
    let f = File::open(&data).unwrap();
    let first: Vec<u8> = (0..20u8).collect();
    let second: Vec<u8> = (20..40u8).collect();
    assert_eq!(f.get_node(0), Some(&first[..]));
    assert_eq!(f.get_node(1), Some(&second[..]));
    assert_eq!(f.root(), Some(&first[..]));
    assert_eq!(f.get_node(2), None);
}

#[test]
fn get_audio_record() {
    let data = container();
    let f = File::open(&data).unwrap();
    assert_eq!(f.get_audio(0, 100), Some(&audio_bytes()[..]));
    assert_eq!(f.get_audio(0, 10), Some(&audio_bytes()[..10]));
    assert_eq!(f.get_audio(1, 100), None);
    assert_eq!(f.get_audio(0, 10_000), None);
}

#[test]
fn audio_split() {
    let bytes = audio_bytes();
    let a = Audio::construct(&bytes, 3);
    assert_eq!(&a.header()[..], &bytes[..82]);
    assert_eq!(a.data(), &bytes[82..100]);
    assert_eq!(a.data().len(), 18);
    assert_eq!(a.index(), 3);
}

#[test]
fn audio_header_only() {
    let bytes = vec![4u8; 82];
    let a = Audio::construct(&bytes, 0);
    assert_eq!(a.data().len(), 0);
    assert_eq!(a.header().len(), 82);
}

#[test]
fn get_bitmap_decompresses() {
    let data = container();
    let f = File::open(&data).unwrap();
    let raw = f.get_bitmap(0).unwrap();
    let b = Bitmap::construct(raw, 2, 2);
    assert_eq!(b.raw_data(), raw);
    let mut out = vec![0u8; 16];
    assert_eq!(b.data(&mut out), Ok(()));
    assert_eq!(out, pixels());
    assert_eq!(f.get_bitmap(1), None);
}

#[test]
fn bitmap_data_twice_identical() {
    let compressed = lz4::block::compress(&pixels(), None, false).unwrap();
    let b = Bitmap::construct(&compressed, 2, 2);
    let mut first = vec![0u8; 16];
    let mut second = vec![0xAAu8; 16];
    assert_eq!(b.data(&mut first), Ok(()));
    assert_eq!(b.data(&mut second), Ok(()));
    assert_eq!(first, second);
}

#[test]
fn bitmap_len_two_by_two() {
    let compressed = lz4::block::compress(&pixels(), None, false).unwrap();
    let b = Bitmap::construct(&compressed, 2, 2);
    assert_eq!(b.width(), 2);
    assert_eq!(b.height(), 2);
    assert_eq!(b.len(), 16);
    let mut short = vec![7u8; 15];
    assert_eq!(b.data(&mut short), Err(BitmapError::BufferSize));
    assert_eq!(short, vec![7u8; 15]);
}

#[test]
fn bitmap_len_large() {
    let b = Bitmap::construct(&[], 32767, 32767);
    assert_eq!(b.len(), 4_294_705_156);
}

#[test]
fn bitmap_empty_dimensions() {
    let compressed = lz4::block::compress(&[], None, false).unwrap();
    let b = Bitmap::construct(&compressed, 0, 7);
    assert_eq!(b.len(), 0);
    let mut out: Vec<u8> = Vec::new();
    assert_eq!(b.data(&mut out), Ok(()));
    let c = Bitmap::construct(&compressed, 9, 0);
    assert_eq!(c.len(), 0);
    assert_eq!(c.data(&mut out), Ok(()));
}

#[test]
fn bitmap_corrupt_data() {
    let b = Bitmap::construct(&[0xF0, 1, 2], 2, 2);
    let mut out = vec![0u8; 16];
    assert_eq!(b.data(&mut out), Err(BitmapError::Decompress));
}

#[test]
fn bitmap_wrong_dimensions() {
    let compressed = lz4::block::compress(&pixels(), None, false).unwrap();
    let b = Bitmap::construct(&compressed, 4, 2);
    let mut out = vec![0u8; 32];
    assert_eq!(b.data(&mut out), Err(BitmapError::Decompress));
}

#[test]
fn error_texts() {
    assert_eq!(Error::InvalidMagic.description(), "Header magic value was invalid");
    assert_eq!(Error::TooShort.description(), "File was too short for header");
    assert!(Error::TooShort.cause().is_none());
    let e = Error::from(std::io::Error::new(std::io::ErrorKind::NotFound, "gone"));
    assert!(matches!(e, Error::Io(_)));
    assert_eq!(e.description(), "gone");
    assert!(e.cause().is_some());
}
