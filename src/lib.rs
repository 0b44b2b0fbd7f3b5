//! Read-only access to NX containers: a header, a node table and three
//! resource pools (strings, LZ4-compressed bitmaps and raw audio), all
//! resolved by index inside one immutable byte region.
pub mod audio;
pub mod bitmap;
pub mod bytes;
pub mod file;
pub mod header;

pub use audio::Audio;
pub use bitmap::{Bitmap, BitmapError};
pub use file::{Error, File};
pub use header::Header;
