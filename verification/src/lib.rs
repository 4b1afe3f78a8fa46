//! Decoding of the tag directory of a TIFF image: the tag and type catalogs,
//! the value model, directory entries and the rule that decides whether an
//! entry's four-byte slot holds the value itself or the offset of the value.

pub mod decoder;
pub mod directory;
pub mod entry;
pub mod error;
pub mod stream;
pub mod tags;
pub mod types;
pub mod value;
