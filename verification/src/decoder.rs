//! The decoding context that entries are resolved against: the bytes of the
//! file, the file's byte order and the cursor of the next read.

use vstd::prelude::*;
use crate::error::{ImageError, ImageResult, eof_text};
use crate::stream::{ByteOrder, ReaderState, SmartReader, u16_at, u32_at};

verus! {

/// The file being decoded. Its byte order is fixed when it is made; its
/// cursor moves with every seek and read.
pub struct TIFFDecoder {
    reader: SmartReader,
}

impl View for TIFFDecoder {
    type V = ReaderState;

    closed spec fn view(&self) -> ReaderState {
        self.reader@
    }
}

impl TIFFDecoder {
    /// A decoder over the bytes of a file, with the cursor at the start.
    pub fn new(data: Vec<u8>, byte_order: ByteOrder) -> (decoder: TIFFDecoder)
        ensures
            decoder@ == (ReaderState { data: data@, position: 0, byte_order }),
    {
        TIFFDecoder { reader: SmartReader::wrap(data, byte_order) }
    }

    /// The byte order of the file.
    pub fn byte_order(&self) -> (order: ByteOrder)
        ensures
            order == self@.byte_order,
    {
        self.reader.byte_order()
    }

    /// The index of the next byte to be read.
    pub fn position(&self) -> (p: usize)
        ensures
            p == self@.position,
    {
        self.reader.position()
    }

    /// Moves the cursor to the absolute byte index `offset`, wherever it
    /// stood before.
    pub fn goto_offset(&mut self, offset: u32)
        ensures
            final(self)@ == old(self)@.at(offset as nat),
    {
        self.reader.seek(offset);
    }

    /// Reads the unsigned 16-bit integer at the cursor, in the file's byte
    /// order, and moves the cursor past it. Where fewer than two bytes are
    /// left, the read fails and the cursor stays.
    pub fn read_short(&mut self) -> (res: ImageResult<u16>)
        ensures
            old(self)@.has(2) ==> res == Ok::<u16, ImageError>(
                u16_at(old(self)@.data, old(self)@.position as int, old(self)@.byte_order),
            ) && final(self)@ == old(self)@.advanced(2),
            !old(self)@.has(2) ==> res is Err && res->Err_0 is IoError && res->Err_0.text()
                == eof_text() && final(self)@ == old(self)@,
    {
        self.reader.read_u16()
    }

    /// Reads the unsigned 32-bit integer at the cursor, in the file's byte
    /// order, and moves the cursor past it. Where fewer than four bytes are
    /// left, the read fails and the cursor stays.
    pub fn read_long(&mut self) -> (res: ImageResult<u32>)
        ensures
            old(self)@.has(4) ==> res == Ok::<u32, ImageError>(
                u32_at(old(self)@.data, old(self)@.position as int, old(self)@.byte_order),
            ) && final(self)@ == old(self)@.advanced(4),
            !old(self)@.has(4) ==> res is Err && res->Err_0 is IoError && res->Err_0.text()
                == eof_text() && final(self)@ == old(self)@,
    {
        self.reader.read_u32()
    }
}

} // verus!
