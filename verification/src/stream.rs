//! An in-memory byte stream with a cursor and a byte order, and the integer
//! encodings that it reads.

use vstd::prelude::*;
use crate::error::{ImageError, ImageResult, eof_text};

verus! {

/// The order in which the bytes of a multi-byte integer are stored.
#[derive(Clone, Copy, Debug, PartialEq, Eq, Structural)]
pub enum ByteOrder {
    /// Least significant byte first.
    LittleEndian,
    /// Most significant byte first.
    BigEndian,
}

/// The unsigned 16-bit integer that two stored bytes encode.
pub open spec fn u16_of(b0: u8, b1: u8, order: ByteOrder) -> u16 {
    match order {
        ByteOrder::BigEndian => (b0 * 256 + b1) as u16,
        ByteOrder::LittleEndian => (b1 * 256 + b0) as u16,
    }
}

/// The unsigned 32-bit integer that four stored bytes encode.
pub open spec fn u32_of(b0: u8, b1: u8, b2: u8, b3: u8, order: ByteOrder) -> u32 {
    match order {
        ByteOrder::BigEndian => (b0 * 16777216 + b1 * 65536 + b2 * 256 + b3) as u32,
        ByteOrder::LittleEndian => (b3 * 16777216 + b2 * 65536 + b1 * 256 + b0) as u32,
    }
}

/// The 16-bit integer stored in `data` at index `at`.
pub open spec fn u16_at(data: Seq<u8>, at: int, order: ByteOrder) -> u16
    recommends
        0 <= at,
        at + 2 <= data.len(),
{
    u16_of(data[at], data[at + 1], order)
}

/// The 32-bit integer stored in `data` at index `at`.
pub open spec fn u32_at(data: Seq<u8>, at: int, order: ByteOrder) -> u32
    recommends
        0 <= at,
        at + 4 <= data.len(),
{
    u32_of(data[at], data[at + 1], data[at + 2], data[at + 3], order)
}

/// Decodes two stored bytes as an unsigned 16-bit integer.
pub fn decode_u16(b0: u8, b1: u8, order: ByteOrder) -> (v: u16)
    ensures
        v == u16_of(b0, b1, order),
{
    match order {
        ByteOrder::BigEndian => (b0 as u16) * 256 + (b1 as u16),
        ByteOrder::LittleEndian => (b1 as u16) * 256 + (b0 as u16),
    }
}

/// Decodes four stored bytes as an unsigned 32-bit integer.
pub fn decode_u32(b0: u8, b1: u8, b2: u8, b3: u8, order: ByteOrder) -> (v: u32)
    ensures
        v == u32_of(b0, b1, b2, b3, order),
{
    match order {
        ByteOrder::BigEndian => {
            (b0 as u32) * 16777216 + (b1 as u32) * 65536 + (b2 as u32) * 256 + (b3 as u32)
        },
        ByteOrder::LittleEndian => {
            (b3 as u32) * 16777216 + (b2 as u32) * 65536 + (b1 as u32) * 256 + (b0 as u32)
        },
    }
}

/// What a reader is at one moment: the bytes it reads from, where its cursor
/// stands, and the byte order it decodes with.
pub struct ReaderState {
    pub data: Seq<u8>,
    pub position: nat,
    pub byte_order: ByteOrder,
}

impl ReaderState {
    /// Whether `width` more bytes can be read at the cursor.
    pub open spec fn has(self, width: nat) -> bool {
        self.position + width <= self.data.len()
    }

    /// The state after the cursor has moved forward by `width` bytes.
    pub open spec fn advanced(self, width: nat) -> ReaderState {
        ReaderState { position: self.position + width, ..self }
    }

    /// The state with the cursor at the absolute index `position`.
    pub open spec fn at(self, position: nat) -> ReaderState {
        ReaderState { position, ..self }
    }
}

/// A reader over a byte buffer that decodes integers in a fixed byte order.
pub struct SmartReader {
    data: Vec<u8>,
    position: usize,
    byte_order: ByteOrder,
}

impl View for SmartReader {
    type V = ReaderState;

    closed spec fn view(&self) -> ReaderState {
        ReaderState {
            data: self.data@,
            position: self.position as nat,
            byte_order: self.byte_order,
        }
    }
}

impl SmartReader {
    /// A reader at the start of `data` that decodes in `byte_order`.
    pub fn wrap(data: Vec<u8>, byte_order: ByteOrder) -> (r: SmartReader)
        ensures
            r@ == (ReaderState { data: data@, position: 0, byte_order }),
    {
        SmartReader { data, position: 0, byte_order }
    }

    /// The byte order that the reader decodes with.
    pub fn byte_order(&self) -> (order: ByteOrder)
        ensures
            order == self@.byte_order,
    {
        self.byte_order
    }

    /// The index of the next byte to be read.
    pub fn position(&self) -> (p: usize)
        ensures
            p == self@.position,
    {
        self.position
    }

    /// Moves the cursor to the absolute index `offset`, which may lie past the
    /// end of the data: the next read then fails.
    pub fn seek(&mut self, offset: u32)
        ensures
            final(self)@ == old(self)@.at(offset as nat),
    {
        self.position = offset as usize;
    }

    /// Reads an unsigned 16-bit integer at the cursor and moves the cursor
    /// past it. Where fewer than two bytes are left, nothing is read and the
    /// cursor stays.
    pub fn read_u16(&mut self) -> (res: ImageResult<u16>)
        ensures
            old(self)@.has(2) ==> res == Ok::<u16, ImageError>(
                u16_at(old(self)@.data, old(self)@.position as int, old(self)@.byte_order),
            ) && final(self)@ == old(self)@.advanced(2),
            !old(self)@.has(2) ==> res is Err && res->Err_0 is IoError && res->Err_0.text()
                == eof_text() && final(self)@ == old(self)@,
    {
        let len: usize = self.data.len();
        if self.position <= len && len - self.position >= 2 {
            let at: usize = self.position;
            let v: u16 = decode_u16(self.data[at], self.data[at + 1], self.byte_order);
            self.position = at + 2;
            Ok(v)
        } else {
            Err(ImageError::unexpected_eof())
        }
    }

    /// Reads an unsigned 32-bit integer at the cursor and moves the cursor
    /// past it. Where fewer than four bytes are left, nothing is read and the
    /// cursor stays.
    pub fn read_u32(&mut self) -> (res: ImageResult<u32>)
        ensures
            old(self)@.has(4) ==> res == Ok::<u32, ImageError>(
                u32_at(old(self)@.data, old(self)@.position as int, old(self)@.byte_order),
            ) && final(self)@ == old(self)@.advanced(4),
            !old(self)@.has(4) ==> res is Err && res->Err_0 is IoError && res->Err_0.text()
                == eof_text() && final(self)@ == old(self)@,
    {
        let len: usize = self.data.len();
        if self.position <= len && len - self.position >= 4 {
            let at: usize = self.position;
            let v: u32 = decode_u32(
                self.data[at],
                self.data[at + 1],
                self.data[at + 2],
                self.data[at + 3],
                self.byte_order,
            );
            self.position = at + 4;
            Ok(v)
        } else {
            Err(ImageError::unexpected_eof())
        }
    }
}

} // verus!
