//! One record of a tag directory and the rule that resolves it to a value.

use vstd::prelude::*;
use crate::decoder::TIFFDecoder;
use crate::error::{ImageError, ImageResult, eof_text, unsupported_text};
use crate::stream::{ByteOrder, ReaderState, SmartReader, u16_at, u16_of, u32_at, u32_of};
use crate::types::Type;
use crate::value::{Value, Value_Type, list_of_scalars};

verus! {

/// What resolving an entry comes to, as plain data.
pub enum Outcome {
    /// A single integer.
    Scalar(u32),
    /// A list of single integers.
    Sequence(Seq<u32>),
    /// The type and count have no decoding rule.
    Unsupported,
    /// The data ended before the last element.
    EndOfStream,
}

impl Outcome {
    /// Whether `res` is this outcome: the same integers in the same shape,
    /// or the error of the same kind with its text.
    pub open spec fn is_result(self, res: ImageResult<Value>) -> bool {
        match self {
            Outcome::Scalar(n) => res == Ok::<Value, ImageError>(Value::Unsigned(n)),
            Outcome::Sequence(s) => res matches Ok(v) && v is List && v.spec_as_u32_vec()
                == Some(s),
            Outcome::Unsupported => res matches Err(e) && e is UnsupportedError && e.text()
                == unsupported_text(),
            Outcome::EndOfStream => res matches Err(e) && e is IoError && e.text()
                == eof_text(),
        }
    }
}

/// How many whole elements of `width` bytes lie between `offset` and the end
/// of `len` bytes of data.
pub open spec fn elements_available(len: nat, offset: nat, width: nat) -> nat
    recommends
        width > 0,
{
    if offset <= len {
        (len - offset) as nat / width
    } else {
        0
    }
}

/// One record of a tag directory: the declared type, the declared number of
/// elements, and the four-byte slot.
#[derive(Debug, PartialEq, Eq)]
pub struct Entry {
    type_: Type,
    count: u32,
    offset: [u8; 4],
}

/// The fields of an entry.
pub struct EntryFields {
    pub type_: Type,
    pub count: u32,
    pub offset: [u8; 4],
}

impl View for Entry {
    type V = EntryFields;

    closed spec fn view(&self) -> EntryFields {
        EntryFields { type_: self.type_, count: self.count, offset: self.offset }
    }
}

impl EntryFields {
    /// How the slot is read: as the value, as the offset of the value, or
    /// not at all where the type and count have no decoding rule.
    pub open spec fn value_type(self) -> Option<Value_Type> {
        match self.type_ {
            Type::BYTE => if self.count == 1 {
                Some(Value_Type::Value)
            } else {
                None
            },
            Type::SHORT => if self.count == 1 || self.count == 2 {
                Some(Value_Type::Value)
            } else {
                Some(Value_Type::Offset)
            },
            Type::LONG => if self.count == 1 {
                Some(Value_Type::Value)
            } else {
                Some(Value_Type::Offset)
            },
            _ => None,
        }
    }

    /// The value that the slot itself holds, for an entry whose slot is read
    /// as the value.
    pub open spec fn inline_outcome(self, order: ByteOrder) -> Outcome
        recommends
            self.value_type() == Some(Value_Type::Value),
    {
        let s = self.offset;
        match self.type_ {
            Type::BYTE => Outcome::Scalar(s[0] as u32),
            Type::SHORT => if self.count == 1 {
                Outcome::Scalar(u16_of(s[0], s[1], order) as u32)
            } else {
                Outcome::Sequence(
                    seq![u16_of(s[0], s[1], order) as u32, u16_of(s[2], s[3], order) as u32],
                )
            },
            _ => Outcome::Scalar(u32_of(s[0], s[1], s[2], s[3], order)),
        }
    }

    /// The slot read as an offset into the file.
    pub open spec fn data_offset(self, order: ByteOrder) -> u32 {
        let s = self.offset;
        u32_of(s[0], s[1], s[2], s[3], order)
    }

    /// The element with index `i` of the entry's data stored in `data`.
    pub open spec fn stored_element(self, data: Seq<u8>, order: ByteOrder, i: int) -> u32
        recommends
            self.value_type() == Some(Value_Type::Offset),
    {
        if self.type_ == Type::SHORT {
            u16_at(data, self.data_offset(order) + 2 * i, order) as u32
        } else {
            u32_at(data, self.data_offset(order) + 4 * i, order)
        }
    }

    /// The number of elements that can be read before the data ends or the
    /// declared count is reached.
    pub open spec fn elements_read(self, data: Seq<u8>, order: ByteOrder) -> nat
        recommends
            self.value_type() == Some(Value_Type::Offset),
    {
        let available = elements_available(
            data.len(),
            self.data_offset(order) as nat,
            self.type_.spec_byte_width() as nat,
        );
        if self.count <= available {
            self.count as nat
        } else {
            available
        }
    }

    /// The number of bytes that `elements` elements of the entry's data take:
    /// two for each SHORT, four for each LONG.
    pub open spec fn bytes_of(self, elements: nat) -> nat
        recommends
            self.value_type() == Some(Value_Type::Offset),
    {
        if self.type_ == Type::SHORT {
            2 * elements
        } else {
            4 * elements
        }
    }

    /// What resolving the entry against a decoder in state `state` returns,
    /// and the state that it leaves the decoder in.
    pub open spec fn resolve(self, state: ReaderState) -> (Outcome, ReaderState) {
        let order = state.byte_order;
        match self.value_type() {
            None => (Outcome::Unsupported, state),
            Some(Value_Type::Value) => (self.inline_outcome(order), state),
            Some(Value_Type::Offset) => {
                let read = self.elements_read(state.data, order);
                let end = state.at(self.data_offset(order) as nat + self.bytes_of(read));
                if read == self.count {
                    (
                        Outcome::Sequence(
                            Seq::new(
                                self.count as nat,
                                |i: int| self.stored_element(state.data, order, i),
                            ),
                        ),
                        end,
                    )
                } else {
                    (Outcome::EndOfStream, end)
                }
            },
        }
    }
}

impl Entry {
    /// An entry with the given type, count and slot.
    pub fn new(type_: Type, count: u32, offset: [u8; 4]) -> (entry: Entry)
        ensures
            entry@ == (EntryFields { type_, count, offset }),
    {
        Entry { type_: type_, count: count, offset: offset }
    }

    /// A reader over the four bytes of the slot, at their start.
    pub fn r(&self, byte_order: ByteOrder) -> (reader: SmartReader)
        ensures
            reader@ == (ReaderState { data: self@.offset@, position: 0, byte_order }),
    {
        let mut data: Vec<u8> = Vec::new();
        data.push(self.offset[0]);
        data.push(self.offset[1]);
        data.push(self.offset[2]);
        data.push(self.offset[3]);
        assert(data@ =~= self.offset@);
        SmartReader::wrap(data, byte_order)
    }

    /// How the slot is read: as the value, as the offset of the value, or
    /// not at all where the type and count have no decoding rule.
    pub fn value_type(&self) -> (kind: Option<Value_Type>)
        ensures
            kind == self@.value_type(),
    {
        match (self.type_, self.count) {
            (Type::BYTE, 1) => Some(Value_Type::Value),
            (Type::SHORT, 1) => Some(Value_Type::Value),
            (Type::SHORT, 2) => Some(Value_Type::Value),
            (Type::SHORT, _) => Some(Value_Type::Offset),
            (Type::LONG, 1) => Some(Value_Type::Value),
            (Type::LONG, _) => Some(Value_Type::Offset),
            _ => None,
        }
    }

    /// Resolves the entry to its value.
    ///
    /// One BYTE, one or two SHORTs and one LONG are decoded from the slot, in
    /// the decoder's byte order, and the decoder is left as it was. Any other
    /// number of SHORTs or LONGs is read from the decoder's data: the slot
    /// holds the offset of the first element, the cursor is moved there, and
    /// the elements are read one after the other, which leaves the cursor
    /// behind the last one. Where the data ends first, the result is the I/O
    /// error and the cursor stands behind the last whole element. Every other
    /// type and count is unsupported.
    pub fn val(&self, decoder: &mut TIFFDecoder) -> (res: ImageResult<Value>)
        ensures
            self@.resolve(old(decoder)@).0.is_result(res),
            final(decoder)@ == self@.resolve(old(decoder)@).1,
    {
        let bo = decoder.byte_order();
        match (self.type_, self.count) {
            (Type::BYTE, 1) => Ok(Value::Unsigned(self.offset[0] as u32)),
            (Type::SHORT, 1) => Ok(Value::Unsigned(self.r(bo).read_u16()? as u32)),
            (Type::SHORT, 2) => {
                let mut r = self.r(bo);
                let first: u16 = r.read_u16()?;
                let second: u16 = r.read_u16()?;
                let mut v: Vec<Value> = Vec::new();
                v.push(Value::Unsigned(first as u32));
                v.push(Value::Unsigned(second as u32));
                proof {
                    list_of_scalars(v, seq![first as u32, second as u32]);
                }
                Ok(Value::List(v))
            },
            (Type::SHORT, n) => {
                let mut v: Vec<Value> = Vec::new();
                let start: u32 = self.r(bo).read_u32()?;
                decoder.goto_offset(start);
                let mut i: u32 = 0;
                while i < n
                    invariant
                        i <= n,
                        n == self@.count,
                        self@.type_ == Type::SHORT,
                        self@.value_type() == Some(Value_Type::Offset),
                        start == self@.data_offset(old(decoder)@.byte_order),
                        decoder@ == old(decoder)@.at(start as nat + 2 * i as nat),
                        i <= elements_available(old(decoder)@.data.len(), start as nat, 2),
                        v@.len() == i,
                        forall|j: int|
                            0 <= j < i ==> (#[trigger] v@[j]) == Value::Unsigned(
                                self@.stored_element(
                                    old(decoder)@.data,
                                    old(decoder)@.byte_order,
                                    j,
                                ),
                            ),
                    decreases n - i,
                {
                    let x: u16 = decoder.read_short()?;
                    v.push(Value::Unsigned(x as u32));
                    i = i + 1;
                }
                proof {
                    list_of_scalars(
                        v,
                        Seq::new(
                            n as nat,
                            |j: int|
                                self@.stored_element(
                                    old(decoder)@.data,
                                    old(decoder)@.byte_order,
                                    j,
                                ),
                        ),
                    );
                }
                Ok(Value::List(v))
            },
            (Type::LONG, 1) => Ok(Value::Unsigned(self.r(bo).read_u32()?)),
            (Type::LONG, n) => {
                let mut v: Vec<Value> = Vec::new();
                let start: u32 = self.r(bo).read_u32()?;
                decoder.goto_offset(start);
                let mut i: u32 = 0;
                while i < n
                    invariant
                        i <= n,
                        n == self@.count,
                        self@.type_ == Type::LONG,
                        self@.value_type() == Some(Value_Type::Offset),
                        start == self@.data_offset(old(decoder)@.byte_order),
                        decoder@ == old(decoder)@.at(start as nat + 4 * i as nat),
                        i <= elements_available(old(decoder)@.data.len(), start as nat, 4),
                        v@.len() == i,
                        forall|j: int|
                            0 <= j < i ==> (#[trigger] v@[j]) == Value::Unsigned(
                                self@.stored_element(
                                    old(decoder)@.data,
                                    old(decoder)@.byte_order,
                                    j,
                                ),
                            ),
                    decreases n - i,
                {
                    let x: u32 = decoder.read_long()?;
                    v.push(Value::Unsigned(x));
                    i = i + 1;
                }
                proof {
                    list_of_scalars(
                        v,
                        Seq::new(
                            n as nat,
                            |j: int|
                                self@.stored_element(
                                    old(decoder)@.data,
                                    old(decoder)@.byte_order,
                                    j,
                                ),
                        ),
                    );
                }
                Ok(Value::List(v))
            },
            _ => Err(ImageError::unsupported()),
        }
    }
}

/// A value that is decoded from the slot fits into the slot: its elements
/// take at most four bytes. Resolving it leaves the decoder as it was.
pub proof fn inline_value_fits_slot(entry: EntryFields, state: ReaderState)
    requires
        entry.value_type() == Some(Value_Type::Value),
    ensures
        entry.type_.spec_byte_width() * entry.count <= 4,
        entry.resolve(state).1 == state,
        entry.resolve(state).0 is Scalar || entry.resolve(state).0 is Sequence,
{
}

/// A single BYTE is the first byte of the slot, whatever the byte order.
pub proof fn single_byte_ignores_byte_order(entry: EntryFields, state: ReaderState)
    requires
        entry.type_ == Type::BYTE,
        entry.count == 1,
    ensures
        entry.resolve(state).0 == Outcome::Scalar(entry.offset[0] as u32),
{
}

/// Only BYTE, SHORT and LONG have a decoding rule, and BYTE only with a count
/// of one: everything else is unsupported, and the decoder stays as it was.
pub proof fn other_types_are_unsupported(entry: EntryFields, state: ReaderState)
    requires
        (entry.type_ != Type::SHORT && entry.type_ != Type::LONG && entry.type_ != Type::BYTE)
            || (entry.type_ == Type::BYTE && entry.count != 1),
    ensures
        entry.value_type() is None,
        entry.resolve(state) == (Outcome::Unsupported, state),
{
}

/// The elements of an entry that is read from the data take as many bytes
/// as the width of its type times its count.
pub proof fn bytes_of_all_elements(entry: EntryFields)
    requires
        entry.value_type() == Some(Value_Type::Offset),
    ensures
        entry.bytes_of(entry.count as nat) == entry.type_.spec_byte_width() * entry.count,
{
    let width = entry.type_.spec_byte_width();
    let count = entry.count;
    if entry.type_ == Type::SHORT {
        assert(width * count == 2 * count) by (nonlinear_arith)
            requires
                width == 2,
        ;
    } else {
        assert(width * count == 4 * count) by (nonlinear_arith)
            requires
                width == 4,
        ;
    }
}

/// Where all the elements of an entry that is read from the data lie within
/// the data, resolving it gives as many integers as the entry declares and
/// leaves the cursor directly behind the last of them. An entry without
/// elements resolves to the empty list wherever its offset points.
pub proof fn stored_value_leaves_cursor_behind(entry: EntryFields, state: ReaderState)
    requires
        entry.value_type() == Some(Value_Type::Offset),
        entry.count == 0 || entry.data_offset(state.byte_order)
            + entry.type_.spec_byte_width() * entry.count <= state.data.len(),
    ensures
        entry.resolve(state).0 matches Outcome::Sequence(s) && s.len() == entry.count,
        entry.resolve(state).1 == state.at(
            (entry.data_offset(state.byte_order) + entry.type_.spec_byte_width()
                * entry.count) as nat,
        ),
{
    bytes_of_all_elements(entry);
    assert(entry.type_.spec_byte_width() == 2 || entry.type_.spec_byte_width() == 4);
}

/// Where the data ends before the last element of an entry that is read
/// from the data, resolving it fails with the I/O error.
pub proof fn truncated_value_is_an_error(entry: EntryFields, state: ReaderState)
    requires
        entry.value_type() == Some(Value_Type::Offset),
        entry.count > 0,
        entry.data_offset(state.byte_order) + entry.type_.spec_byte_width() * entry.count
            > state.data.len(),
    ensures
        entry.resolve(state).0 == Outcome::EndOfStream,
{
    bytes_of_all_elements(entry);
    assert(entry.type_.spec_byte_width() == 2 || entry.type_.spec_byte_width() == 4);
}

/// What an entry resolves to depends on the data and the byte order, not on
/// where the cursor stands.
pub proof fn resolution_ignores_cursor(entry: EntryFields, a: ReaderState, b: ReaderState)
    requires
        a.data == b.data,
        a.byte_order == b.byte_order,
    ensures
        entry.resolve(a).0 == entry.resolve(b).0,
        entry.resolve(a).1.data == a.data,
        entry.resolve(a).1.byte_order == a.byte_order,
{
}

/// Resolving an entry a second time, with the decoder as the first time left
/// it, gives the same outcome and leaves the decoder in the same state.
pub proof fn resolution_is_repeatable(entry: EntryFields, state: ReaderState)
    ensures
        entry.resolve(entry.resolve(state).1) == entry.resolve(state),
{
}

} // verus!
