//! The decoded value of a directory entry: one unsigned integer or a list of
//! values, with the accessors that reduce it to integers.

use vstd::prelude::*;
use crate::error::{ImageError, ImageResult};

verus! {

/// A decoded value.
#[derive(Debug, PartialEq, Eq)]
pub enum Value {
    /// A single unsigned 32-bit integer.
    Unsigned(u32),
    /// An ordered sequence of values.
    List(Vec<Value>),
}

/// The two readings of an entry's four-byte slot.
#[allow(non_camel_case_types)]
#[derive(Clone, Copy, Debug, PartialEq, Eq, Structural)]
pub enum Value_Type {
    /// The slot holds the value itself.
    Value,
    /// The slot holds the offset at which the value is stored.
    Offset,
}

/// The character that writes the decimal digit `d`.
pub open spec fn digit_char(d: nat) -> char
    recommends
        d < 10,
{
    if d == 0 {
        '0'
    } else if d == 1 {
        '1'
    } else if d == 2 {
        '2'
    } else if d == 3 {
        '3'
    } else if d == 4 {
        '4'
    } else if d == 5 {
        '5'
    } else if d == 6 {
        '6'
    } else if d == 7 {
        '7'
    } else if d == 8 {
        '8'
    } else {
        '9'
    }
}

/// The decimal numeral of `n`, without leading zeros.
pub open spec fn decimal_text(n: nat) -> Seq<char>
    decreases n,
{
    if n < 10 {
        seq![digit_char(n)]
    } else {
        decimal_text(n / 10) + seq![digit_char(n % 10)]
    }
}

/// The first `upto` values of `items`, each written as `Value::debug_text`
/// writes it, with a comma and a space between neighbours.
pub open spec fn items_text(items: Seq<Value>, upto: nat) -> Seq<char>
    decreases items, upto,
{
    if upto == 0 || upto > items.len() {
        Seq::<char>::empty()
    } else if upto == 1 {
        items[0].debug_text()
    } else {
        items_text(items, (upto - 1) as nat) + ", "@ + items[upto - 1].debug_text()
    }
}

/// The text of the failure to read `found` as a single unsigned integer.
pub open spec fn mismatch_text(found: Value) -> Seq<char> {
    "Expected unsigned integer, "@ + found.debug_text() + " found."@
}

/// A list whose elements are the single integers of `s`, in order, reads as
/// the sequence `s`.
pub proof fn list_of_scalars(items: Vec<Value>, s: Seq<u32>)
    requires
        items@.len() == s.len(),
        forall|i: int| 0 <= i < s.len() ==> (#[trigger] items@[i]) == Value::Unsigned(s[i]),
    ensures
        Value::List(items).spec_as_u32_vec() == Some(s),
{
}

/// A single integer reads as itself and as the sequence of itself alone. A
/// list never reads as a single integer, and it reads as a sequence exactly
/// when each of its elements is a single integer; the sequence then holds
/// those integers in the list's order.
pub proof fn accessor_laws(n: u32, items: Vec<Value>)
    ensures
        Value::Unsigned(n).spec_as_u32() == Some(n),
        Value::Unsigned(n).spec_as_u32_vec() == Some(seq![n]),
        Value::List(items).spec_as_u32() is None,
        Value::List(items).spec_as_u32_vec() is Some <==> forall|i: int|
            0 <= i < items@.len() ==> (#[trigger] items@[i]).spec_as_u32() is Some,
        Value::List(items).spec_as_u32_vec() matches Some(s) ==> s.len() == items@.len()
            && forall|i: int|
            0 <= i < items@.len() ==> (#[trigger] items@[i]).spec_as_u32() == Some(s[i]),
{
    assert forall|i: int| 0 <= i < items@.len() implies ((#[trigger] items@[i]) is Unsigned
        <==> items@[i].spec_as_u32() is Some) by {}
}

/// Appends the decimal numeral of `n` to `out`.
fn write_decimal(n: u32, out: &mut String)
    ensures
        final(out)@ == old(out)@ + decimal_text(n as nat),
    decreases n,
{
    if n >= 10 {
        write_decimal(n / 10, out);
    }
    let d: u32 = n % 10;
    proof {
        reveal_strlit("0");
        reveal_strlit("1");
        reveal_strlit("2");
        reveal_strlit("3");
        reveal_strlit("4");
        reveal_strlit("5");
        reveal_strlit("6");
        reveal_strlit("7");
        reveal_strlit("8");
        reveal_strlit("9");
    }
    let digit: &str = if d == 0 {
        "0"
    } else if d == 1 {
        "1"
    } else if d == 2 {
        "2"
    } else if d == 3 {
        "3"
    } else if d == 4 {
        "4"
    } else if d == 5 {
        "5"
    } else if d == 6 {
        "6"
    } else if d == 7 {
        "7"
    } else if d == 8 {
        "8"
    } else {
        "9"
    };
    out.append(digit);
}

impl Value {
    /// The value written out: `Unsigned(7)`, `List([Unsigned(1), Unsigned(2)])`.
    pub open spec fn debug_text(self) -> Seq<char>
        decreases self, 0nat,
    {
        match self {
            Value::Unsigned(n) => "Unsigned("@ + decimal_text(n as nat) + ")"@,
            Value::List(items) => "List(["@ + items_text(items@, items@.len()) + "])"@,
        }
    }

    /// The integer that the value holds, if it is a single integer.
    pub open spec fn spec_as_u32(self) -> Option<u32> {
        match self {
            Value::Unsigned(n) => Some(n),
            Value::List(_) => None,
        }
    }

    /// The integers that the value holds, if it is a single integer or a
    /// list whose elements are all single integers.
    pub open spec fn spec_as_u32_vec(self) -> Option<Seq<u32>> {
        match self {
            Value::Unsigned(n) => Some(seq![n]),
            Value::List(items) => if forall|i: int|
                0 <= i < items@.len() ==> (#[trigger] items@[i]) is Unsigned {
                Some(Seq::new(items@.len(), |i: int| items@[i]->Unsigned_0))
            } else {
                None
            },
        }
    }

    /// Appends the written-out value to `out`.
    fn write_debug(&self, out: &mut String)
        ensures
            final(out)@ == old(out)@ + self.debug_text(),
        decreases self,
    {
        let ghost start = out@;
        match self {
            Value::Unsigned(n) => {
                out.append("Unsigned(");
                write_decimal(*n, out);
                out.append(")");
            },
            Value::List(items) => {
                out.append("List([");
                let mut i: usize = 0;
                while i < items.len()
                    invariant
                        i <= items.len(),
                        self == Value::List(*items),
                        out@ == start + "List(["@ + items_text(items@, i as nat),
                    decreases items.len() - i,
                {
                    if i > 0 {
                        out.append(", ");
                    }
                    assert(decreases_to!(*self => self->List_0[i as int]));
                    items[i].write_debug(out);
                    i = i + 1;
                }
                out.append("])");
            },
        }
    }

    /// The failure to read `self` as a single unsigned integer.
    fn mismatch(&self) -> (e: ImageError)
        ensures
            e is FormatError,
            e.text() == mismatch_text(*self),
    {
        let mut msg: String = String::from_str("Expected unsigned integer, ");
        self.write_debug(&mut msg);
        msg.append(" found.");
        ImageError::FormatError(msg)
    }

    /// The integer of a value that is a single integer.
    fn scalar(&self) -> (res: ImageResult<u32>)
        ensures
            self.spec_as_u32() matches Some(n) ==> res == Ok::<u32, ImageError>(n),
            self.spec_as_u32() is None ==> res is Err && res->Err_0 is FormatError
                && res->Err_0.text() == mismatch_text(*self),
    {
        match self {
            Value::Unsigned(val) => Ok(*val),
            val => Err(val.mismatch()),
        }
    }

    /// Reads the value as a single unsigned integer. A list, whatever it
    /// holds, is a format error that says what was found.
    pub fn as_u32(self) -> (res: ImageResult<u32>)
        ensures
            self is Unsigned ==> res == Ok::<u32, ImageError>(self->Unsigned_0),
            self is List ==> res is Err && res->Err_0 is FormatError && res->Err_0.text()
                == mismatch_text(self),
            res is Ok <==> self.spec_as_u32() is Some,
            res matches Ok(n) ==> self.spec_as_u32() == Some(n),
    {
        self.scalar()
    }

    /// Reads the value as a sequence of unsigned integers. A single integer
    /// is a sequence of one. In a list every element must itself be a single
    /// integer: the first element that is a list is a format error that says
    /// what was found.
    pub fn as_u32_vec(self) -> (res: ImageResult<Vec<u32>>)
        ensures
            res is Ok <==> self.spec_as_u32_vec() is Some,
            res matches Ok(v) ==> self.spec_as_u32_vec() == Some(v@),
            res matches Err(e) ==> e is FormatError && self is List && exists|k: int|
                0 <= k < self->List_0@.len() && (#[trigger] self->List_0@[k]) is List && (forall|
                    j: int,
                | 0 <= j < k ==> (#[trigger] self->List_0@[j]) is Unsigned) && e.text()
                    == mismatch_text(self->List_0@[k]),
    {
        match self {
            Value::List(vec) => {
                let mut new_vec: Vec<u32> = Vec::new();
                let mut i: usize = 0;
                while i < vec.len()
                    invariant
                        i <= vec.len(),
                        self == Value::List(vec),
                        new_vec@.len() == i,
                        forall|j: int| 0 <= j < i ==> (#[trigger] vec@[j]) is Unsigned,
                        forall|j: int| 0 <= j < i ==> new_vec@[j] == vec@[j]->Unsigned_0,
                    decreases vec.len() - i,
                {
                    match vec[i].scalar() {
                        Ok(n) => new_vec.push(n),
                        Err(e) => return Err(e),
                    }
                    i = i + 1;
                }
                Ok(new_vec)
            },
            Value::Unsigned(val) => {
                let mut one: Vec<u32> = Vec::new();
                one.push(val);
                Ok(one)
            },
        }
    }
}

} // verus!
