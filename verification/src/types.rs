//! The catalog of the primitive encodings that a directory entry can declare.

use vstd::prelude::*;

verus! {

/// The on-disk encoding of the elements of an entry.
#[allow(non_camel_case_types)]
#[derive(Clone, Copy, Debug, PartialEq, Eq, Structural)]
pub enum Type {
    /// Unsigned 8-bit integer.
    BYTE,
    /// 8-bit character of a NUL-terminated string.
    ASCII,
    /// Unsigned 16-bit integer.
    SHORT,
    /// Unsigned 32-bit integer.
    LONG,
    /// Two LONGs: numerator and denominator.
    RATIONAL,
    /// Signed 8-bit integer.
    SBYTE,
    /// Opaque 8-bit datum.
    UNDEFINED,
    /// Signed 16-bit integer.
    SSHORT,
    /// Signed 32-bit integer.
    SLONG,
    /// Two SLONGs: numerator and denominator.
    SRATIONAL,
    /// 32-bit IEEE floating point number.
    FLOAT,
    /// 64-bit IEEE floating point number.
    DOUBLE,
}

impl Type {
    /// The numeric code that the format assigns to the type.
    pub open spec fn spec_code(self) -> u16 {
        match self {
            Type::BYTE => 1,
            Type::ASCII => 2,
            Type::SHORT => 3,
            Type::LONG => 4,
            Type::RATIONAL => 5,
            Type::SBYTE => 6,
            Type::UNDEFINED => 7,
            Type::SSHORT => 8,
            Type::SLONG => 9,
            Type::SRATIONAL => 10,
            Type::FLOAT => 11,
            Type::DOUBLE => 12,
        }
    }

    /// The type that a numeric code stands for, if it stands for one.
    pub open spec fn from_code(code: u16) -> Option<Type> {
        if code == 1 {
            Some(Type::BYTE)
        } else if code == 2 {
            Some(Type::ASCII)
        } else if code == 3 {
            Some(Type::SHORT)
        } else if code == 4 {
            Some(Type::LONG)
        } else if code == 5 {
            Some(Type::RATIONAL)
        } else if code == 6 {
            Some(Type::SBYTE)
        } else if code == 7 {
            Some(Type::UNDEFINED)
        } else if code == 8 {
            Some(Type::SSHORT)
        } else if code == 9 {
            Some(Type::SLONG)
        } else if code == 10 {
            Some(Type::SRATIONAL)
        } else if code == 11 {
            Some(Type::FLOAT)
        } else if code == 12 {
            Some(Type::DOUBLE)
        } else {
            None
        }
    }

    /// The number of bytes that one element of the type takes on disk.
    pub open spec fn spec_byte_width(self) -> u8 {
        match self {
            Type::BYTE | Type::ASCII | Type::SBYTE | Type::UNDEFINED => 1,
            Type::SHORT | Type::SSHORT => 2,
            Type::LONG | Type::SLONG | Type::FLOAT => 4,
            Type::RATIONAL | Type::SRATIONAL | Type::DOUBLE => 8,
        }
    }

    /// Looks a numeric type code up. Codes 1 to 12 are defined; every other
    /// code gives `None`.
    pub fn from_u16(n: u16) -> (t: Option<Type>)
        ensures
            t == Type::from_code(n),
            t is Some <==> 1 <= n <= 12,
            t matches Some(ty) ==> ty.spec_code() == n,
    {
        match n {
            1 => Some(Type::BYTE),
            2 => Some(Type::ASCII),
            3 => Some(Type::SHORT),
            4 => Some(Type::LONG),
            5 => Some(Type::RATIONAL),
            6 => Some(Type::SBYTE),
            7 => Some(Type::UNDEFINED),
            8 => Some(Type::SSHORT),
            9 => Some(Type::SLONG),
            10 => Some(Type::SRATIONAL),
            11 => Some(Type::FLOAT),
            12 => Some(Type::DOUBLE),
            _ => None,
        }
    }

    /// The numeric code that the format assigns to the type.
    #[verifier::when_used_as_spec(spec_code)]
    pub fn code(self) -> (c: u16)
        ensures
            c == self.spec_code(),
            1 <= c <= 12,
            Type::from_code(c) == Some(self),
    {
        match self {
            Type::BYTE => 1,
            Type::ASCII => 2,
            Type::SHORT => 3,
            Type::LONG => 4,
            Type::RATIONAL => 5,
            Type::SBYTE => 6,
            Type::UNDEFINED => 7,
            Type::SSHORT => 8,
            Type::SLONG => 9,
            Type::SRATIONAL => 10,
            Type::FLOAT => 11,
            Type::DOUBLE => 12,
        }
    }

    /// The number of bytes that one element of the type takes on disk.
    #[verifier::when_used_as_spec(spec_byte_width)]
    pub fn byte_width(self) -> (w: u8)
        ensures
            w == self.spec_byte_width(),
            w == 1 || w == 2 || w == 4 || w == 8,
    {
        match self {
            Type::BYTE | Type::ASCII | Type::SBYTE | Type::UNDEFINED => 1,
            Type::SHORT | Type::SSHORT => 2,
            Type::LONG | Type::SLONG | Type::FLOAT => 4,
            Type::RATIONAL | Type::SRATIONAL | Type::DOUBLE => 8,
        }
    }
}

/// Looking a type's own code up gives the type back.
pub proof fn type_code_round_trip(t: Type)
    ensures
        Type::from_code(t.spec_code()) == Some(t),
{
}

/// A code that names a type is the code of that type, and only the codes
/// from 1 to 12 name one.
pub proof fn type_lookup_round_trip(code: u16)
    ensures
        Type::from_code(code) is Some <==> 1 <= code <= 12,
        Type::from_code(code) matches Some(t) ==> t.spec_code() == code,
{
}

} // verus!
