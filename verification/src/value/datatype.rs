//! The XSD datatypes derived from `xsd:nonNegativeInteger`.
use vstd::prelude::*;

verus! {

/// `xsd:unsignedShort` and its derived datatype.
#[derive(Clone, Copy, Debug, PartialEq, Eq, Structural)]
pub enum UnsignedShortDatatype {
    UnsignedShort,
    UnsignedByte,
}

/// `xsd:unsignedInt` and its derived datatypes.
#[derive(Clone, Copy, Debug, PartialEq, Eq, Structural)]
pub enum UnsignedIntDatatype {
    UnsignedInt,
    UnsignedShort(UnsignedShortDatatype),
}

/// `xsd:unsignedLong` and its derived datatypes.
#[derive(Clone, Copy, Debug, PartialEq, Eq, Structural)]
pub enum UnsignedLongDatatype {
    UnsignedLong,
    UnsignedInt(UnsignedIntDatatype),
}

/// `xsd:nonNegativeInteger` and its derived datatypes.
#[derive(Clone, Copy, Debug, PartialEq, Eq, Structural)]
pub enum NonNegativeIntegerDatatype {
    NonNegativeInteger,
    PositiveInteger,
    UnsignedLong(UnsignedLongDatatype),
}

/// `xsd:unsignedByte`.
pub open spec fn unsigned_byte() -> NonNegativeIntegerDatatype {
    NonNegativeIntegerDatatype::UnsignedLong(
        UnsignedLongDatatype::UnsignedInt(
            UnsignedIntDatatype::UnsignedShort(UnsignedShortDatatype::UnsignedByte),
        ),
    )
}

/// `xsd:unsignedShort`.
pub open spec fn unsigned_short() -> NonNegativeIntegerDatatype {
    NonNegativeIntegerDatatype::UnsignedLong(
        UnsignedLongDatatype::UnsignedInt(
            UnsignedIntDatatype::UnsignedShort(UnsignedShortDatatype::UnsignedShort),
        ),
    )
}

/// `xsd:unsignedInt`.
pub open spec fn unsigned_int() -> NonNegativeIntegerDatatype {
    NonNegativeIntegerDatatype::UnsignedLong(UnsignedLongDatatype::UnsignedInt(UnsignedIntDatatype::UnsignedInt))
}

/// `xsd:unsignedLong`.
pub open spec fn unsigned_long() -> NonNegativeIntegerDatatype {
    NonNegativeIntegerDatatype::UnsignedLong(UnsignedLongDatatype::UnsignedLong)
}

/// The most specific of these datatypes whose value space holds `n`,
/// zero aside: zero gets `xsd:nonNegativeInteger`.
pub open spec fn datatype_of(n: nat) -> NonNegativeIntegerDatatype {
    if n == 0 {
        NonNegativeIntegerDatatype::NonNegativeInteger
    } else if n <= 0xff {
        unsigned_byte()
    } else if n <= 0xffff {
        unsigned_short()
    } else if n <= 0xffff_ffff {
        unsigned_int()
    } else if n <= 0xffff_ffff_ffff_ffff {
        unsigned_long()
    } else {
        NonNegativeIntegerDatatype::PositiveInteger
    }
}

} // verus!
