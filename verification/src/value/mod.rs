//! Values of XSD unsigned integers.
pub mod arith;
pub mod bigint;
pub mod conversion;
pub mod datatype;
pub mod le;
pub mod lexical_value;
pub mod ordering;
pub mod unsigned_integer;

pub use datatype::{
    NonNegativeIntegerDatatype, UnsignedIntDatatype, UnsignedLongDatatype, UnsignedShortDatatype,
};
pub use unsigned_integer::UnsignedInteger;
pub use conversion::UnsignedIntegerOutOfTargetBounds;
