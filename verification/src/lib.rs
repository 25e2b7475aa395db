//! XSD unsigned integers: the lexical space (strings such as `"+007"`) and
//! the value space (arbitrary-precision non-negative integers).
pub mod decimal;
pub mod laws;
pub mod lexical;
pub mod value;

pub use value::{
    NonNegativeIntegerDatatype, UnsignedIntDatatype, UnsignedInteger, UnsignedLongDatatype,
    UnsignedShortDatatype,
};
