//! Lexical forms of XSD unsigned integers.
pub mod buf;
pub mod check;
pub mod conversion;
pub mod ordering;
pub mod unsigned_integer;

pub use buf::UnsignedIntegerBuf;
pub use check::{check, check_bytes};
pub use ordering::numeric_order;
pub use unsigned_integer::{InvalidUnsignedInteger, Sign, UnsignedInteger};
pub use conversion::Overflow;
