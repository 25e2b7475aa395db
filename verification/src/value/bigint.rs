//! The calls into `num_bigint`. Each function below takes and returns
//! minimal little-endian byte spellings (see `crate::value::le`), builds the
//! `BigUint` operands with `BigUint::from_bytes_le`, makes one call, and
//! spells the result with `BigUint::to_bytes_le`, which returns the minimal
//! spelling (`[0]` for zero). Their contracts are trusted, not proved.
use crate::decimal::{decimal_digits, is_lexical, lexical_value};
use crate::lexical::unsigned_integer::ascii_bytes;
use crate::value::le::{is_canonical_le, le_value};
use num_bigint::BigUint;
use num_traits::Num;
use vstd::prelude::*;
use vstd::string::StringSliceAdditionalSpecFns;
use vstd::utf8::is_ascii_chars;

verus! {

/// `num_bigint::BigUint`, carried through opaquely.
#[verifier::external_type_specification]
#[verifier::external_body]
pub struct ExBigUint(BigUint);

/// `BigUint + BigUint` (`impl Add for BigUint`): the sum.
#[verifier::external_body]
pub(crate) fn big_add(a: &[u8], b: &[u8]) -> (r: Vec<u8>)
    ensures
        is_canonical_le(r@),
        le_value(r@) == le_value(a@) + le_value(b@),
{
    (BigUint::from_bytes_le(a) + BigUint::from_bytes_le(b)).to_bytes_le()
}

/// `BigUint - BigUint` (`impl Sub for BigUint`): the difference. The
/// outside code panics when `b` exceeds `a`, which `requires` leaves out.
#[verifier::external_body]
pub(crate) fn big_sub(a: &[u8], b: &[u8]) -> (r: Vec<u8>)
    requires
        le_value(a@) >= le_value(b@),
    ensures
        is_canonical_le(r@),
        le_value(r@) == le_value(a@) - le_value(b@),
{
    (BigUint::from_bytes_le(a) - BigUint::from_bytes_le(b)).to_bytes_le()
}

/// `BigUint * BigUint` (`impl Mul for BigUint`): the product.
#[verifier::external_body]
pub(crate) fn big_mul(a: &[u8], b: &[u8]) -> (r: Vec<u8>)
    ensures
        is_canonical_le(r@),
        le_value(r@) == le_value(a@) * le_value(b@),
{
    (BigUint::from_bytes_le(a) * BigUint::from_bytes_le(b)).to_bytes_le()
}

/// `BigUint / BigUint` (`impl Div for BigUint`): the quotient rounded
/// down. The outside code panics on a zero divisor, which `requires` leaves out.
#[verifier::external_body]
pub(crate) fn big_div(a: &[u8], b: &[u8]) -> (r: Vec<u8>)
    requires
        le_value(b@) != 0,
    ensures
        is_canonical_le(r@),
        le_value(r@) == le_value(a@) / le_value(b@),
{
    (BigUint::from_bytes_le(a) / BigUint::from_bytes_le(b)).to_bytes_le()
}

/// `<BigUint as Display>::fmt` (through `format!("{}")`): the decimal digits
/// of the number, without leading zeros (`"0"` for zero), in ASCII.
#[verifier::external_body]
pub(crate) fn big_to_decimal(a: &[u8]) -> (r: String)
    ensures
        is_ascii_chars(r@),
        ascii_bytes(r@) == decimal_digits(le_value(a@)),
{
    format!("{}", BigUint::from_bytes_le(a))
}

/// `<BigUint as Num>::from_str_radix(s, 10)` on a lexical form (an optional
/// `'+'` and one or more ASCII digits), which it accepts: the number the
/// digits denote.
#[verifier::external_body]
pub(crate) fn big_parse_decimal(s: &str) -> (r: Vec<u8>)
    requires
        is_lexical(s.spec_bytes()),
    ensures
        is_canonical_le(r@),
        le_value(r@) == lexical_value(s.spec_bytes()),
{
    BigUint::from_str_radix(s, 10).unwrap().to_bytes_le()
}

/// The number a `BigUint` holds.
pub uninterp spec fn biguint_value(n: BigUint) -> nat;

/// `BigUint::to_bytes_le`: the minimal little-endian spelling of the number
/// `n` holds (`[0]` for zero).
#[verifier::external_body]
pub(crate) fn biguint_to_le(n: &BigUint) -> (r: Vec<u8>)
    ensures
        is_canonical_le(r@),
        le_value(r@) == biguint_value(*n),
{
    n.to_bytes_le()
}

/// `BigUint::from_bytes_le`: the `BigUint` holding the number a
/// little-endian spelling denotes.
#[verifier::external_body]
pub(crate) fn le_to_biguint(a: &[u8]) -> (r: BigUint)
    ensures
        biguint_value(r) == le_value(a@),
{
    BigUint::from_bytes_le(a)
}

} // verus!
