//! Between the lexical space and the value space: the value a lexical form
//! denotes, and the canonical lexical representation of a value.
use crate::decimal::{
    decimal_digits, is_lexical, lemma_decimal_digits, lexical_value, unsigned_int_max,
};
use crate::lexical::buf::UnsignedIntegerBuf;
use crate::lexical::unsigned_integer::{
    ascii_bytes, InvalidUnsignedInteger, UnsignedInteger as Lexical,
};
use crate::value::bigint::{
    big_parse_decimal, big_to_decimal, biguint_to_le, biguint_value, le_to_biguint,
};
use crate::value::unsigned_integer::UnsignedInteger;
use num_bigint::BigUint;
use vstd::prelude::*;
use vstd::std_specs::convert::FromSpecImpl;
use vstd::string::StringSliceAdditionalSpecFns;
use vstd::utf8::is_ascii_chars;

verus! {

impl Lexical {
    /// The number this lexical form denotes.
    pub fn value(&self) -> (r: UnsignedInteger)
        ensures
            r@ == lexical_value(self@),
    {
        let bytes = big_parse_decimal(self.as_str());
        UnsignedInteger::from_canonical_le(bytes)
    }
}

impl UnsignedIntegerBuf {
    /// The number this lexical form denotes.
    pub fn value(&self) -> (r: UnsignedInteger)
        ensures
            r@ == lexical_value(self@),
    {
        self.as_unsigned_integer().value()
    }
}

impl UnsignedInteger {
    /// Creates a new unsigned integer from a `BigUint`.
    pub fn new(n: BigUint) -> (r: Self)
        ensures
            r@ == biguint_value(n),
    {
        UnsignedInteger::from_canonical_le(biguint_to_le(&n))
    }

    /// Creates a new unsigned integer from a `BigUint` (which is never
    /// negative, so nothing is left to check).
    pub fn new_unchecked(n: BigUint) -> (r: Self)
        ensures
            r@ == biguint_value(n),
    {
        Self::new(n)
    }

    /// The number as a `BigUint`.
    pub fn into_big_uint(self) -> (r: BigUint)
        ensures
            biguint_value(r) == self@,
    {
        le_to_biguint(self.le_bytes().as_slice())
    }

    /// The decimal digits of the number, without leading zeros (`"0"` for
    /// zero): what `Display` shows.
    pub fn to_decimal_string(&self) -> (r: String)
        ensures
            is_ascii_chars(r@),
            ascii_bytes(r@) == decimal_digits(self@),
    {
        big_to_decimal(self.le_bytes().as_slice())
    }

    /// Returns a lexical representation of this unsigned integer: its
    /// decimal digits without leading zeros (`"0"` for zero). Only numbers up
    /// to 4294967295 (the largest `xsd:unsignedInt`) have one; larger values,
    /// which arithmetic, bytes and `BigUint`s can give, are left out.
    pub fn lexical_representation(&self) -> (r: UnsignedIntegerBuf)
        requires
            self@ <= unsigned_int_max(),
        ensures
            r@ == decimal_digits(self@),
            lexical_value(r@) == self@,
    {
        let s = big_to_decimal(self.le_bytes().as_slice());
        proof {
            lemma_decimal_digits(self@);
            assert(crate::decimal::digits_part(decimal_digits(self@)) =~= decimal_digits(self@));
        }
        UnsignedIntegerBuf::from_ascii_string(s)
    }

    /// Parses a lexical form (an `xsd:unsignedInt`, so at most 4294967295)
    /// into the number it denotes.
    pub fn from_str(s: &str) -> (r: Result<Self, InvalidUnsignedInteger>)
        ensures
            r is Ok <==> is_lexical(s.spec_bytes()),
            r matches Ok(v) ==> v@ == lexical_value(s.spec_bytes()),
            r matches Err(e) ==> e.0@ == s@,
    {
        match Lexical::new(s) {
            Ok(l) => Ok(l.value()),
            Err(e) => Err(e),
        }
    }
}

impl From<UnsignedInteger> for BigUint {
    fn from(value: UnsignedInteger) -> (r: BigUint)
        ensures
            biguint_value(r) == value@,
    {
        value.into_big_uint()
    }
}

impl FromSpecImpl<UnsignedInteger> for BigUint {
    /// The result is stated by `from`'s own `ensures`, over the number.
    open spec fn obeys_from_spec() -> bool {
        false
    }

    open spec fn from_spec(v: UnsignedInteger) -> BigUint {
        choose|r: BigUint| biguint_value(r) == v@
    }
}

impl core::str::FromStr for UnsignedInteger {
    type Err = InvalidUnsignedInteger;

    fn from_str(s: &str) -> (r: Result<Self, InvalidUnsignedInteger>)
        ensures
            r is Ok <==> is_lexical(s.spec_bytes()),
            r matches Ok(v) ==> v@ == lexical_value(s.spec_bytes()),
            r matches Err(e) ==> e.0@ == s@,
    {
        UnsignedInteger::from_str(s)
    }
}

impl<'a> From<&'a Lexical> for UnsignedInteger {
    fn from(value: &'a Lexical) -> (r: Self)
        ensures
            r@ == lexical_value(value@),
    {
        value.value()
    }
}

impl<'a> FromSpecImpl<&'a Lexical> for UnsignedInteger {
    /// The result is stated by `from`'s own `ensures`, over the value.
    open spec fn obeys_from_spec() -> bool {
        false
    }

    open spec fn from_spec(v: &'a Lexical) -> Self {
        choose|r: Self| r@ == lexical_value(v@)
    }
}

impl From<UnsignedIntegerBuf> for UnsignedInteger {
    fn from(value: UnsignedIntegerBuf) -> (r: Self)
        ensures
            r@ == lexical_value(value@),
    {
        value.value()
    }
}

impl FromSpecImpl<UnsignedIntegerBuf> for UnsignedInteger {
    /// The result is stated by `from`'s own `ensures`, over the value.
    open spec fn obeys_from_spec() -> bool {
        false
    }

    open spec fn from_spec(v: UnsignedIntegerBuf) -> Self {
        choose|r: Self| r@ == lexical_value(v@)
    }
}

} // verus!
