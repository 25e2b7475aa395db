//! The owned lexical form, which also offers the constants zero and one.
use crate::decimal::{decimal_digits, is_lexical, lexical_value};
use crate::lexical::unsigned_integer::{ascii_bytes, InvalidUnsignedInteger, UnsignedInteger};
use vstd::prelude::*;
use vstd::string::{is_ascii, is_ascii_spec_bytes, StringSliceAdditionalSpecFns};
use vstd::utf8::{encode_utf8, is_ascii_chars};

verus! {

/// Owned unsigned integer number, in lexical form.
///
/// See: <http://www.w3.org/2001/XMLSchema#unsignedInt>
#[derive(Debug)]
pub struct UnsignedIntegerBuf {
    inner: UnsignedInteger,
}

impl View for UnsignedIntegerBuf {
    type V = Seq<u8>;

    /// The bytes of the lexical form.
    closed spec fn view(&self) -> Seq<u8> {
        self.inner@
    }
}

impl UnsignedIntegerBuf {
    /// Creates a new unsigned integer from a string.
    ///
    /// The input string must be a valid XSD unsignedInt; otherwise an
    /// [`InvalidUnsignedInteger`] error holding the input is returned.
    pub fn new(s: String) -> (r: Result<Self, InvalidUnsignedInteger>)
        ensures
            r is Ok <==> is_lexical(encode_utf8(s@)),
            r matches Ok(v) ==> v@ == encode_utf8(s@),
            r matches Err(e) ==> e.0@ == s@,
    {
        let parsed = UnsignedInteger::new(s.as_str());
        match parsed {
            Ok(inner) => Ok(UnsignedIntegerBuf { inner }),
            Err(_) => Err(InvalidUnsignedInteger(s)),
        }
    }

    /// Creates a new unsigned integer from a string the caller has already
    /// checked to be a lexical form.
    pub fn new_unchecked(s: String) -> (r: Self)
        requires
            is_lexical(encode_utf8(s@)),
        ensures
            r@ == encode_utf8(s@),
    {
        UnsignedIntegerBuf { inner: UnsignedInteger::new_unchecked(s.as_str()) }
    }

    /// Parses a string (see [`UnsignedIntegerBuf::new`]).
    pub fn from_str(s: &str) -> (r: Result<Self, InvalidUnsignedInteger>)
        ensures
            r is Ok <==> is_lexical(s.spec_bytes()),
            r matches Ok(v) ==> v@ == s.spec_bytes(),
            r matches Err(e) ==> e.0@ == s@,
    {
        match UnsignedInteger::new(s) {
            Ok(inner) => Ok(UnsignedIntegerBuf { inner }),
            Err(e) => Err(e),
        }
    }

    /// Wraps a borrowed-form value.
    pub fn from_unsigned_integer(inner: UnsignedInteger) -> (r: Self)
        ensures
            r@ == inner@,
    {
        UnsignedIntegerBuf { inner }
    }

    /// Wraps an ASCII string that spells a lexical form.
    pub(crate) fn from_ascii_string(s: String) -> (r: Self)
        requires
            is_ascii_chars(s@),
            is_lexical(ascii_bytes(s@)),
        ensures
            r@ == ascii_bytes(s@),
    {
        let text = s.as_str();
        proof {
            broadcast use is_ascii_spec_bytes;

            assert(is_ascii(text));
            assert(text.spec_bytes() =~= ascii_bytes(s@));
        }
        UnsignedIntegerBuf { inner: UnsignedInteger::new_unchecked(text) }
    }

    /// The lexical form as a string.
    pub fn as_str(&self) -> (r: &str)
        ensures
            r.spec_bytes() == self@,
            is_lexical(self@),
    {
        self.inner.as_str()
    }

    /// The lexical form as an owned string.
    pub fn into_string(self) -> (r: String)
        ensures
            encode_utf8(r@) == self@,
    {
        self.inner.into_string()
    }

    /// The borrowed form.
    pub fn as_unsigned_integer(&self) -> (r: &UnsignedInteger)
        ensures
            r@ == self@,
    {
        &self.inner
    }

    /// The borrowed form, by value.
    pub fn into_unsigned_integer(self) -> (r: UnsignedInteger)
        ensures
            r@ == self@,
    {
        self.inner
    }

    /// The number zero, spelled `"0"`.
    pub fn zero() -> (r: Self)
        ensures
            r@ == decimal_digits(0),
            lexical_value(r@) == 0,
    {
        let text = "0";
        proof {
            reveal_strlit("0");
            broadcast use is_ascii_spec_bytes;

            assert(is_ascii(text));
            assert(text.spec_bytes() =~= seq![48u8]);
            assert(decimal_digits(0) =~= seq![48u8]);
            crate::decimal::lemma_decimal_digits(0);
        }
        UnsignedIntegerBuf { inner: UnsignedInteger::new_unchecked(text) }
    }

    /// The number one, spelled `"1"`.
    pub fn one() -> (r: Self)
        ensures
            r@ == decimal_digits(1),
            lexical_value(r@) == 1,
    {
        let text = "1";
        proof {
            reveal_strlit("1");
            broadcast use is_ascii_spec_bytes;

            assert(is_ascii(text));
            assert(text.spec_bytes() =~= seq![49u8]);
            assert(decimal_digits(1) =~= seq![49u8]);
            crate::decimal::lemma_decimal_digits(1);
        }
        UnsignedIntegerBuf { inner: UnsignedInteger::new_unchecked(text) }
    }

    /// Returns `true` if `self` is positive and `false` if the number is zero.
    pub fn is_positive(&self) -> (r: bool)
        ensures
            r == (lexical_value(self@) > 0),
    {
        self.inner.is_positive()
    }

    /// Returns `true` if `self` is zero and `false` otherwise.
    pub fn is_zero(&self) -> (r: bool)
        ensures
            r == (lexical_value(self@) == 0),
    {
        self.inner.is_zero()
    }

    /// The canonical form of `self` (without leading zeros).
    pub fn canonical(&self) -> (r: UnsignedInteger)
        ensures
            r@ == decimal_digits(lexical_value(self@)),
    {
        self.inner.canonical()
    }
}

impl Clone for UnsignedIntegerBuf {
    fn clone(&self) -> (r: Self)
        ensures
            r@ == self@,
    {
        UnsignedIntegerBuf { inner: self.inner.clone() }
    }
}

impl core::str::FromStr for UnsignedIntegerBuf {
    type Err = InvalidUnsignedInteger;

    fn from_str(s: &str) -> (r: Result<Self, InvalidUnsignedInteger>)
        ensures
            r is Ok <==> is_lexical(s.spec_bytes()),
            r matches Ok(v) ==> v@ == s.spec_bytes(),
            r matches Err(e) ==> e.0@ == s@,
    {
        UnsignedIntegerBuf::from_str(s)
    }
}

impl Default for UnsignedIntegerBuf {
    fn default() -> (r: Self)
        ensures
            r@ == decimal_digits(0),
    {
        Self::zero()
    }
}

} // verus!
