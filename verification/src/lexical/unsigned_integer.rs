//! The lexical form of an unsigned integer: a string such as `"42"`,
//! `"+007"` or `"0"`.
use crate::decimal::{
    all_digits, decimal_digits, decimal_value, digits_part, is_canonical_digits, is_digit,
    is_lexical, lemma_canonical_is_decimal_digits, lemma_leading_zeros, lemma_value_zero,
    lexical_value,
};
use crate::lexical::check::check_bytes;
use vstd::prelude::*;
use vstd::string::{is_ascii, is_ascii_spec_bytes, StrSliceExecFns, StringSliceAdditionalSpecFns};
use vstd::utf8::{
    encode_scalar, encode_utf8, has_width_1_encoding, is_ascii_chars, leading_byte_width_2,
    leading_byte_width_3, leading_byte_width_4,
};

verus! {

/// Sign of a number.
#[derive(Clone, Copy, Debug, PartialEq, Eq, Structural)]
pub enum Sign {
    Negative,
    Zero,
    Positive,
}

/// Error returned for a string that is not a lexical form of an unsigned
/// integer. It holds the refused input.
#[derive(Debug)]
pub struct InvalidUnsignedInteger(pub String);

/// The bytes of an ASCII string, one per character.
pub open spec fn ascii_bytes(chars: Seq<char>) -> Seq<u8> {
    chars.map_values(|c: char| c as u8)
}

/// Unsigned integer number, in lexical form.
///
/// See: <http://www.w3.org/2001/XMLSchema#unsignedInt>
#[derive(Debug)]
pub struct UnsignedInteger {
    data: String,
}

impl View for UnsignedInteger {
    type V = Seq<u8>;

    /// The bytes of the lexical form.
    closed spec fn view(&self) -> Seq<u8> {
        ascii_bytes(self.data@)
    }
}

impl Clone for UnsignedInteger {
    fn clone(&self) -> (r: Self)
        ensures
            r@ == self@,
    {
        proof {
            use_type_invariant(self);
        }
        UnsignedInteger { data: self.data.clone() }
    }
}

/// The first byte of the UTF-8 encoding of a non-ASCII character is not ASCII.
proof fn lemma_leading_byte_not_ascii(v: u32)
    requires
        !has_width_1_encoding(v),
    ensures
        encode_scalar(v)[0] >= 128,
{
    assert(leading_byte_width_2(v) >= 128) by (bit_vector);
    assert(leading_byte_width_3(v) >= 128) by (bit_vector);
    assert(leading_byte_width_4(v) >= 128) by (bit_vector);
}

/// A string whose UTF-8 bytes are all ASCII consists of ASCII characters.
proof fn lemma_ascii_from_bytes(chars: Seq<char>)
    requires
        forall|i: int| 0 <= i < encode_utf8(chars).len() ==> #[trigger] encode_utf8(chars)[i] < 128,
    ensures
        is_ascii_chars(chars),
    decreases chars.len(),
{
    if chars.len() > 0 {
        let head = encode_scalar(chars[0] as u32);
        let rest = chars.drop_first();
        let e = encode_utf8(chars);
        assert(e == head + encode_utf8(rest));
        if !has_width_1_encoding(chars[0] as u32) {
            lemma_leading_byte_not_ascii(chars[0] as u32);
            assert(e[0] == head[0]);
            assert(false);
        }
        assert forall|i: int| 0 <= i < encode_utf8(rest).len() implies #[trigger] encode_utf8(
            rest,
        )[i] < 128 by {
            assert(encode_utf8(rest)[i] == e[i + head.len()]);
        }
        lemma_ascii_from_bytes(rest);
        assert forall|i: int| 0 <= i < chars.len() implies '\0' <= #[trigger] chars[i] <= '\u{7f}' by {
            if i > 0 {
                assert(chars[i] == rest[i - 1]);
            } else {
                let c = chars[0];
                let u = c as u32;
                vstd::utf8::char_u32_cast(c, u);
                assert((u as char) as nat == u);
            }
        }
    }
}

/// The bytes of a lexical form are all ASCII.
proof fn lemma_lexical_is_ascii(s: Seq<u8>)
    requires
        is_lexical(s),
    ensures
        forall|i: int| 0 <= i < s.len() ==> #[trigger] s[i] < 128,
{
    let d = digits_part(s);
    assert forall|i: int| 0 <= i < s.len() implies #[trigger] s[i] < 128 by {
        if s[0] == 43 {
            if i > 0 {
                assert(s[i] == d[i - 1]);
                assert(is_digit(d[i - 1]));
            }
        } else {
            assert(s[i] == d[i]);
            assert(is_digit(d[i]));
        }
    }
}

impl UnsignedInteger {
    /// The string is ASCII and spells a lexical form.
    #[verifier::type_invariant]
    spec fn inv(self) -> bool {
        &&& is_ascii_chars(self.data@)
        &&& is_lexical(ascii_bytes(self.data@))
    }

    /// Wraps a string known to be an ASCII lexical form.
    fn from_valid_str(s: &str) -> (r: Self)
        requires
            is_ascii_chars(s@),
            is_lexical(s.spec_bytes()),
        ensures
            r@ == s.spec_bytes(),
    {
        proof {
            broadcast use is_ascii_spec_bytes;

            assert(is_ascii(s));
            assert(ascii_bytes(s@) =~= s.spec_bytes());
        }
        UnsignedInteger { data: s.to_owned() }
    }

    /// Creates a new unsigned integer from a string.
    ///
    /// The input string must be a valid XSD unsignedInt (an optional `'+'`
    /// followed by one or more ASCII digits, denoting at most 4294967295);
    /// otherwise an
    /// [`InvalidUnsignedInteger`] error holding the input is returned.
    pub fn new(s: &str) -> (r: Result<Self, InvalidUnsignedInteger>)
        ensures
            r is Ok <==> is_lexical(s.spec_bytes()),
            r matches Ok(v) ==> v@ == s.spec_bytes(),
            r matches Err(e) ==> e.0@ == s@,
    {
        let bytes = s.as_bytes();
        if check_bytes(bytes) {
            proof {
                lemma_lexical_is_ascii(s.spec_bytes());
                lemma_ascii_from_bytes(s@);
            }
            Ok(Self::from_valid_str(s))
        } else {
            Err(InvalidUnsignedInteger(s.to_owned()))
        }
    }

    /// Creates a new unsigned integer from a string the caller has already
    /// checked to be a lexical form.
    pub fn new_unchecked(s: &str) -> (r: Self)
        requires
            is_lexical(s.spec_bytes()),
        ensures
            r@ == s.spec_bytes(),
    {
        proof {
            lemma_lexical_is_ascii(s.spec_bytes());
            lemma_ascii_from_bytes(s@);
        }
        Self::from_valid_str(s)
    }

    /// The lexical form as a string.
    pub fn as_str(&self) -> (r: &str)
        ensures
            r.spec_bytes() == self@,
            r.is_ascii(),
            is_lexical(self@),
    {
        proof {
            use_type_invariant(self);
        }
        let r = self.data.as_str();
        proof {
            broadcast use is_ascii_spec_bytes;

            assert(is_ascii(r));
            assert(ascii_bytes(self.data@) =~= r.spec_bytes());
        }
        r
    }

    /// The lexical form as an owned string.
    pub fn into_string(self) -> (r: String)
        ensures
            encode_utf8(r@) == self@,
    {
        proof {
            use_type_invariant(&self);
        }
        let r = self.data;
        proof {
            vstd::utf8::is_ascii_chars_encode_utf8(r@);
            assert(encode_utf8(r@) =~= ascii_bytes(r@));
        }
        r
    }

    /// The bytes of the lexical form.
    pub fn as_bytes(&self) -> (r: &[u8])
        ensures
            r@ == self@,
            is_lexical(r@),
    {
        proof {
            use_type_invariant(self);
        }
        self.as_str().as_bytes()
    }

    /// Returns `true` if `self` is positive
    /// and `false` if the number is zero: scans for a byte other than `'+'`
    /// and `'0'`.
    pub fn is_positive(&self) -> (r: bool)
        ensures
            r == (lexical_value(self@) > 0),
    {
        let bytes = self.as_bytes();
        let n = bytes.len();
        let mut i: usize = 0;
        while i < n
            invariant
                n == bytes@.len(),
                bytes@ == self@,
                is_lexical(bytes@),
                i <= n,
                forall|j: int| 0 <= j < i ==> bytes@[j] == 43 || bytes@[j] == 48,
            decreases n - i,
        {
            let c = bytes[i];
            if c != 43u8 && c != 48u8 {
                proof {
                    Self::lemma_nonzero_digit(bytes@, i as int);
                }
                return true;
            }
            i = i + 1;
        }
        proof {
            Self::lemma_all_zero(bytes@);
        }
        false
    }

    /// Returns `true` if `self` is zero
    /// and `false` otherwise.
    pub fn is_zero(&self) -> (r: bool)
        ensures
            r == (lexical_value(self@) == 0),
    {
        !self.is_positive()
    }

    /// The sign of the number: `Sign::Zero` for zero, `Sign::Positive` otherwise.
    pub fn sign(&self) -> (r: Sign)
        ensures
            r == (if lexical_value(self@) == 0 {
                Sign::Zero
            } else {
                Sign::Positive
            }),
    {
        if self.is_positive() {
            Sign::Positive
        } else {
            Sign::Zero
        }
    }

    /// A byte of a lexical form other than `'+'` and `'0'` makes its value positive.
    proof fn lemma_nonzero_digit(s: Seq<u8>, i: int)
        requires
            is_lexical(s),
            0 <= i < s.len(),
            s[i] != 43,
            s[i] != 48,
        ensures
            lexical_value(s) > 0,
    {
        let d = digits_part(s);
        lemma_value_zero(d);
        if s[0] == 43 {
            assert(i > 0);
            assert(d[i - 1] == s[i]);
        } else {
            assert(d[i] == s[i]);
        }
    }

    /// A lexical form made of `'+'` and `'0'` only denotes zero.
    proof fn lemma_all_zero(s: Seq<u8>)
        requires
            is_lexical(s),
            forall|j: int| 0 <= j < s.len() ==> s[j] == 43 || s[j] == 48,
        ensures
            lexical_value(s) == 0,
    {
        let d = digits_part(s);
        lemma_value_zero(d);
        assert forall|j: int| 0 <= j < d.len() implies d[j] == 48 by {
            let k = if s[0] == 43 {
                j + 1
            } else {
                j
            };
            assert(d[j] == s[k]);
            assert(is_digit(d[j]));
        }
    }

    /// Returns the canonical form of `self` (without leading zeros and
    /// without `'+'`): the canonical decimal spelling of its value.
    pub fn canonical(&self) -> (r: Self)
        ensures
            r@ == decimal_digits(lexical_value(self@)),
            lexical_value(r@) == lexical_value(self@),
            is_canonical_digits(r@),
    {
        proof {
            use_type_invariant(self);
        }
        let text = self.as_str();
        let bytes = text.as_bytes();
        let n = bytes.len();
        let ghost s = bytes@;
        let ghost start: int = if s[0] == 43 {
            1
        } else {
            0
        };
        let mut last_zero: usize = 0;
        let mut i: usize = 0;
        while i < n
            invariant
                n == s.len(),
                bytes@ == s,
                s == self@,
                text.spec_bytes() == s,
                text.is_ascii(),
                is_lexical(s),
                start == (if s[0] == 43 {
                    1int
                } else {
                    0int
                }),
                i <= n,
                forall|j: int| 0 <= j < i ==> s[j] == 43 || s[j] == 48,
                i > 0 && s[i - 1] == 48 ==> last_zero == i - 1,
            decreases n - i,
        {
            let c = bytes[i];
            if c == 43u8 {
            } else if c == 48u8 {
                last_zero = i;
            } else {
                let ghost rest = s.subrange(i as int, n as int);
                proof {
                    self.lemma_canonical_suffix(s, start, i as int);
                }
                let sub = text.substring_ascii(i, n);
                proof {
                    broadcast use is_ascii_spec_bytes;

                    assert(sub.spec_bytes() =~= rest);
                }
                return Self::from_valid_str(sub);
            }
            i = i + 1;
        }
        proof {
            Self::lemma_all_zero(s);
            let d = digits_part(s);
            assert(is_digit(d[d.len() - 1]));
            assert(s[n - 1] == d[d.len() - 1]);
            assert(last_zero == n - 1);
            assert(s.subrange(last_zero as int, n as int) =~= seq![48u8]);
            assert(decimal_digits(0) =~= seq![48u8]);
            assert(decimal_value(seq![48u8].drop_last()) == 0) by {
                assert(seq![48u8].drop_last() =~= Seq::<u8>::empty());
            }
        }
        let sub = text.substring_ascii(last_zero, n);
        proof {
            broadcast use is_ascii_spec_bytes;

            assert(sub.spec_bytes() =~= seq![48u8]);
        }
        Self::from_valid_str(sub)
    }

    /// The suffix of a lexical form that starts at its first byte other than
    /// `'+'` and `'0'` is the canonical spelling of its value.
    proof fn lemma_canonical_suffix(&self, s: Seq<u8>, start: int, i: int)
        requires
            is_lexical(s),
            start == (if s[0] == 43 {
                1int
            } else {
                0int
            }),
            0 <= i < s.len(),
            forall|j: int| 0 <= j < i ==> s[j] == 43 || s[j] == 48,
            s[i] != 43,
            s[i] != 48,
        ensures
            is_canonical_digits(s.subrange(i, s.len() as int)),
            s.subrange(i, s.len() as int) == decimal_digits(lexical_value(s)),
            is_lexical(s.subrange(i, s.len() as int)),
            lexical_value(s.subrange(i, s.len() as int)) == lexical_value(s),
    {
        let n = s.len() as int;
        let d = digits_part(s);
        let rest = s.subrange(i, n);
        assert(d =~= s.subrange(start, n));
        assert(i >= start) by {
            if s[0] == 43 && i == 0 {
                assert(false);
            }
        }
        let zeros = s.subrange(start, i);
        assert(d =~= zeros + rest);
        assert forall|j: int| 0 <= j < zeros.len() implies zeros[j] == 48 by {
            assert(zeros[j] == s[start + j]);
            assert(d[j] == s[start + j]);
            assert(is_digit(d[j]));
        }
        lemma_leading_zeros(zeros, rest);
        assert(all_digits(rest)) by {
            assert forall|j: int| 0 <= j < rest.len() implies is_digit(#[trigger] rest[j]) by {
                assert(rest[j] == d[i - start + j]);
            }
        }
        assert(rest[0] != 48);
        assert(digits_part(rest) =~= rest);
        lemma_canonical_is_decimal_digits(rest);
    }
}

} // verus!
