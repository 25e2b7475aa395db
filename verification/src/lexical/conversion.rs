//! Conversions between lexical forms and primitive integers.
use crate::decimal::{
    decimal_digits, decimal_value, digits_part, is_digit, is_lexical,
    lemma_decimal_digits, lemma_pow10_positive, lemma_value_concat, lexical_value, pow10,
    unsigned_int_max,
};
use crate::lexical::buf::UnsignedIntegerBuf;
use crate::lexical::unsigned_integer::{ascii_bytes, UnsignedInteger};
use vstd::prelude::*;
use vstd::std_specs::convert::{FromSpecImpl, TryFromSpec, TryFromSpecImpl};
use vstd::string::StringExecFns;
use vstd::utf8::is_ascii_chars;

verus! {

/// Error of a conversion to a primitive integer type whose range does not
/// hold the number.
#[derive(Clone, Copy, Debug, PartialEq, Eq, Structural)]
pub struct Overflow;

/// A prefix of a digit string denotes at most what the whole string denotes.
proof fn lemma_prefix_value(d: Seq<u8>, k: int)
    requires
        0 <= k <= d.len(),
    ensures
        decimal_value(d.subrange(0, k)) <= decimal_value(d),
{
    let a = d.subrange(0, k);
    let b = d.subrange(k, d.len() as int);
    assert(d =~= a + b);
    lemma_value_concat(a, b);
    lemma_pow10_positive(b.len());
    let va = decimal_value(a);
    let p = pow10(b.len());
    assert(va * p >= va) by (nonlinear_arith)
        requires
            p >= 1,
    ;
}

impl UnsignedInteger {
    /// The number as a `u128`, when it fits.
    pub fn to_u128(&self) -> (r: Option<u128>)
        ensures
            r == (if lexical_value(self@) <= u128::MAX {
                Some(lexical_value(self@) as u128)
            } else {
                None::<u128>
            }),
    {
        let bytes = self.as_bytes();
        let n = bytes.len();
        let start: usize = if bytes[0] == 43u8 {
            1
        } else {
            0
        };
        let ghost d = digits_part(bytes@);
        proof {
            assert(d =~= bytes@.subrange(start as int, n as int));
            assert(d.subrange(0, 0) =~= Seq::<u8>::empty());
        }
        let mut v: u128 = 0;
        let mut i: usize = start;
        while i < n
            invariant
                n == bytes@.len(),
                bytes@ == self@,
                is_lexical(bytes@),
                d == digits_part(bytes@),
                d =~= bytes@.subrange(start as int, n as int),
                start <= i <= n,
                v == decimal_value(d.subrange(0, i - start)),
            decreases n - i,
        {
            let c = bytes[i];
            proof {
                assert(c == d[i - start]);
                assert(is_digit(d[i - start]));
                assert(d.subrange(0, i - start + 1).drop_last() =~= d.subrange(0, i - start));
                lemma_prefix_value(d, i - start + 1);
            }
            let digit: u128 = (c - 48u8) as u128;
            match v.checked_mul(10) {
                Some(t) => {
                    match t.checked_add(digit) {
                        Some(w) => {
                            v = w;
                        },
                        None => {
                            return None;
                        },
                    }
                },
                None => {
                    return None;
                },
            }
            i = i + 1;
        }
        proof {
            assert(d.subrange(0, n - start) =~= d);
        }
        Some(v)
    }
}

/// The one-character string of a decimal digit.
fn digit_str(d: u8) -> (r: &'static str)
    requires
        d < 10,
    ensures
        is_ascii_chars(r@),
        ascii_bytes(r@) == seq![(d + 48) as u8],
{
    let r = match d {
        0 => "0",
        1 => "1",
        2 => "2",
        3 => "3",
        4 => "4",
        5 => "5",
        6 => "6",
        7 => "7",
        8 => "8",
        _ => "9",
    };
    proof {
        reveal_strlit("0");
        reveal_strlit("1");
        reveal_strlit("2");
        reveal_strlit("3");
        reveal_strlit("4");
        reveal_strlit("5");
        reveal_strlit("6");
        reveal_strlit("7");
        reveal_strlit("8");
        reveal_strlit("9");
        assert(ascii_bytes(r@) =~= seq![(d + 48) as u8]);
    }
    r
}

/// The canonical decimal spelling of `n`, as an ASCII string.
fn decimal_string(n: u128) -> (r: String)
    ensures
        is_ascii_chars(r@),
        ascii_bytes(r@) == decimal_digits(n as nat),
{
    // The ASCII digits, least significant first.
    let mut digits: Vec<u8> = Vec::new();
    let mut rest: u128 = n;
    loop
        invariant_except_break
            decimal_digits(n as nat) == decimal_digits(rest as nat) + digits@.reverse(),
        invariant
            forall|j: int| 0 <= j < digits@.len() ==> is_digit(#[trigger] digits@[j]),
        ensures
            decimal_digits(n as nat) == digits@.reverse(),
            forall|j: int| 0 <= j < digits@.len() ==> is_digit(#[trigger] digits@[j]),
        decreases rest,
    {
        let d: u8 = (rest % 10) as u8 + 48u8;
        let ghost old_digits = digits@;
        digits.push(d);
        proof {
            assert(digits@.reverse() =~= seq![d] + old_digits.reverse());
            assert forall|j: int| 0 <= j < digits@.len() implies is_digit(#[trigger] digits@[j]) by {
                if j < old_digits.len() {
                    assert(digits@[j] == old_digits[j]);
                }
            }
        }
        if rest < 10 {
            proof {
                assert(decimal_digits(rest as nat) =~= seq![d]);
                assert(decimal_digits(n as nat) =~= digits@.reverse());
            }
            break;
        }
        proof {
            let q = (rest / 10) as nat;
            assert(decimal_digits(rest as nat) == decimal_digits(q).push(d));
            assert(decimal_digits(q).push(d) + old_digits.reverse() =~= decimal_digits(q) + (seq![d]
                + old_digits.reverse()));
        }
        rest = rest / 10;
    }
    let mut s = String::new();
    let len = digits.len();
    let mut i: usize = len;
    proof {
        assert(ascii_bytes(s@) =~= digits@.reverse().subrange(0, 0));
    }
    while i > 0
        invariant
            len == digits@.len(),
            i <= len,
            is_ascii_chars(s@),
            ascii_bytes(s@) == digits@.reverse().subrange(0, len - i),
            forall|j: int| 0 <= j < digits@.len() ==> is_digit(#[trigger] digits@[j]),
        decreases i,
    {
        i = i - 1;
        let c = digits[i];
        proof {
            assert(is_digit(digits@[i as int]));
        }
        let piece = digit_str(c - 48u8);
        let ghost old_s = s@;
        s.append(piece);
        proof {
            assert(ascii_bytes(s@) =~= ascii_bytes(old_s) + ascii_bytes(piece@));
            assert(digits@.reverse().subrange(0, len - i) =~= digits@.reverse().subrange(
                0,
                len - i - 1,
            ).push(c));
            assert(is_ascii_chars(s@)) by {
                assert forall|j: int| 0 <= j < s@.len() implies '\0' <= #[trigger] s@[j] <= '\u{7f}' by {
                    if j < old_s.len() {
                        assert(s@[j] == old_s[j]);
                    } else {
                        assert(s@[j] == piece@[j - old_s.len()]);
                    }
                }
            }
        }
    }
    proof {
        assert(digits@.reverse().subrange(0, len as int) =~= digits@.reverse());
    }
    s
}

impl From<u8> for UnsignedIntegerBuf {
    /// The canonical decimal spelling of `i`.
    fn from(i: u8) -> (r: Self)
        ensures
            r@ == decimal_digits(i as nat),
    {
        let s = decimal_string(i as u128);
        proof {
            lemma_decimal_digits(i as nat);
            assert(digits_part(decimal_digits(i as nat)) =~= decimal_digits(i as nat));
        }
        UnsignedIntegerBuf::from_ascii_string(s)
    }
}

impl FromSpecImpl<u8> for UnsignedIntegerBuf {
    /// The result is stated by `from`'s own `ensures`, over its bytes.
    open spec fn obeys_from_spec() -> bool {
        false
    }

    open spec fn from_spec(v: u8) -> Self {
        choose|r: Self| r@ == decimal_digits(v as nat)
    }
}

impl From<u16> for UnsignedIntegerBuf {
    /// The canonical decimal spelling of `i`.
    fn from(i: u16) -> (r: Self)
        ensures
            r@ == decimal_digits(i as nat),
    {
        let s = decimal_string(i as u128);
        proof {
            lemma_decimal_digits(i as nat);
            assert(digits_part(decimal_digits(i as nat)) =~= decimal_digits(i as nat));
        }
        UnsignedIntegerBuf::from_ascii_string(s)
    }
}

impl FromSpecImpl<u16> for UnsignedIntegerBuf {
    /// The result is stated by `from`'s own `ensures`, over its bytes.
    open spec fn obeys_from_spec() -> bool {
        false
    }

    open spec fn from_spec(v: u16) -> Self {
        choose|r: Self| r@ == decimal_digits(v as nat)
    }
}

impl From<u32> for UnsignedIntegerBuf {
    /// The canonical decimal spelling of `i`.
    fn from(i: u32) -> (r: Self)
        ensures
            r@ == decimal_digits(i as nat),
    {
        let s = decimal_string(i as u128);
        proof {
            lemma_decimal_digits(i as nat);
            assert(digits_part(decimal_digits(i as nat)) =~= decimal_digits(i as nat));
        }
        UnsignedIntegerBuf::from_ascii_string(s)
    }
}

impl FromSpecImpl<u32> for UnsignedIntegerBuf {
    /// The result is stated by `from`'s own `ensures`, over its bytes.
    open spec fn obeys_from_spec() -> bool {
        false
    }

    open spec fn from_spec(v: u32) -> Self {
        choose|r: Self| r@ == decimal_digits(v as nat)
    }
}

/// The canonical spelling of `i`, when `i` is an `xsd:unsignedInt`.
fn buf_of_u128(i: u128) -> (r: Result<UnsignedIntegerBuf, Overflow>)
    ensures
        r is Ok <==> i <= unsigned_int_max(),
        r matches Ok(v) ==> v@ == decimal_digits(i as nat),
        r matches Err(e) ==> e == Overflow,
{
    if i <= 4294967295u128 {
        let s = decimal_string(i);
        proof {
            lemma_decimal_digits(i as nat);
            assert(digits_part(decimal_digits(i as nat)) =~= decimal_digits(i as nat));
        }
        Ok(UnsignedIntegerBuf::from_ascii_string(s))
    } else {
        Err(Overflow)
    }
}


impl TryFrom<u64> for UnsignedIntegerBuf {
    type Error = Overflow;

    /// The canonical decimal spelling of `i`, which must be at most
    /// 4294967295 (the largest `xsd:unsignedInt`).
    fn try_from(i: u64) -> (r: Result<Self, Overflow>)
        ensures
            r is Ok <==> i <= unsigned_int_max(),
            r matches Ok(v) ==> v@ == decimal_digits(i as nat),
            r matches Err(e) ==> e == Overflow,
    {
        buf_of_u128(i as u128)
    }
}

impl TryFromSpecImpl<u64> for UnsignedIntegerBuf {
    /// The result is stated by `try_from`'s own `ensures`.
    open spec fn obeys_try_from_spec() -> bool {
        false
    }

    open spec fn try_from_spec(v: u64) -> Result<Self, Overflow> {
        if v <= unsigned_int_max() {
            Ok(choose|r: Self| r@ == decimal_digits(v as nat))
        } else {
            Err(Overflow)
        }
    }
}

impl TryFrom<u128> for UnsignedIntegerBuf {
    type Error = Overflow;

    /// The canonical decimal spelling of `i`, which must be at most
    /// 4294967295 (the largest `xsd:unsignedInt`).
    fn try_from(i: u128) -> (r: Result<Self, Overflow>)
        ensures
            r is Ok <==> i <= unsigned_int_max(),
            r matches Ok(v) ==> v@ == decimal_digits(i as nat),
            r matches Err(e) ==> e == Overflow,
    {
        buf_of_u128(i as u128)
    }
}

impl TryFromSpecImpl<u128> for UnsignedIntegerBuf {
    /// The result is stated by `try_from`'s own `ensures`.
    open spec fn obeys_try_from_spec() -> bool {
        false
    }

    open spec fn try_from_spec(v: u128) -> Result<Self, Overflow> {
        if v <= unsigned_int_max() {
            Ok(choose|r: Self| r@ == decimal_digits(v as nat))
        } else {
            Err(Overflow)
        }
    }
}

impl TryFrom<usize> for UnsignedIntegerBuf {
    type Error = Overflow;

    /// The canonical decimal spelling of `i`, which must be at most
    /// 4294967295 (the largest `xsd:unsignedInt`).
    fn try_from(i: usize) -> (r: Result<Self, Overflow>)
        ensures
            r is Ok <==> i <= unsigned_int_max(),
            r matches Ok(v) ==> v@ == decimal_digits(i as nat),
            r matches Err(e) ==> e == Overflow,
    {
        buf_of_u128(i as u128)
    }
}

impl TryFromSpecImpl<usize> for UnsignedIntegerBuf {
    /// The result is stated by `try_from`'s own `ensures`.
    open spec fn obeys_try_from_spec() -> bool {
        false
    }

    open spec fn try_from_spec(v: usize) -> Result<Self, Overflow> {
        if v <= unsigned_int_max() {
            Ok(choose|r: Self| r@ == decimal_digits(v as nat))
        } else {
            Err(Overflow)
        }
    }
}

impl TryFrom<i8> for UnsignedIntegerBuf {
    type Error = Overflow;

    /// The canonical decimal spelling of `i`, which must lie between 0 and
    /// 4294967295 (the largest `xsd:unsignedInt`).
    fn try_from(i: i8) -> (r: Result<Self, Overflow>)
        ensures
            r is Ok <==> 0 <= i <= unsigned_int_max(),
            r matches Ok(v) ==> v@ == decimal_digits(i as nat),
            r matches Err(e) ==> e == Overflow,
    {
        if i < 0 {
            Err(Overflow)
        } else {
            buf_of_u128(i as u128)
        }
    }
}

impl TryFromSpecImpl<i8> for UnsignedIntegerBuf {
    /// The result is stated by `try_from`'s own `ensures`.
    open spec fn obeys_try_from_spec() -> bool {
        false
    }

    open spec fn try_from_spec(v: i8) -> Result<Self, Overflow> {
        if 0 <= v <= unsigned_int_max() {
            Ok(choose|r: Self| r@ == decimal_digits(v as nat))
        } else {
            Err(Overflow)
        }
    }
}

impl TryFrom<i16> for UnsignedIntegerBuf {
    type Error = Overflow;

    /// The canonical decimal spelling of `i`, which must lie between 0 and
    /// 4294967295 (the largest `xsd:unsignedInt`).
    fn try_from(i: i16) -> (r: Result<Self, Overflow>)
        ensures
            r is Ok <==> 0 <= i <= unsigned_int_max(),
            r matches Ok(v) ==> v@ == decimal_digits(i as nat),
            r matches Err(e) ==> e == Overflow,
    {
        if i < 0 {
            Err(Overflow)
        } else {
            buf_of_u128(i as u128)
        }
    }
}

impl TryFromSpecImpl<i16> for UnsignedIntegerBuf {
    /// The result is stated by `try_from`'s own `ensures`.
    open spec fn obeys_try_from_spec() -> bool {
        false
    }

    open spec fn try_from_spec(v: i16) -> Result<Self, Overflow> {
        if 0 <= v <= unsigned_int_max() {
            Ok(choose|r: Self| r@ == decimal_digits(v as nat))
        } else {
            Err(Overflow)
        }
    }
}

impl TryFrom<i32> for UnsignedIntegerBuf {
    type Error = Overflow;

    /// The canonical decimal spelling of `i`, which must lie between 0 and
    /// 4294967295 (the largest `xsd:unsignedInt`).
    fn try_from(i: i32) -> (r: Result<Self, Overflow>)
        ensures
            r is Ok <==> 0 <= i <= unsigned_int_max(),
            r matches Ok(v) ==> v@ == decimal_digits(i as nat),
            r matches Err(e) ==> e == Overflow,
    {
        if i < 0 {
            Err(Overflow)
        } else {
            buf_of_u128(i as u128)
        }
    }
}

impl TryFromSpecImpl<i32> for UnsignedIntegerBuf {
    /// The result is stated by `try_from`'s own `ensures`.
    open spec fn obeys_try_from_spec() -> bool {
        false
    }

    open spec fn try_from_spec(v: i32) -> Result<Self, Overflow> {
        if 0 <= v <= unsigned_int_max() {
            Ok(choose|r: Self| r@ == decimal_digits(v as nat))
        } else {
            Err(Overflow)
        }
    }
}

impl TryFrom<i64> for UnsignedIntegerBuf {
    type Error = Overflow;

    /// The canonical decimal spelling of `i`, which must lie between 0 and
    /// 4294967295 (the largest `xsd:unsignedInt`).
    fn try_from(i: i64) -> (r: Result<Self, Overflow>)
        ensures
            r is Ok <==> 0 <= i <= unsigned_int_max(),
            r matches Ok(v) ==> v@ == decimal_digits(i as nat),
            r matches Err(e) ==> e == Overflow,
    {
        if i < 0 {
            Err(Overflow)
        } else {
            buf_of_u128(i as u128)
        }
    }
}

impl TryFromSpecImpl<i64> for UnsignedIntegerBuf {
    /// The result is stated by `try_from`'s own `ensures`.
    open spec fn obeys_try_from_spec() -> bool {
        false
    }

    open spec fn try_from_spec(v: i64) -> Result<Self, Overflow> {
        if 0 <= v <= unsigned_int_max() {
            Ok(choose|r: Self| r@ == decimal_digits(v as nat))
        } else {
            Err(Overflow)
        }
    }
}

impl TryFrom<i128> for UnsignedIntegerBuf {
    type Error = Overflow;

    /// The canonical decimal spelling of `i`, which must lie between 0 and
    /// 4294967295 (the largest `xsd:unsignedInt`).
    fn try_from(i: i128) -> (r: Result<Self, Overflow>)
        ensures
            r is Ok <==> 0 <= i <= unsigned_int_max(),
            r matches Ok(v) ==> v@ == decimal_digits(i as nat),
            r matches Err(e) ==> e == Overflow,
    {
        if i < 0 {
            Err(Overflow)
        } else {
            buf_of_u128(i as u128)
        }
    }
}

impl TryFromSpecImpl<i128> for UnsignedIntegerBuf {
    /// The result is stated by `try_from`'s own `ensures`.
    open spec fn obeys_try_from_spec() -> bool {
        false
    }

    open spec fn try_from_spec(v: i128) -> Result<Self, Overflow> {
        if 0 <= v <= unsigned_int_max() {
            Ok(choose|r: Self| r@ == decimal_digits(v as nat))
        } else {
            Err(Overflow)
        }
    }
}

impl TryFrom<isize> for UnsignedIntegerBuf {
    type Error = Overflow;

    /// The canonical decimal spelling of `i`, which must lie between 0 and
    /// 4294967295 (the largest `xsd:unsignedInt`).
    fn try_from(i: isize) -> (r: Result<Self, Overflow>)
        ensures
            r is Ok <==> 0 <= i <= unsigned_int_max(),
            r matches Ok(v) ==> v@ == decimal_digits(i as nat),
            r matches Err(e) ==> e == Overflow,
    {
        if i < 0 {
            Err(Overflow)
        } else {
            buf_of_u128(i as u128)
        }
    }
}

impl TryFromSpecImpl<isize> for UnsignedIntegerBuf {
    /// The result is stated by `try_from`'s own `ensures`.
    open spec fn obeys_try_from_spec() -> bool {
        false
    }

    open spec fn try_from_spec(v: isize) -> Result<Self, Overflow> {
        if 0 <= v <= unsigned_int_max() {
            Ok(choose|r: Self| r@ == decimal_digits(v as nat))
        } else {
            Err(Overflow)
        }
    }
}

impl<'a> TryFrom<&'a UnsignedInteger> for u8 {
    type Error = Overflow;

    fn try_from(i: &'a UnsignedInteger) -> (r: Result<u8, Overflow>)
        ensures
            r is Ok <==> lexical_value(i@) <= u8::MAX,
            r matches Ok(n) ==> n as int == lexical_value(i@),
            r matches Err(e) ==> e == Overflow,
    {
        match i.to_u128() {
            Some(x) => {
                if x <= (u8::MAX as u128) {
                    Ok(x as u8)
                } else {
                    Err(Overflow)
                }
            },
            None => Err(Overflow),
        }
    }
}

impl<'a> TryFromSpecImpl<&'a UnsignedInteger> for u8 {
    open spec fn obeys_try_from_spec() -> bool {
        true
    }

    open spec fn try_from_spec(v: &'a UnsignedInteger) -> Result<u8, Overflow> {
        if lexical_value(v@) <= u8::MAX {
            Ok(lexical_value(v@) as u8)
        } else {
            Err(Overflow)
        }
    }
}

impl TryFrom<UnsignedInteger> for u8 {
    type Error = Overflow;

    fn try_from(i: UnsignedInteger) -> (r: Result<u8, Overflow>)
        ensures
            r is Ok <==> lexical_value(i@) <= u8::MAX,
            r matches Ok(n) ==> n as int == lexical_value(i@),
            r matches Err(e) ==> e == Overflow,
    {
        match i.to_u128() {
            Some(x) => {
                if x <= (u8::MAX as u128) {
                    Ok(x as u8)
                } else {
                    Err(Overflow)
                }
            },
            None => Err(Overflow),
        }
    }
}

impl TryFromSpecImpl<UnsignedInteger> for u8 {
    open spec fn obeys_try_from_spec() -> bool {
        true
    }

    open spec fn try_from_spec(v: UnsignedInteger) -> Result<u8, Overflow> {
        if lexical_value(v@) <= u8::MAX {
            Ok(lexical_value(v@) as u8)
        } else {
            Err(Overflow)
        }
    }
}

impl TryFrom<UnsignedIntegerBuf> for u8 {
    type Error = Overflow;

    fn try_from(i: UnsignedIntegerBuf) -> (r: Result<u8, Overflow>)
        ensures
            r is Ok <==> lexical_value(i@) <= u8::MAX,
            r matches Ok(n) ==> n as int == lexical_value(i@),
            r matches Err(e) ==> e == Overflow,
    {
        match i.as_unsigned_integer().to_u128() {
            Some(x) => {
                if x <= (u8::MAX as u128) {
                    Ok(x as u8)
                } else {
                    Err(Overflow)
                }
            },
            None => Err(Overflow),
        }
    }
}

impl TryFromSpecImpl<UnsignedIntegerBuf> for u8 {
    open spec fn obeys_try_from_spec() -> bool {
        true
    }

    open spec fn try_from_spec(v: UnsignedIntegerBuf) -> Result<u8, Overflow> {
        if lexical_value(v@) <= u8::MAX {
            Ok(lexical_value(v@) as u8)
        } else {
            Err(Overflow)
        }
    }
}

impl<'a> TryFrom<&'a UnsignedInteger> for i8 {
    type Error = Overflow;

    fn try_from(i: &'a UnsignedInteger) -> (r: Result<i8, Overflow>)
        ensures
            r is Ok <==> lexical_value(i@) <= i8::MAX,
            r matches Ok(n) ==> n as int == lexical_value(i@),
            r matches Err(e) ==> e == Overflow,
    {
        match i.to_u128() {
            Some(x) => {
                if x <= (i8::MAX as u128) {
                    Ok(x as i8)
                } else {
                    Err(Overflow)
                }
            },
            None => Err(Overflow),
        }
    }
}

impl<'a> TryFromSpecImpl<&'a UnsignedInteger> for i8 {
    open spec fn obeys_try_from_spec() -> bool {
        true
    }

    open spec fn try_from_spec(v: &'a UnsignedInteger) -> Result<i8, Overflow> {
        if lexical_value(v@) <= i8::MAX {
            Ok(lexical_value(v@) as i8)
        } else {
            Err(Overflow)
        }
    }
}

impl TryFrom<UnsignedInteger> for i8 {
    type Error = Overflow;

    fn try_from(i: UnsignedInteger) -> (r: Result<i8, Overflow>)
        ensures
            r is Ok <==> lexical_value(i@) <= i8::MAX,
            r matches Ok(n) ==> n as int == lexical_value(i@),
            r matches Err(e) ==> e == Overflow,
    {
        match i.to_u128() {
            Some(x) => {
                if x <= (i8::MAX as u128) {
                    Ok(x as i8)
                } else {
                    Err(Overflow)
                }
            },
            None => Err(Overflow),
        }
    }
}

impl TryFromSpecImpl<UnsignedInteger> for i8 {
    open spec fn obeys_try_from_spec() -> bool {
        true
    }

    open spec fn try_from_spec(v: UnsignedInteger) -> Result<i8, Overflow> {
        if lexical_value(v@) <= i8::MAX {
            Ok(lexical_value(v@) as i8)
        } else {
            Err(Overflow)
        }
    }
}

impl TryFrom<UnsignedIntegerBuf> for i8 {
    type Error = Overflow;

    fn try_from(i: UnsignedIntegerBuf) -> (r: Result<i8, Overflow>)
        ensures
            r is Ok <==> lexical_value(i@) <= i8::MAX,
            r matches Ok(n) ==> n as int == lexical_value(i@),
            r matches Err(e) ==> e == Overflow,
    {
        match i.as_unsigned_integer().to_u128() {
            Some(x) => {
                if x <= (i8::MAX as u128) {
                    Ok(x as i8)
                } else {
                    Err(Overflow)
                }
            },
            None => Err(Overflow),
        }
    }
}

impl TryFromSpecImpl<UnsignedIntegerBuf> for i8 {
    open spec fn obeys_try_from_spec() -> bool {
        true
    }

    open spec fn try_from_spec(v: UnsignedIntegerBuf) -> Result<i8, Overflow> {
        if lexical_value(v@) <= i8::MAX {
            Ok(lexical_value(v@) as i8)
        } else {
            Err(Overflow)
        }
    }
}

impl<'a> TryFrom<&'a UnsignedInteger> for u16 {
    type Error = Overflow;

    fn try_from(i: &'a UnsignedInteger) -> (r: Result<u16, Overflow>)
        ensures
            r is Ok <==> lexical_value(i@) <= u16::MAX,
            r matches Ok(n) ==> n as int == lexical_value(i@),
            r matches Err(e) ==> e == Overflow,
    {
        match i.to_u128() {
            Some(x) => {
                if x <= (u16::MAX as u128) {
                    Ok(x as u16)
                } else {
                    Err(Overflow)
                }
            },
            None => Err(Overflow),
        }
    }
}

impl<'a> TryFromSpecImpl<&'a UnsignedInteger> for u16 {
    open spec fn obeys_try_from_spec() -> bool {
        true
    }

    open spec fn try_from_spec(v: &'a UnsignedInteger) -> Result<u16, Overflow> {
        if lexical_value(v@) <= u16::MAX {
            Ok(lexical_value(v@) as u16)
        } else {
            Err(Overflow)
        }
    }
}

impl TryFrom<UnsignedInteger> for u16 {
    type Error = Overflow;

    fn try_from(i: UnsignedInteger) -> (r: Result<u16, Overflow>)
        ensures
            r is Ok <==> lexical_value(i@) <= u16::MAX,
            r matches Ok(n) ==> n as int == lexical_value(i@),
            r matches Err(e) ==> e == Overflow,
    {
        match i.to_u128() {
            Some(x) => {
                if x <= (u16::MAX as u128) {
                    Ok(x as u16)
                } else {
                    Err(Overflow)
                }
            },
            None => Err(Overflow),
        }
    }
}

impl TryFromSpecImpl<UnsignedInteger> for u16 {
    open spec fn obeys_try_from_spec() -> bool {
        true
    }

    open spec fn try_from_spec(v: UnsignedInteger) -> Result<u16, Overflow> {
        if lexical_value(v@) <= u16::MAX {
            Ok(lexical_value(v@) as u16)
        } else {
            Err(Overflow)
        }
    }
}

impl TryFrom<UnsignedIntegerBuf> for u16 {
    type Error = Overflow;

    fn try_from(i: UnsignedIntegerBuf) -> (r: Result<u16, Overflow>)
        ensures
            r is Ok <==> lexical_value(i@) <= u16::MAX,
            r matches Ok(n) ==> n as int == lexical_value(i@),
            r matches Err(e) ==> e == Overflow,
    {
        match i.as_unsigned_integer().to_u128() {
            Some(x) => {
                if x <= (u16::MAX as u128) {
                    Ok(x as u16)
                } else {
                    Err(Overflow)
                }
            },
            None => Err(Overflow),
        }
    }
}

impl TryFromSpecImpl<UnsignedIntegerBuf> for u16 {
    open spec fn obeys_try_from_spec() -> bool {
        true
    }

    open spec fn try_from_spec(v: UnsignedIntegerBuf) -> Result<u16, Overflow> {
        if lexical_value(v@) <= u16::MAX {
            Ok(lexical_value(v@) as u16)
        } else {
            Err(Overflow)
        }
    }
}

impl<'a> TryFrom<&'a UnsignedInteger> for i16 {
    type Error = Overflow;

    fn try_from(i: &'a UnsignedInteger) -> (r: Result<i16, Overflow>)
        ensures
            r is Ok <==> lexical_value(i@) <= i16::MAX,
            r matches Ok(n) ==> n as int == lexical_value(i@),
            r matches Err(e) ==> e == Overflow,
    {
        match i.to_u128() {
            Some(x) => {
                if x <= (i16::MAX as u128) {
                    Ok(x as i16)
                } else {
                    Err(Overflow)
                }
            },
            None => Err(Overflow),
        }
    }
}

impl<'a> TryFromSpecImpl<&'a UnsignedInteger> for i16 {
    open spec fn obeys_try_from_spec() -> bool {
        true
    }

    open spec fn try_from_spec(v: &'a UnsignedInteger) -> Result<i16, Overflow> {
        if lexical_value(v@) <= i16::MAX {
            Ok(lexical_value(v@) as i16)
        } else {
            Err(Overflow)
        }
    }
}

impl TryFrom<UnsignedInteger> for i16 {
    type Error = Overflow;

    fn try_from(i: UnsignedInteger) -> (r: Result<i16, Overflow>)
        ensures
            r is Ok <==> lexical_value(i@) <= i16::MAX,
            r matches Ok(n) ==> n as int == lexical_value(i@),
            r matches Err(e) ==> e == Overflow,
    {
        match i.to_u128() {
            Some(x) => {
                if x <= (i16::MAX as u128) {
                    Ok(x as i16)
                } else {
                    Err(Overflow)
                }
            },
            None => Err(Overflow),
        }
    }
}

impl TryFromSpecImpl<UnsignedInteger> for i16 {
    open spec fn obeys_try_from_spec() -> bool {
        true
    }

    open spec fn try_from_spec(v: UnsignedInteger) -> Result<i16, Overflow> {
        if lexical_value(v@) <= i16::MAX {
            Ok(lexical_value(v@) as i16)
        } else {
            Err(Overflow)
        }
    }
}

impl TryFrom<UnsignedIntegerBuf> for i16 {
    type Error = Overflow;

    fn try_from(i: UnsignedIntegerBuf) -> (r: Result<i16, Overflow>)
        ensures
            r is Ok <==> lexical_value(i@) <= i16::MAX,
            r matches Ok(n) ==> n as int == lexical_value(i@),
            r matches Err(e) ==> e == Overflow,
    {
        match i.as_unsigned_integer().to_u128() {
            Some(x) => {
                if x <= (i16::MAX as u128) {
                    Ok(x as i16)
                } else {
                    Err(Overflow)
                }
            },
            None => Err(Overflow),
        }
    }
}

impl TryFromSpecImpl<UnsignedIntegerBuf> for i16 {
    open spec fn obeys_try_from_spec() -> bool {
        true
    }

    open spec fn try_from_spec(v: UnsignedIntegerBuf) -> Result<i16, Overflow> {
        if lexical_value(v@) <= i16::MAX {
            Ok(lexical_value(v@) as i16)
        } else {
            Err(Overflow)
        }
    }
}

impl<'a> TryFrom<&'a UnsignedInteger> for u32 {
    type Error = Overflow;

    fn try_from(i: &'a UnsignedInteger) -> (r: Result<u32, Overflow>)
        ensures
            r is Ok <==> lexical_value(i@) <= u32::MAX,
            r matches Ok(n) ==> n as int == lexical_value(i@),
            r matches Err(e) ==> e == Overflow,
    {
        match i.to_u128() {
            Some(x) => {
                if x <= (u32::MAX as u128) {
                    Ok(x as u32)
                } else {
                    Err(Overflow)
                }
            },
            None => Err(Overflow),
        }
    }
}

impl<'a> TryFromSpecImpl<&'a UnsignedInteger> for u32 {
    open spec fn obeys_try_from_spec() -> bool {
        true
    }

    open spec fn try_from_spec(v: &'a UnsignedInteger) -> Result<u32, Overflow> {
        if lexical_value(v@) <= u32::MAX {
            Ok(lexical_value(v@) as u32)
        } else {
            Err(Overflow)
        }
    }
}

impl TryFrom<UnsignedInteger> for u32 {
    type Error = Overflow;

    fn try_from(i: UnsignedInteger) -> (r: Result<u32, Overflow>)
        ensures
            r is Ok <==> lexical_value(i@) <= u32::MAX,
            r matches Ok(n) ==> n as int == lexical_value(i@),
            r matches Err(e) ==> e == Overflow,
    {
        match i.to_u128() {
            Some(x) => {
                if x <= (u32::MAX as u128) {
                    Ok(x as u32)
                } else {
                    Err(Overflow)
                }
            },
            None => Err(Overflow),
        }
    }
}

impl TryFromSpecImpl<UnsignedInteger> for u32 {
    open spec fn obeys_try_from_spec() -> bool {
        true
    }

    open spec fn try_from_spec(v: UnsignedInteger) -> Result<u32, Overflow> {
        if lexical_value(v@) <= u32::MAX {
            Ok(lexical_value(v@) as u32)
        } else {
            Err(Overflow)
        }
    }
}

impl TryFrom<UnsignedIntegerBuf> for u32 {
    type Error = Overflow;

    fn try_from(i: UnsignedIntegerBuf) -> (r: Result<u32, Overflow>)
        ensures
            r is Ok <==> lexical_value(i@) <= u32::MAX,
            r matches Ok(n) ==> n as int == lexical_value(i@),
            r matches Err(e) ==> e == Overflow,
    {
        match i.as_unsigned_integer().to_u128() {
            Some(x) => {
                if x <= (u32::MAX as u128) {
                    Ok(x as u32)
                } else {
                    Err(Overflow)
                }
            },
            None => Err(Overflow),
        }
    }
}

impl TryFromSpecImpl<UnsignedIntegerBuf> for u32 {
    open spec fn obeys_try_from_spec() -> bool {
        true
    }

    open spec fn try_from_spec(v: UnsignedIntegerBuf) -> Result<u32, Overflow> {
        if lexical_value(v@) <= u32::MAX {
            Ok(lexical_value(v@) as u32)
        } else {
            Err(Overflow)
        }
    }
}

impl<'a> TryFrom<&'a UnsignedInteger> for i32 {
    type Error = Overflow;

    fn try_from(i: &'a UnsignedInteger) -> (r: Result<i32, Overflow>)
        ensures
            r is Ok <==> lexical_value(i@) <= i32::MAX,
            r matches Ok(n) ==> n as int == lexical_value(i@),
            r matches Err(e) ==> e == Overflow,
    {
        match i.to_u128() {
            Some(x) => {
                if x <= (i32::MAX as u128) {
                    Ok(x as i32)
                } else {
                    Err(Overflow)
                }
            },
            None => Err(Overflow),
        }
    }
}

impl<'a> TryFromSpecImpl<&'a UnsignedInteger> for i32 {
    open spec fn obeys_try_from_spec() -> bool {
        true
    }

    open spec fn try_from_spec(v: &'a UnsignedInteger) -> Result<i32, Overflow> {
        if lexical_value(v@) <= i32::MAX {
            Ok(lexical_value(v@) as i32)
        } else {
            Err(Overflow)
        }
    }
}

impl TryFrom<UnsignedInteger> for i32 {
    type Error = Overflow;

    fn try_from(i: UnsignedInteger) -> (r: Result<i32, Overflow>)
        ensures
            r is Ok <==> lexical_value(i@) <= i32::MAX,
            r matches Ok(n) ==> n as int == lexical_value(i@),
            r matches Err(e) ==> e == Overflow,
    {
        match i.to_u128() {
            Some(x) => {
                if x <= (i32::MAX as u128) {
                    Ok(x as i32)
                } else {
                    Err(Overflow)
                }
            },
            None => Err(Overflow),
        }
    }
}

impl TryFromSpecImpl<UnsignedInteger> for i32 {
    open spec fn obeys_try_from_spec() -> bool {
        true
    }

    open spec fn try_from_spec(v: UnsignedInteger) -> Result<i32, Overflow> {
        if lexical_value(v@) <= i32::MAX {
            Ok(lexical_value(v@) as i32)
        } else {
            Err(Overflow)
        }
    }
}

impl TryFrom<UnsignedIntegerBuf> for i32 {
    type Error = Overflow;

    fn try_from(i: UnsignedIntegerBuf) -> (r: Result<i32, Overflow>)
        ensures
            r is Ok <==> lexical_value(i@) <= i32::MAX,
            r matches Ok(n) ==> n as int == lexical_value(i@),
            r matches Err(e) ==> e == Overflow,
    {
        match i.as_unsigned_integer().to_u128() {
            Some(x) => {
                if x <= (i32::MAX as u128) {
                    Ok(x as i32)
                } else {
                    Err(Overflow)
                }
            },
            None => Err(Overflow),
        }
    }
}

impl TryFromSpecImpl<UnsignedIntegerBuf> for i32 {
    open spec fn obeys_try_from_spec() -> bool {
        true
    }

    open spec fn try_from_spec(v: UnsignedIntegerBuf) -> Result<i32, Overflow> {
        if lexical_value(v@) <= i32::MAX {
            Ok(lexical_value(v@) as i32)
        } else {
            Err(Overflow)
        }
    }
}

impl<'a> TryFrom<&'a UnsignedInteger> for u64 {
    type Error = Overflow;

    fn try_from(i: &'a UnsignedInteger) -> (r: Result<u64, Overflow>)
        ensures
            r is Ok <==> lexical_value(i@) <= u64::MAX,
            r matches Ok(n) ==> n as int == lexical_value(i@),
            r matches Err(e) ==> e == Overflow,
    {
        match i.to_u128() {
            Some(x) => {
                if x <= (u64::MAX as u128) {
                    Ok(x as u64)
                } else {
                    Err(Overflow)
                }
            },
            None => Err(Overflow),
        }
    }
}

impl<'a> TryFromSpecImpl<&'a UnsignedInteger> for u64 {
    open spec fn obeys_try_from_spec() -> bool {
        true
    }

    open spec fn try_from_spec(v: &'a UnsignedInteger) -> Result<u64, Overflow> {
        if lexical_value(v@) <= u64::MAX {
            Ok(lexical_value(v@) as u64)
        } else {
            Err(Overflow)
        }
    }
}

impl TryFrom<UnsignedInteger> for u64 {
    type Error = Overflow;

    fn try_from(i: UnsignedInteger) -> (r: Result<u64, Overflow>)
        ensures
            r is Ok <==> lexical_value(i@) <= u64::MAX,
            r matches Ok(n) ==> n as int == lexical_value(i@),
            r matches Err(e) ==> e == Overflow,
    {
        match i.to_u128() {
            Some(x) => {
                if x <= (u64::MAX as u128) {
                    Ok(x as u64)
                } else {
                    Err(Overflow)
                }
            },
            None => Err(Overflow),
        }
    }
}

impl TryFromSpecImpl<UnsignedInteger> for u64 {
    open spec fn obeys_try_from_spec() -> bool {
        true
    }

    open spec fn try_from_spec(v: UnsignedInteger) -> Result<u64, Overflow> {
        if lexical_value(v@) <= u64::MAX {
            Ok(lexical_value(v@) as u64)
        } else {
            Err(Overflow)
        }
    }
}

impl TryFrom<UnsignedIntegerBuf> for u64 {
    type Error = Overflow;

    fn try_from(i: UnsignedIntegerBuf) -> (r: Result<u64, Overflow>)
        ensures
            r is Ok <==> lexical_value(i@) <= u64::MAX,
            r matches Ok(n) ==> n as int == lexical_value(i@),
            r matches Err(e) ==> e == Overflow,
    {
        match i.as_unsigned_integer().to_u128() {
            Some(x) => {
                if x <= (u64::MAX as u128) {
                    Ok(x as u64)
                } else {
                    Err(Overflow)
                }
            },
            None => Err(Overflow),
        }
    }
}

impl TryFromSpecImpl<UnsignedIntegerBuf> for u64 {
    open spec fn obeys_try_from_spec() -> bool {
        true
    }

    open spec fn try_from_spec(v: UnsignedIntegerBuf) -> Result<u64, Overflow> {
        if lexical_value(v@) <= u64::MAX {
            Ok(lexical_value(v@) as u64)
        } else {
            Err(Overflow)
        }
    }
}

impl<'a> TryFrom<&'a UnsignedInteger> for i64 {
    type Error = Overflow;

    fn try_from(i: &'a UnsignedInteger) -> (r: Result<i64, Overflow>)
        ensures
            r is Ok <==> lexical_value(i@) <= i64::MAX,
            r matches Ok(n) ==> n as int == lexical_value(i@),
            r matches Err(e) ==> e == Overflow,
    {
        match i.to_u128() {
            Some(x) => {
                if x <= (i64::MAX as u128) {
                    Ok(x as i64)
                } else {
                    Err(Overflow)
                }
            },
            None => Err(Overflow),
        }
    }
}

impl<'a> TryFromSpecImpl<&'a UnsignedInteger> for i64 {
    open spec fn obeys_try_from_spec() -> bool {
        true
    }

    open spec fn try_from_spec(v: &'a UnsignedInteger) -> Result<i64, Overflow> {
        if lexical_value(v@) <= i64::MAX {
            Ok(lexical_value(v@) as i64)
        } else {
            Err(Overflow)
        }
    }
}

impl TryFrom<UnsignedInteger> for i64 {
    type Error = Overflow;

    fn try_from(i: UnsignedInteger) -> (r: Result<i64, Overflow>)
        ensures
            r is Ok <==> lexical_value(i@) <= i64::MAX,
            r matches Ok(n) ==> n as int == lexical_value(i@),
            r matches Err(e) ==> e == Overflow,
    {
        match i.to_u128() {
            Some(x) => {
                if x <= (i64::MAX as u128) {
                    Ok(x as i64)
                } else {
                    Err(Overflow)
                }
            },
            None => Err(Overflow),
        }
    }
}

impl TryFromSpecImpl<UnsignedInteger> for i64 {
    open spec fn obeys_try_from_spec() -> bool {
        true
    }

    open spec fn try_from_spec(v: UnsignedInteger) -> Result<i64, Overflow> {
        if lexical_value(v@) <= i64::MAX {
            Ok(lexical_value(v@) as i64)
        } else {
            Err(Overflow)
        }
    }
}

impl TryFrom<UnsignedIntegerBuf> for i64 {
    type Error = Overflow;

    fn try_from(i: UnsignedIntegerBuf) -> (r: Result<i64, Overflow>)
        ensures
            r is Ok <==> lexical_value(i@) <= i64::MAX,
            r matches Ok(n) ==> n as int == lexical_value(i@),
            r matches Err(e) ==> e == Overflow,
    {
        match i.as_unsigned_integer().to_u128() {
            Some(x) => {
                if x <= (i64::MAX as u128) {
                    Ok(x as i64)
                } else {
                    Err(Overflow)
                }
            },
            None => Err(Overflow),
        }
    }
}

impl TryFromSpecImpl<UnsignedIntegerBuf> for i64 {
    open spec fn obeys_try_from_spec() -> bool {
        true
    }

    open spec fn try_from_spec(v: UnsignedIntegerBuf) -> Result<i64, Overflow> {
        if lexical_value(v@) <= i64::MAX {
            Ok(lexical_value(v@) as i64)
        } else {
            Err(Overflow)
        }
    }
}

impl<'a> TryFrom<&'a UnsignedInteger> for u128 {
    type Error = Overflow;

    fn try_from(i: &'a UnsignedInteger) -> (r: Result<u128, Overflow>)
        ensures
            r is Ok <==> lexical_value(i@) <= u128::MAX,
            r matches Ok(n) ==> n as int == lexical_value(i@),
            r matches Err(e) ==> e == Overflow,
    {
        match i.to_u128() {
            Some(x) => {
                if x <= (u128::MAX as u128) {
                    Ok(x as u128)
                } else {
                    Err(Overflow)
                }
            },
            None => Err(Overflow),
        }
    }
}

impl<'a> TryFromSpecImpl<&'a UnsignedInteger> for u128 {
    open spec fn obeys_try_from_spec() -> bool {
        true
    }

    open spec fn try_from_spec(v: &'a UnsignedInteger) -> Result<u128, Overflow> {
        if lexical_value(v@) <= u128::MAX {
            Ok(lexical_value(v@) as u128)
        } else {
            Err(Overflow)
        }
    }
}

impl TryFrom<UnsignedInteger> for u128 {
    type Error = Overflow;

    fn try_from(i: UnsignedInteger) -> (r: Result<u128, Overflow>)
        ensures
            r is Ok <==> lexical_value(i@) <= u128::MAX,
            r matches Ok(n) ==> n as int == lexical_value(i@),
            r matches Err(e) ==> e == Overflow,
    {
        match i.to_u128() {
            Some(x) => {
                if x <= (u128::MAX as u128) {
                    Ok(x as u128)
                } else {
                    Err(Overflow)
                }
            },
            None => Err(Overflow),
        }
    }
}

impl TryFromSpecImpl<UnsignedInteger> for u128 {
    open spec fn obeys_try_from_spec() -> bool {
        true
    }

    open spec fn try_from_spec(v: UnsignedInteger) -> Result<u128, Overflow> {
        if lexical_value(v@) <= u128::MAX {
            Ok(lexical_value(v@) as u128)
        } else {
            Err(Overflow)
        }
    }
}

impl TryFrom<UnsignedIntegerBuf> for u128 {
    type Error = Overflow;

    fn try_from(i: UnsignedIntegerBuf) -> (r: Result<u128, Overflow>)
        ensures
            r is Ok <==> lexical_value(i@) <= u128::MAX,
            r matches Ok(n) ==> n as int == lexical_value(i@),
            r matches Err(e) ==> e == Overflow,
    {
        match i.as_unsigned_integer().to_u128() {
            Some(x) => {
                if x <= (u128::MAX as u128) {
                    Ok(x as u128)
                } else {
                    Err(Overflow)
                }
            },
            None => Err(Overflow),
        }
    }
}

impl TryFromSpecImpl<UnsignedIntegerBuf> for u128 {
    open spec fn obeys_try_from_spec() -> bool {
        true
    }

    open spec fn try_from_spec(v: UnsignedIntegerBuf) -> Result<u128, Overflow> {
        if lexical_value(v@) <= u128::MAX {
            Ok(lexical_value(v@) as u128)
        } else {
            Err(Overflow)
        }
    }
}

impl<'a> TryFrom<&'a UnsignedInteger> for i128 {
    type Error = Overflow;

    fn try_from(i: &'a UnsignedInteger) -> (r: Result<i128, Overflow>)
        ensures
            r is Ok <==> lexical_value(i@) <= i128::MAX,
            r matches Ok(n) ==> n as int == lexical_value(i@),
            r matches Err(e) ==> e == Overflow,
    {
        match i.to_u128() {
            Some(x) => {
                if x <= (i128::MAX as u128) {
                    Ok(x as i128)
                } else {
                    Err(Overflow)
                }
            },
            None => Err(Overflow),
        }
    }
}

impl<'a> TryFromSpecImpl<&'a UnsignedInteger> for i128 {
    open spec fn obeys_try_from_spec() -> bool {
        true
    }

    open spec fn try_from_spec(v: &'a UnsignedInteger) -> Result<i128, Overflow> {
        if lexical_value(v@) <= i128::MAX {
            Ok(lexical_value(v@) as i128)
        } else {
            Err(Overflow)
        }
    }
}

impl TryFrom<UnsignedInteger> for i128 {
    type Error = Overflow;

    fn try_from(i: UnsignedInteger) -> (r: Result<i128, Overflow>)
        ensures
            r is Ok <==> lexical_value(i@) <= i128::MAX,
            r matches Ok(n) ==> n as int == lexical_value(i@),
            r matches Err(e) ==> e == Overflow,
    {
        match i.to_u128() {
            Some(x) => {
                if x <= (i128::MAX as u128) {
                    Ok(x as i128)
                } else {
                    Err(Overflow)
                }
            },
            None => Err(Overflow),
        }
    }
}

impl TryFromSpecImpl<UnsignedInteger> for i128 {
    open spec fn obeys_try_from_spec() -> bool {
        true
    }

    open spec fn try_from_spec(v: UnsignedInteger) -> Result<i128, Overflow> {
        if lexical_value(v@) <= i128::MAX {
            Ok(lexical_value(v@) as i128)
        } else {
            Err(Overflow)
        }
    }
}

impl TryFrom<UnsignedIntegerBuf> for i128 {
    type Error = Overflow;

    fn try_from(i: UnsignedIntegerBuf) -> (r: Result<i128, Overflow>)
        ensures
            r is Ok <==> lexical_value(i@) <= i128::MAX,
            r matches Ok(n) ==> n as int == lexical_value(i@),
            r matches Err(e) ==> e == Overflow,
    {
        match i.as_unsigned_integer().to_u128() {
            Some(x) => {
                if x <= (i128::MAX as u128) {
                    Ok(x as i128)
                } else {
                    Err(Overflow)
                }
            },
            None => Err(Overflow),
        }
    }
}

impl TryFromSpecImpl<UnsignedIntegerBuf> for i128 {
    open spec fn obeys_try_from_spec() -> bool {
        true
    }

    open spec fn try_from_spec(v: UnsignedIntegerBuf) -> Result<i128, Overflow> {
        if lexical_value(v@) <= i128::MAX {
            Ok(lexical_value(v@) as i128)
        } else {
            Err(Overflow)
        }
    }
}

impl<'a> TryFrom<&'a UnsignedInteger> for usize {
    type Error = Overflow;

    fn try_from(i: &'a UnsignedInteger) -> (r: Result<usize, Overflow>)
        ensures
            r is Ok <==> lexical_value(i@) <= usize::MAX,
            r matches Ok(n) ==> n as int == lexical_value(i@),
            r matches Err(e) ==> e == Overflow,
    {
        match i.to_u128() {
            Some(x) => {
                if x <= (usize::MAX as u128) {
                    Ok(x as usize)
                } else {
                    Err(Overflow)
                }
            },
            None => Err(Overflow),
        }
    }
}

impl<'a> TryFromSpecImpl<&'a UnsignedInteger> for usize {
    open spec fn obeys_try_from_spec() -> bool {
        true
    }

    open spec fn try_from_spec(v: &'a UnsignedInteger) -> Result<usize, Overflow> {
        if lexical_value(v@) <= usize::MAX {
            Ok(lexical_value(v@) as usize)
        } else {
            Err(Overflow)
        }
    }
}

impl TryFrom<UnsignedInteger> for usize {
    type Error = Overflow;

    fn try_from(i: UnsignedInteger) -> (r: Result<usize, Overflow>)
        ensures
            r is Ok <==> lexical_value(i@) <= usize::MAX,
            r matches Ok(n) ==> n as int == lexical_value(i@),
            r matches Err(e) ==> e == Overflow,
    {
        match i.to_u128() {
            Some(x) => {
                if x <= (usize::MAX as u128) {
                    Ok(x as usize)
                } else {
                    Err(Overflow)
                }
            },
            None => Err(Overflow),
        }
    }
}

impl TryFromSpecImpl<UnsignedInteger> for usize {
    open spec fn obeys_try_from_spec() -> bool {
        true
    }

    open spec fn try_from_spec(v: UnsignedInteger) -> Result<usize, Overflow> {
        if lexical_value(v@) <= usize::MAX {
            Ok(lexical_value(v@) as usize)
        } else {
            Err(Overflow)
        }
    }
}

impl TryFrom<UnsignedIntegerBuf> for usize {
    type Error = Overflow;

    fn try_from(i: UnsignedIntegerBuf) -> (r: Result<usize, Overflow>)
        ensures
            r is Ok <==> lexical_value(i@) <= usize::MAX,
            r matches Ok(n) ==> n as int == lexical_value(i@),
            r matches Err(e) ==> e == Overflow,
    {
        match i.as_unsigned_integer().to_u128() {
            Some(x) => {
                if x <= (usize::MAX as u128) {
                    Ok(x as usize)
                } else {
                    Err(Overflow)
                }
            },
            None => Err(Overflow),
        }
    }
}

impl TryFromSpecImpl<UnsignedIntegerBuf> for usize {
    open spec fn obeys_try_from_spec() -> bool {
        true
    }

    open spec fn try_from_spec(v: UnsignedIntegerBuf) -> Result<usize, Overflow> {
        if lexical_value(v@) <= usize::MAX {
            Ok(lexical_value(v@) as usize)
        } else {
            Err(Overflow)
        }
    }
}

impl<'a> TryFrom<&'a UnsignedInteger> for isize {
    type Error = Overflow;

    fn try_from(i: &'a UnsignedInteger) -> (r: Result<isize, Overflow>)
        ensures
            r is Ok <==> lexical_value(i@) <= isize::MAX,
            r matches Ok(n) ==> n as int == lexical_value(i@),
            r matches Err(e) ==> e == Overflow,
    {
        match i.to_u128() {
            Some(x) => {
                if x <= (isize::MAX as u128) {
                    Ok(x as isize)
                } else {
                    Err(Overflow)
                }
            },
            None => Err(Overflow),
        }
    }
}

impl<'a> TryFromSpecImpl<&'a UnsignedInteger> for isize {
    open spec fn obeys_try_from_spec() -> bool {
        true
    }

    open spec fn try_from_spec(v: &'a UnsignedInteger) -> Result<isize, Overflow> {
        if lexical_value(v@) <= isize::MAX {
            Ok(lexical_value(v@) as isize)
        } else {
            Err(Overflow)
        }
    }
}

impl TryFrom<UnsignedInteger> for isize {
    type Error = Overflow;

    fn try_from(i: UnsignedInteger) -> (r: Result<isize, Overflow>)
        ensures
            r is Ok <==> lexical_value(i@) <= isize::MAX,
            r matches Ok(n) ==> n as int == lexical_value(i@),
            r matches Err(e) ==> e == Overflow,
    {
        match i.to_u128() {
            Some(x) => {
                if x <= (isize::MAX as u128) {
                    Ok(x as isize)
                } else {
                    Err(Overflow)
                }
            },
            None => Err(Overflow),
        }
    }
}

impl TryFromSpecImpl<UnsignedInteger> for isize {
    open spec fn obeys_try_from_spec() -> bool {
        true
    }

    open spec fn try_from_spec(v: UnsignedInteger) -> Result<isize, Overflow> {
        if lexical_value(v@) <= isize::MAX {
            Ok(lexical_value(v@) as isize)
        } else {
            Err(Overflow)
        }
    }
}

impl TryFrom<UnsignedIntegerBuf> for isize {
    type Error = Overflow;

    fn try_from(i: UnsignedIntegerBuf) -> (r: Result<isize, Overflow>)
        ensures
            r is Ok <==> lexical_value(i@) <= isize::MAX,
            r matches Ok(n) ==> n as int == lexical_value(i@),
            r matches Err(e) ==> e == Overflow,
    {
        match i.as_unsigned_integer().to_u128() {
            Some(x) => {
                if x <= (isize::MAX as u128) {
                    Ok(x as isize)
                } else {
                    Err(Overflow)
                }
            },
            None => Err(Overflow),
        }
    }
}

impl TryFromSpecImpl<UnsignedIntegerBuf> for isize {
    open spec fn obeys_try_from_spec() -> bool {
        true
    }

    open spec fn try_from_spec(v: UnsignedIntegerBuf) -> Result<isize, Overflow> {
        if lexical_value(v@) <= isize::MAX {
            Ok(lexical_value(v@) as isize)
        } else {
            Err(Overflow)
        }
    }
}
/// Converting any lexical form (borrowed, owned or `UnsignedIntegerBuf`,
/// with or without `'+'` and leading zeros) to `u8` succeeds exactly when
/// the number fits in `u8`, and then gives that number unchanged;
/// otherwise it fails with `Overflow`.
pub proof fn law_lexical_to_u8<'a>(r: &'a UnsignedInteger, o: UnsignedInteger, b: UnsignedIntegerBuf)
    ensures
        (<u8 as TryFromSpec<&'a UnsignedInteger>>::try_from_spec(r) is Ok) <==> lexical_value(r@) <= u8::MAX,
        <u8 as TryFromSpec<&'a UnsignedInteger>>::try_from_spec(r) matches Ok(n) ==> n as int == lexical_value(r@),
        <u8 as TryFromSpec<&'a UnsignedInteger>>::try_from_spec(r) matches Err(e) ==> e == Overflow,
        (<u8 as TryFromSpec<UnsignedInteger>>::try_from_spec(o) is Ok) <==> lexical_value(o@) <= u8::MAX,
        <u8 as TryFromSpec<UnsignedInteger>>::try_from_spec(o) matches Ok(n) ==> n as int == lexical_value(o@),
        <u8 as TryFromSpec<UnsignedInteger>>::try_from_spec(o) matches Err(e) ==> e == Overflow,
        (<u8 as TryFromSpec<UnsignedIntegerBuf>>::try_from_spec(b) is Ok) <==> lexical_value(b@) <= u8::MAX,
        <u8 as TryFromSpec<UnsignedIntegerBuf>>::try_from_spec(b) matches Ok(n) ==> n as int == lexical_value(b@),
        <u8 as TryFromSpec<UnsignedIntegerBuf>>::try_from_spec(b) matches Err(e) ==> e == Overflow,
{
}

/// Converting any lexical form (borrowed, owned or `UnsignedIntegerBuf`,
/// with or without `'+'` and leading zeros) to `i8` succeeds exactly when
/// the number fits in `i8`, and then gives that number unchanged;
/// otherwise it fails with `Overflow`.
pub proof fn law_lexical_to_i8<'a>(r: &'a UnsignedInteger, o: UnsignedInteger, b: UnsignedIntegerBuf)
    ensures
        (<i8 as TryFromSpec<&'a UnsignedInteger>>::try_from_spec(r) is Ok) <==> lexical_value(r@) <= i8::MAX,
        <i8 as TryFromSpec<&'a UnsignedInteger>>::try_from_spec(r) matches Ok(n) ==> n as int == lexical_value(r@),
        <i8 as TryFromSpec<&'a UnsignedInteger>>::try_from_spec(r) matches Err(e) ==> e == Overflow,
        (<i8 as TryFromSpec<UnsignedInteger>>::try_from_spec(o) is Ok) <==> lexical_value(o@) <= i8::MAX,
        <i8 as TryFromSpec<UnsignedInteger>>::try_from_spec(o) matches Ok(n) ==> n as int == lexical_value(o@),
        <i8 as TryFromSpec<UnsignedInteger>>::try_from_spec(o) matches Err(e) ==> e == Overflow,
        (<i8 as TryFromSpec<UnsignedIntegerBuf>>::try_from_spec(b) is Ok) <==> lexical_value(b@) <= i8::MAX,
        <i8 as TryFromSpec<UnsignedIntegerBuf>>::try_from_spec(b) matches Ok(n) ==> n as int == lexical_value(b@),
        <i8 as TryFromSpec<UnsignedIntegerBuf>>::try_from_spec(b) matches Err(e) ==> e == Overflow,
{
}

/// Converting any lexical form (borrowed, owned or `UnsignedIntegerBuf`,
/// with or without `'+'` and leading zeros) to `u16` succeeds exactly when
/// the number fits in `u16`, and then gives that number unchanged;
/// otherwise it fails with `Overflow`.
pub proof fn law_lexical_to_u16<'a>(r: &'a UnsignedInteger, o: UnsignedInteger, b: UnsignedIntegerBuf)
    ensures
        (<u16 as TryFromSpec<&'a UnsignedInteger>>::try_from_spec(r) is Ok) <==> lexical_value(r@) <= u16::MAX,
        <u16 as TryFromSpec<&'a UnsignedInteger>>::try_from_spec(r) matches Ok(n) ==> n as int == lexical_value(r@),
        <u16 as TryFromSpec<&'a UnsignedInteger>>::try_from_spec(r) matches Err(e) ==> e == Overflow,
        (<u16 as TryFromSpec<UnsignedInteger>>::try_from_spec(o) is Ok) <==> lexical_value(o@) <= u16::MAX,
        <u16 as TryFromSpec<UnsignedInteger>>::try_from_spec(o) matches Ok(n) ==> n as int == lexical_value(o@),
        <u16 as TryFromSpec<UnsignedInteger>>::try_from_spec(o) matches Err(e) ==> e == Overflow,
        (<u16 as TryFromSpec<UnsignedIntegerBuf>>::try_from_spec(b) is Ok) <==> lexical_value(b@) <= u16::MAX,
        <u16 as TryFromSpec<UnsignedIntegerBuf>>::try_from_spec(b) matches Ok(n) ==> n as int == lexical_value(b@),
        <u16 as TryFromSpec<UnsignedIntegerBuf>>::try_from_spec(b) matches Err(e) ==> e == Overflow,
{
}

/// Converting any lexical form (borrowed, owned or `UnsignedIntegerBuf`,
/// with or without `'+'` and leading zeros) to `i16` succeeds exactly when
/// the number fits in `i16`, and then gives that number unchanged;
/// otherwise it fails with `Overflow`.
pub proof fn law_lexical_to_i16<'a>(r: &'a UnsignedInteger, o: UnsignedInteger, b: UnsignedIntegerBuf)
    ensures
        (<i16 as TryFromSpec<&'a UnsignedInteger>>::try_from_spec(r) is Ok) <==> lexical_value(r@) <= i16::MAX,
        <i16 as TryFromSpec<&'a UnsignedInteger>>::try_from_spec(r) matches Ok(n) ==> n as int == lexical_value(r@),
        <i16 as TryFromSpec<&'a UnsignedInteger>>::try_from_spec(r) matches Err(e) ==> e == Overflow,
        (<i16 as TryFromSpec<UnsignedInteger>>::try_from_spec(o) is Ok) <==> lexical_value(o@) <= i16::MAX,
        <i16 as TryFromSpec<UnsignedInteger>>::try_from_spec(o) matches Ok(n) ==> n as int == lexical_value(o@),
        <i16 as TryFromSpec<UnsignedInteger>>::try_from_spec(o) matches Err(e) ==> e == Overflow,
        (<i16 as TryFromSpec<UnsignedIntegerBuf>>::try_from_spec(b) is Ok) <==> lexical_value(b@) <= i16::MAX,
        <i16 as TryFromSpec<UnsignedIntegerBuf>>::try_from_spec(b) matches Ok(n) ==> n as int == lexical_value(b@),
        <i16 as TryFromSpec<UnsignedIntegerBuf>>::try_from_spec(b) matches Err(e) ==> e == Overflow,
{
}

/// Converting any lexical form (borrowed, owned or `UnsignedIntegerBuf`,
/// with or without `'+'` and leading zeros) to `u32` succeeds exactly when
/// the number fits in `u32`, and then gives that number unchanged;
/// otherwise it fails with `Overflow`.
pub proof fn law_lexical_to_u32<'a>(r: &'a UnsignedInteger, o: UnsignedInteger, b: UnsignedIntegerBuf)
    ensures
        (<u32 as TryFromSpec<&'a UnsignedInteger>>::try_from_spec(r) is Ok) <==> lexical_value(r@) <= u32::MAX,
        <u32 as TryFromSpec<&'a UnsignedInteger>>::try_from_spec(r) matches Ok(n) ==> n as int == lexical_value(r@),
        <u32 as TryFromSpec<&'a UnsignedInteger>>::try_from_spec(r) matches Err(e) ==> e == Overflow,
        (<u32 as TryFromSpec<UnsignedInteger>>::try_from_spec(o) is Ok) <==> lexical_value(o@) <= u32::MAX,
        <u32 as TryFromSpec<UnsignedInteger>>::try_from_spec(o) matches Ok(n) ==> n as int == lexical_value(o@),
        <u32 as TryFromSpec<UnsignedInteger>>::try_from_spec(o) matches Err(e) ==> e == Overflow,
        (<u32 as TryFromSpec<UnsignedIntegerBuf>>::try_from_spec(b) is Ok) <==> lexical_value(b@) <= u32::MAX,
        <u32 as TryFromSpec<UnsignedIntegerBuf>>::try_from_spec(b) matches Ok(n) ==> n as int == lexical_value(b@),
        <u32 as TryFromSpec<UnsignedIntegerBuf>>::try_from_spec(b) matches Err(e) ==> e == Overflow,
{
}

/// Converting any lexical form (borrowed, owned or `UnsignedIntegerBuf`,
/// with or without `'+'` and leading zeros) to `i32` succeeds exactly when
/// the number fits in `i32`, and then gives that number unchanged;
/// otherwise it fails with `Overflow`.
pub proof fn law_lexical_to_i32<'a>(r: &'a UnsignedInteger, o: UnsignedInteger, b: UnsignedIntegerBuf)
    ensures
        (<i32 as TryFromSpec<&'a UnsignedInteger>>::try_from_spec(r) is Ok) <==> lexical_value(r@) <= i32::MAX,
        <i32 as TryFromSpec<&'a UnsignedInteger>>::try_from_spec(r) matches Ok(n) ==> n as int == lexical_value(r@),
        <i32 as TryFromSpec<&'a UnsignedInteger>>::try_from_spec(r) matches Err(e) ==> e == Overflow,
        (<i32 as TryFromSpec<UnsignedInteger>>::try_from_spec(o) is Ok) <==> lexical_value(o@) <= i32::MAX,
        <i32 as TryFromSpec<UnsignedInteger>>::try_from_spec(o) matches Ok(n) ==> n as int == lexical_value(o@),
        <i32 as TryFromSpec<UnsignedInteger>>::try_from_spec(o) matches Err(e) ==> e == Overflow,
        (<i32 as TryFromSpec<UnsignedIntegerBuf>>::try_from_spec(b) is Ok) <==> lexical_value(b@) <= i32::MAX,
        <i32 as TryFromSpec<UnsignedIntegerBuf>>::try_from_spec(b) matches Ok(n) ==> n as int == lexical_value(b@),
        <i32 as TryFromSpec<UnsignedIntegerBuf>>::try_from_spec(b) matches Err(e) ==> e == Overflow,
{
}

/// Converting any lexical form (borrowed, owned or `UnsignedIntegerBuf`,
/// with or without `'+'` and leading zeros) to `u64` succeeds exactly when
/// the number fits in `u64`, and then gives that number unchanged;
/// otherwise it fails with `Overflow`.
pub proof fn law_lexical_to_u64<'a>(r: &'a UnsignedInteger, o: UnsignedInteger, b: UnsignedIntegerBuf)
    ensures
        (<u64 as TryFromSpec<&'a UnsignedInteger>>::try_from_spec(r) is Ok) <==> lexical_value(r@) <= u64::MAX,
        <u64 as TryFromSpec<&'a UnsignedInteger>>::try_from_spec(r) matches Ok(n) ==> n as int == lexical_value(r@),
        <u64 as TryFromSpec<&'a UnsignedInteger>>::try_from_spec(r) matches Err(e) ==> e == Overflow,
        (<u64 as TryFromSpec<UnsignedInteger>>::try_from_spec(o) is Ok) <==> lexical_value(o@) <= u64::MAX,
        <u64 as TryFromSpec<UnsignedInteger>>::try_from_spec(o) matches Ok(n) ==> n as int == lexical_value(o@),
        <u64 as TryFromSpec<UnsignedInteger>>::try_from_spec(o) matches Err(e) ==> e == Overflow,
        (<u64 as TryFromSpec<UnsignedIntegerBuf>>::try_from_spec(b) is Ok) <==> lexical_value(b@) <= u64::MAX,
        <u64 as TryFromSpec<UnsignedIntegerBuf>>::try_from_spec(b) matches Ok(n) ==> n as int == lexical_value(b@),
        <u64 as TryFromSpec<UnsignedIntegerBuf>>::try_from_spec(b) matches Err(e) ==> e == Overflow,
{
}

/// Converting any lexical form (borrowed, owned or `UnsignedIntegerBuf`,
/// with or without `'+'` and leading zeros) to `i64` succeeds exactly when
/// the number fits in `i64`, and then gives that number unchanged;
/// otherwise it fails with `Overflow`.
pub proof fn law_lexical_to_i64<'a>(r: &'a UnsignedInteger, o: UnsignedInteger, b: UnsignedIntegerBuf)
    ensures
        (<i64 as TryFromSpec<&'a UnsignedInteger>>::try_from_spec(r) is Ok) <==> lexical_value(r@) <= i64::MAX,
        <i64 as TryFromSpec<&'a UnsignedInteger>>::try_from_spec(r) matches Ok(n) ==> n as int == lexical_value(r@),
        <i64 as TryFromSpec<&'a UnsignedInteger>>::try_from_spec(r) matches Err(e) ==> e == Overflow,
        (<i64 as TryFromSpec<UnsignedInteger>>::try_from_spec(o) is Ok) <==> lexical_value(o@) <= i64::MAX,
        <i64 as TryFromSpec<UnsignedInteger>>::try_from_spec(o) matches Ok(n) ==> n as int == lexical_value(o@),
        <i64 as TryFromSpec<UnsignedInteger>>::try_from_spec(o) matches Err(e) ==> e == Overflow,
        (<i64 as TryFromSpec<UnsignedIntegerBuf>>::try_from_spec(b) is Ok) <==> lexical_value(b@) <= i64::MAX,
        <i64 as TryFromSpec<UnsignedIntegerBuf>>::try_from_spec(b) matches Ok(n) ==> n as int == lexical_value(b@),
        <i64 as TryFromSpec<UnsignedIntegerBuf>>::try_from_spec(b) matches Err(e) ==> e == Overflow,
{
}

/// Converting any lexical form (borrowed, owned or `UnsignedIntegerBuf`,
/// with or without `'+'` and leading zeros) to `u128` succeeds exactly when
/// the number fits in `u128`, and then gives that number unchanged;
/// otherwise it fails with `Overflow`.
pub proof fn law_lexical_to_u128<'a>(r: &'a UnsignedInteger, o: UnsignedInteger, b: UnsignedIntegerBuf)
    ensures
        (<u128 as TryFromSpec<&'a UnsignedInteger>>::try_from_spec(r) is Ok) <==> lexical_value(r@) <= u128::MAX,
        <u128 as TryFromSpec<&'a UnsignedInteger>>::try_from_spec(r) matches Ok(n) ==> n as int == lexical_value(r@),
        <u128 as TryFromSpec<&'a UnsignedInteger>>::try_from_spec(r) matches Err(e) ==> e == Overflow,
        (<u128 as TryFromSpec<UnsignedInteger>>::try_from_spec(o) is Ok) <==> lexical_value(o@) <= u128::MAX,
        <u128 as TryFromSpec<UnsignedInteger>>::try_from_spec(o) matches Ok(n) ==> n as int == lexical_value(o@),
        <u128 as TryFromSpec<UnsignedInteger>>::try_from_spec(o) matches Err(e) ==> e == Overflow,
        (<u128 as TryFromSpec<UnsignedIntegerBuf>>::try_from_spec(b) is Ok) <==> lexical_value(b@) <= u128::MAX,
        <u128 as TryFromSpec<UnsignedIntegerBuf>>::try_from_spec(b) matches Ok(n) ==> n as int == lexical_value(b@),
        <u128 as TryFromSpec<UnsignedIntegerBuf>>::try_from_spec(b) matches Err(e) ==> e == Overflow,
{
}

/// Converting any lexical form (borrowed, owned or `UnsignedIntegerBuf`,
/// with or without `'+'` and leading zeros) to `i128` succeeds exactly when
/// the number fits in `i128`, and then gives that number unchanged;
/// otherwise it fails with `Overflow`.
pub proof fn law_lexical_to_i128<'a>(r: &'a UnsignedInteger, o: UnsignedInteger, b: UnsignedIntegerBuf)
    ensures
        (<i128 as TryFromSpec<&'a UnsignedInteger>>::try_from_spec(r) is Ok) <==> lexical_value(r@) <= i128::MAX,
        <i128 as TryFromSpec<&'a UnsignedInteger>>::try_from_spec(r) matches Ok(n) ==> n as int == lexical_value(r@),
        <i128 as TryFromSpec<&'a UnsignedInteger>>::try_from_spec(r) matches Err(e) ==> e == Overflow,
        (<i128 as TryFromSpec<UnsignedInteger>>::try_from_spec(o) is Ok) <==> lexical_value(o@) <= i128::MAX,
        <i128 as TryFromSpec<UnsignedInteger>>::try_from_spec(o) matches Ok(n) ==> n as int == lexical_value(o@),
        <i128 as TryFromSpec<UnsignedInteger>>::try_from_spec(o) matches Err(e) ==> e == Overflow,
        (<i128 as TryFromSpec<UnsignedIntegerBuf>>::try_from_spec(b) is Ok) <==> lexical_value(b@) <= i128::MAX,
        <i128 as TryFromSpec<UnsignedIntegerBuf>>::try_from_spec(b) matches Ok(n) ==> n as int == lexical_value(b@),
        <i128 as TryFromSpec<UnsignedIntegerBuf>>::try_from_spec(b) matches Err(e) ==> e == Overflow,
{
}

/// Converting any lexical form (borrowed, owned or `UnsignedIntegerBuf`,
/// with or without `'+'` and leading zeros) to `usize` succeeds exactly when
/// the number fits in `usize`, and then gives that number unchanged;
/// otherwise it fails with `Overflow`.
pub proof fn law_lexical_to_usize<'a>(r: &'a UnsignedInteger, o: UnsignedInteger, b: UnsignedIntegerBuf)
    ensures
        (<usize as TryFromSpec<&'a UnsignedInteger>>::try_from_spec(r) is Ok) <==> lexical_value(r@) <= usize::MAX,
        <usize as TryFromSpec<&'a UnsignedInteger>>::try_from_spec(r) matches Ok(n) ==> n as int == lexical_value(r@),
        <usize as TryFromSpec<&'a UnsignedInteger>>::try_from_spec(r) matches Err(e) ==> e == Overflow,
        (<usize as TryFromSpec<UnsignedInteger>>::try_from_spec(o) is Ok) <==> lexical_value(o@) <= usize::MAX,
        <usize as TryFromSpec<UnsignedInteger>>::try_from_spec(o) matches Ok(n) ==> n as int == lexical_value(o@),
        <usize as TryFromSpec<UnsignedInteger>>::try_from_spec(o) matches Err(e) ==> e == Overflow,
        (<usize as TryFromSpec<UnsignedIntegerBuf>>::try_from_spec(b) is Ok) <==> lexical_value(b@) <= usize::MAX,
        <usize as TryFromSpec<UnsignedIntegerBuf>>::try_from_spec(b) matches Ok(n) ==> n as int == lexical_value(b@),
        <usize as TryFromSpec<UnsignedIntegerBuf>>::try_from_spec(b) matches Err(e) ==> e == Overflow,
{
}

/// Converting any lexical form (borrowed, owned or `UnsignedIntegerBuf`,
/// with or without `'+'` and leading zeros) to `isize` succeeds exactly when
/// the number fits in `isize`, and then gives that number unchanged;
/// otherwise it fails with `Overflow`.
pub proof fn law_lexical_to_isize<'a>(r: &'a UnsignedInteger, o: UnsignedInteger, b: UnsignedIntegerBuf)
    ensures
        (<isize as TryFromSpec<&'a UnsignedInteger>>::try_from_spec(r) is Ok) <==> lexical_value(r@) <= isize::MAX,
        <isize as TryFromSpec<&'a UnsignedInteger>>::try_from_spec(r) matches Ok(n) ==> n as int == lexical_value(r@),
        <isize as TryFromSpec<&'a UnsignedInteger>>::try_from_spec(r) matches Err(e) ==> e == Overflow,
        (<isize as TryFromSpec<UnsignedInteger>>::try_from_spec(o) is Ok) <==> lexical_value(o@) <= isize::MAX,
        <isize as TryFromSpec<UnsignedInteger>>::try_from_spec(o) matches Ok(n) ==> n as int == lexical_value(o@),
        <isize as TryFromSpec<UnsignedInteger>>::try_from_spec(o) matches Err(e) ==> e == Overflow,
        (<isize as TryFromSpec<UnsignedIntegerBuf>>::try_from_spec(b) is Ok) <==> lexical_value(b@) <= isize::MAX,
        <isize as TryFromSpec<UnsignedIntegerBuf>>::try_from_spec(b) matches Ok(n) ==> n as int == lexical_value(b@),
        <isize as TryFromSpec<UnsignedIntegerBuf>>::try_from_spec(b) matches Err(e) ==> e == Overflow,
{
}

} // verus!
