//! Properties that relate several operations of the library, stated over
//! the spec functions their contracts use.
use crate::decimal::{
    decimal_digits, digits_part, is_canonical_digits, is_lexical, lemma_decimal_digits,
    lemma_decimal_digits_injective, lexical_value, unsigned_int_max,
};
use crate::value::bigint::biguint_value;
use num_bigint::BigUint;
use crate::lexical::buf::UnsignedIntegerBuf;
use crate::lexical::conversion::Overflow;
use crate::value::conversion::UnsignedIntegerOutOfTargetBounds;
use crate::value::le::{is_canonical_le, le_bytes_of, le_value, lemma_le_bytes_of, lemma_le_unique};
use crate::value::unsigned_integer::UnsignedInteger;
use vstd::prelude::*;
use vstd::std_specs::convert::TryFromSpec;

verus! {

/// The canonical form (`canonical`) of a lexical form is itself a lexical
/// form, and taking the canonical form again changes nothing.
pub proof fn law_canonical_idempotent(s: Seq<u8>)
    requires
        is_lexical(s),
    ensures
        is_lexical(decimal_digits(lexical_value(s))),
        decimal_digits(lexical_value(decimal_digits(lexical_value(s)))) == decimal_digits(
            lexical_value(s),
        ),
{
    law_representation_denotes_value(lexical_value(s));
}

/// Two lexical forms are equal (`==`) exactly when their canonical forms
/// are the same string.
pub proof fn law_equal_iff_same_canonical(a: Seq<u8>, b: Seq<u8>)
    requires
        is_lexical(a),
        is_lexical(b),
    ensures
        (lexical_value(a) == lexical_value(b)) <==> (decimal_digits(lexical_value(a))
            == decimal_digits(lexical_value(b))),
{
    lemma_decimal_digits_injective(lexical_value(a), lexical_value(b));
}

/// The decimal spelling of a number (`lexical_representation`,
/// `to_decimal_string`, and `From`/`TryFrom` of a primitive integer into
/// `UnsignedIntegerBuf`) has no leading zeros and denotes the number:
/// parsing it back (`value`, `from_str`) gives the number again. It is a
/// lexical form exactly when the number is at most 4294967295.
pub proof fn law_representation_denotes_value(n: nat)
    ensures
        is_lexical(decimal_digits(n)) <==> n <= unsigned_int_max(),
        is_canonical_digits(decimal_digits(n)),
        lexical_value(decimal_digits(n)) == n,
{
    lemma_decimal_digits(n);
    assert(digits_part(decimal_digits(n)) =~= decimal_digits(n));
}

/// Converting a `u64` (at most 4294967295) into a lexical form and back
/// gives the `u64` again.
pub proof fn law_lexical_u64_round_trip(i: u64, b: UnsignedIntegerBuf)
    requires
        i <= unsigned_int_max(),
        b@ == decimal_digits(i as nat),
    ensures
        <u64 as TryFromSpec<UnsignedIntegerBuf>>::try_from_spec(b) == Ok::<u64, Overflow>(i),
{
    law_representation_denotes_value(i as nat);
}

/// Converting a `u32` into a lexical form and back gives the `u32` again.
pub proof fn law_lexical_u32_round_trip(i: u32, b: UnsignedIntegerBuf)
    requires
        b@ == decimal_digits(i as nat),
    ensures
        <u32 as TryFromSpec<UnsignedIntegerBuf>>::try_from_spec(b) == Ok::<u32, Overflow>(i),
{
    law_representation_denotes_value(i as nat);
}

/// Converting a `u64` into a value and back gives the `u64` again.
pub proof fn law_value_u64_round_trip(i: u64, v: UnsignedInteger)
    requires
        v@ == i,
    ensures
        <u64 as TryFromSpec<UnsignedInteger>>::try_from_spec(v) == Ok::<
            u64,
            UnsignedIntegerOutOfTargetBounds,
        >(i),
{
}

/// The minimal little-endian spelling is a function of the number: two
/// values have the same bytes (`to_bytes_le`) exactly when they are equal,
/// and the bytes of a value read back (`from_bytes_le`) give it again.
pub proof fn law_le_bytes_determined_by_value(a: Seq<u8>, b: Seq<u8>)
    requires
        is_canonical_le(a),
        is_canonical_le(b),
    ensures
        (a == b) <==> (le_value(a) == le_value(b)),
        a == le_bytes_of(le_value(a)),
{
    if le_value(a) == le_value(b) {
        lemma_le_unique(a, b);
    }
    lemma_le_bytes_of(le_value(a));
    lemma_le_unique(a, le_bytes_of(le_value(a)));
}

/// A value converted into a `BigUint` (`into_big_uint`) and back (`new`)
/// is the same number, and so is a `BigUint` converted into a value and back.
pub proof fn law_big_uint_round_trip(v: UnsignedInteger, n: BigUint, w: UnsignedInteger, m: BigUint)
    requires
        biguint_value(n) == v@,
        w@ == biguint_value(n),
        biguint_value(m) == w@,
    ensures
        w@ == v@,
        biguint_value(m) == biguint_value(n),
{
}

/// Subtracting what was added gives the number back, and the subtraction
/// is allowed (its minuend is at least its subtrahend).
pub proof fn law_add_then_sub(a: UnsignedInteger, b: UnsignedInteger, sum: UnsignedInteger)
    requires
        sum@ == a@ + b@,
    ensures
        sum@ >= b@,
        sum@ - b@ == a@,
{
}

/// Dividing a product by a non-zero factor gives the other factor back.
pub proof fn law_mul_then_div(a: UnsignedInteger, b: UnsignedInteger, product: UnsignedInteger)
    requires
        b@ != 0,
        product@ == a@ * b@,
    ensures
        product@ / b@ == a@,
{
    vstd::arithmetic::div_mod::lemma_div_by_multiple(a@ as int, b@ as int);
}

} // verus!
