//! Mathematical model of decimal digit strings and the lexical space of
//! `xsd:unsignedInt`-style integers, with the lemmas the executable code
//! relies on.
use vstd::prelude::*;

verus! {

/// `b` is one of the ASCII digits `'0'..='9'`.
pub open spec fn is_digit(b: u8) -> bool {
    48 <= b && b <= 57
}

/// Every byte of `d` is an ASCII digit.
pub open spec fn all_digits(d: Seq<u8>) -> bool {
    forall|i: int| 0 <= i < d.len() ==> is_digit(#[trigger] d[i])
}

/// Numeric value of a single ASCII digit.
pub open spec fn digit_value(b: u8) -> nat {
    (b - 48) as nat
}

/// Value of a big-endian string of decimal digits (the empty string is 0).
pub open spec fn decimal_value(d: Seq<u8>) -> nat
    decreases d.len(),
{
    if d.len() == 0 {
        0
    } else {
        decimal_value(d.drop_last()) * 10 + digit_value(d.last())
    }
}

/// `10^n`.
pub open spec fn pow10(n: nat) -> nat
    decreases n,
{
    if n == 0 {
        1
    } else {
        10 * pow10((n - 1) as nat)
    }
}

/// A non-empty digit string without superfluous leading zeros.
pub open spec fn is_canonical_digits(d: Seq<u8>) -> bool {
    &&& d.len() >= 1
    &&& all_digits(d)
    &&& d.len() > 1 ==> d[0] != 48
}

/// The canonical decimal spelling of `n`: its digits, most significant
/// first, without leading zeros (`"0"` for zero).
pub open spec fn decimal_digits(n: nat) -> Seq<u8>
    decreases n,
{
    if n < 10 {
        seq![(n + 48) as u8]
    } else {
        decimal_digits(n / 10).push(((n % 10) + 48) as u8)
    }
}

/// The digits of a lexical form: everything after an optional leading `'+'`.
pub open spec fn digits_part(s: Seq<u8>) -> Seq<u8> {
    if s.len() > 0 && s[0] == 43 {
        s.drop_first()
    } else {
        s
    }
}

/// The largest value of `xsd:unsignedInt`.
pub open spec fn unsigned_int_max() -> nat {
    4294967295
}

/// The lexical shape: an optional `'+'` followed by one or more decimal digits.
pub open spec fn is_digit_string(s: Seq<u8>) -> bool {
    digits_part(s).len() > 0 && all_digits(digits_part(s))
}

/// The lexical space of `xsd:unsignedInt`: an optional `'+'` followed by
/// one or more decimal digits, denoting at most 4294967295.
pub open spec fn is_lexical(s: Seq<u8>) -> bool {
    is_digit_string(s) && lexical_value(s) <= unsigned_int_max()
}

/// The number a lexical form denotes.
pub open spec fn lexical_value(s: Seq<u8>) -> nat {
    decimal_value(digits_part(s))
}

pub proof fn lemma_pow10_positive(n: nat)
    ensures
        pow10(n) >= 1,
    decreases n,
{
    if n > 0 {
        lemma_pow10_positive((n - 1) as nat);
    }
}

pub proof fn lemma_pow10_monotone(a: nat, b: nat)
    requires
        a <= b,
    ensures
        pow10(a) <= pow10(b),
    decreases b,
{
    if a < b {
        lemma_pow10_monotone(a, (b - 1) as nat);
        lemma_pow10_positive((b - 1) as nat);
    }
}

/// Splitting a digit string: `value(a + b) == value(a) * 10^|b| + value(b)`.
pub proof fn lemma_value_concat(a: Seq<u8>, b: Seq<u8>)
    ensures
        decimal_value(a + b) == decimal_value(a) * pow10(b.len()) + decimal_value(b),
    decreases b.len(),
{
    if b.len() == 0 {
        assert(a + b =~= a);
        assert(pow10(0) == 1);
        assert(decimal_value(b) == 0);
    } else {
        let b1 = b.drop_last();
        assert((a + b).drop_last() =~= a + b1);
        assert((a + b).last() == b.last());
        lemma_value_concat(a, b1);
        let va = decimal_value(a);
        let vb1 = decimal_value(b1);
        let p = pow10(b1.len());
        assert(pow10(b.len()) == 10 * p);
        assert(decimal_value(a + b) == decimal_value(a + b1) * 10 + digit_value(b.last()));
        assert(decimal_value(b) == vb1 * 10 + digit_value(b.last()));
        assert((va * p + vb1) * 10 == va * (10 * p) + vb1 * 10) by (nonlinear_arith);
    }
}

/// A digit string of length `n` denotes a number below `10^n`.
pub proof fn lemma_value_bound(d: Seq<u8>)
    requires
        all_digits(d),
    ensures
        decimal_value(d) < pow10(d.len()),
    decreases d.len(),
{
    if d.len() > 0 {
        let d1 = d.drop_last();
        assert(all_digits(d1)) by {
            assert forall|i: int| 0 <= i < d1.len() implies is_digit(#[trigger] d1[i]) by {
                assert(d1[i] == d[i]);
            }
        }
        lemma_value_bound(d1);
        assert(is_digit(d[d.len() - 1]));
        let v1 = decimal_value(d1);
        let p1 = pow10(d1.len());
        assert(v1 + 1 <= p1);
        assert(v1 * 10 + 10 <= p1 * 10) by (nonlinear_arith)
            requires
                v1 + 1 <= p1,
        ;
    }
}

/// A canonical digit string of length at least two denotes at least `10^(n-1)`.
pub proof fn lemma_value_lower_bound(d: Seq<u8>)
    requires
        is_canonical_digits(d),
        d.len() >= 2,
    ensures
        decimal_value(d) >= pow10((d.len() - 1) as nat),
{
    let head = d.subrange(0, 1);
    let tail = d.subrange(1, d.len() as int);
    assert(d =~= head + tail);
    lemma_value_concat(head, tail);
    assert(head.drop_last() =~= Seq::<u8>::empty());
    assert(decimal_value(Seq::<u8>::empty()) == 0);
    assert(head.last() == d[0]);
    assert(is_digit(d[0]));
    assert(decimal_value(head) == digit_value(d[0]));
    assert(decimal_value(head) >= 1);
    let p = pow10(tail.len());
    assert(decimal_value(head) * p >= p) by (nonlinear_arith)
        requires
            decimal_value(head) >= 1,
    ;
}

/// A digit string denotes zero exactly when all its digits are `'0'`.
pub proof fn lemma_value_zero(d: Seq<u8>)
    requires
        all_digits(d),
    ensures
        decimal_value(d) == 0 <==> (forall|i: int| 0 <= i < d.len() ==> d[i] == 48),
    decreases d.len(),
{
    if d.len() > 0 {
        let d1 = d.drop_last();
        assert(all_digits(d1)) by {
            assert forall|i: int| 0 <= i < d1.len() implies is_digit(#[trigger] d1[i]) by {
                assert(d1[i] == d[i]);
            }
        }
        lemma_value_zero(d1);
        assert(is_digit(d[d.len() - 1]));
        if decimal_value(d) == 0 {
            assert forall|i: int| 0 <= i < d.len() implies d[i] == 48 by {
                if i < d.len() - 1 {
                    assert(d1[i] == d[i]);
                }
            }
        }
        if forall|i: int| 0 <= i < d.len() ==> d[i] == 48 {
            assert forall|i: int| 0 <= i < d1.len() implies d1[i] == 48 by {
                assert(d1[i] == d[i]);
            }
            assert(d[d.len() - 1] == 48);
        }
    }
}

/// The canonical spelling of `n` is canonical and denotes `n`.
pub proof fn lemma_decimal_digits(n: nat)
    ensures
        is_canonical_digits(decimal_digits(n)),
        decimal_value(decimal_digits(n)) == n,
        n > 0 ==> decimal_digits(n)[0] != 48,
    decreases n,
{
    let d = decimal_digits(n);
    if n < 10 {
        assert(d.drop_last() =~= Seq::<u8>::empty());
        assert(decimal_value(Seq::<u8>::empty()) == 0);
        assert(d.last() == (n + 48) as u8);
        assert(digit_value(d.last()) == n);
    } else {
        lemma_decimal_digits(n / 10);
        let d1 = decimal_digits(n / 10);
        assert(d.drop_last() =~= d1);
        assert(d.last() == ((n % 10) + 48) as u8);
        assert(digit_value(d.last()) == n % 10);
        assert(n == (n / 10) * 10 + n % 10);
        assert(d[0] == d1[0]);
        assert(all_digits(d)) by {
            assert forall|i: int| 0 <= i < d.len() implies is_digit(#[trigger] d[i]) by {
                if i < d1.len() {
                    assert(d[i] == d1[i]);
                }
            }
        }
    }
}

/// Two canonical digit strings with the same value are the same string.
pub proof fn lemma_canonical_unique(a: Seq<u8>, b: Seq<u8>)
    requires
        is_canonical_digits(a),
        is_canonical_digits(b),
        decimal_value(a) == decimal_value(b),
    ensures
        a == b,
    decreases a.len(),
{
    if a.len() >= 2 {
        lemma_value_lower_bound(a);
    }
    if b.len() >= 2 {
        lemma_value_lower_bound(b);
    }
    lemma_value_bound(a);
    lemma_value_bound(b);
    assert(pow10(0) == 1);
    assert(pow10(1) == 10);
    if a.len() == 1 && b.len() == 1 {
        assert(a.drop_last() =~= Seq::<u8>::empty());
        assert(b.drop_last() =~= Seq::<u8>::empty());
        assert(is_digit(a[0]) && is_digit(b[0]));
        assert(a =~= b);
    } else if a.len() == 1 {
        lemma_pow10_monotone(1, (b.len() - 1) as nat);
        assert(false);
    } else if b.len() == 1 {
        lemma_pow10_monotone(1, (a.len() - 1) as nat);
        assert(false);
    } else {
        let a1 = a.drop_last();
        let b1 = b.drop_last();
        assert(is_digit(a[a.len() - 1]) && is_digit(b[b.len() - 1]));
        assert(is_canonical_digits(a1)) by {
            assert forall|i: int| 0 <= i < a1.len() implies is_digit(#[trigger] a1[i]) by {
                assert(a1[i] == a[i]);
            }
            assert(a1[0] == a[0]);
        }
        assert(is_canonical_digits(b1)) by {
            assert forall|i: int| 0 <= i < b1.len() implies is_digit(#[trigger] b1[i]) by {
                assert(b1[i] == b[i]);
            }
            assert(b1[0] == b[0]);
        }
        lemma_canonical_unique(a1, b1);
        assert(a =~= b) by {
            assert forall|i: int| 0 <= i < a.len() implies a[i] == b[i] by {
                if i < a.len() - 1 {
                    assert(a[i] == a1[i]);
                    assert(b[i] == b1[i]);
                }
            }
        }
    }
}

/// A canonical digit string is the canonical spelling of its value.
pub proof fn lemma_canonical_is_decimal_digits(d: Seq<u8>)
    requires
        is_canonical_digits(d),
    ensures
        d == decimal_digits(decimal_value(d)),
{
    lemma_decimal_digits(decimal_value(d));
    lemma_canonical_unique(d, decimal_digits(decimal_value(d)));
}

/// The canonical spelling determines the number.
pub proof fn lemma_decimal_digits_injective(m: nat, n: nat)
    ensures
        decimal_digits(m) == decimal_digits(n) <==> m == n,
{
    lemma_decimal_digits(m);
    lemma_decimal_digits(n);
}

/// Canonical spellings of different lengths: the shorter denotes the smaller number.
pub proof fn lemma_shorter_is_smaller(a: Seq<u8>, b: Seq<u8>)
    requires
        is_canonical_digits(a),
        is_canonical_digits(b),
        a.len() < b.len(),
    ensures
        decimal_value(a) < decimal_value(b),
{
    lemma_value_bound(a);
    lemma_value_lower_bound(b);
    lemma_pow10_monotone(a.len(), (b.len() - 1) as nat);
}

/// Digit strings of equal length that agree before index `k` and differ at
/// `k` are ordered by their digit at `k`.
pub proof fn lemma_first_difference(a: Seq<u8>, b: Seq<u8>, k: int)
    requires
        all_digits(a),
        all_digits(b),
        a.len() == b.len(),
        0 <= k < a.len(),
        a.subrange(0, k) == b.subrange(0, k),
        a[k] < b[k],
    ensures
        decimal_value(a) < decimal_value(b),
{
    let n = a.len() as int;
    let ha = a.subrange(0, k + 1);
    let hb = b.subrange(0, k + 1);
    let ta = a.subrange(k + 1, n);
    let tb = b.subrange(k + 1, n);
    assert(a =~= ha + ta);
    assert(b =~= hb + tb);
    lemma_value_concat(ha, ta);
    lemma_value_concat(hb, tb);
    assert(ha.drop_last() =~= a.subrange(0, k));
    assert(hb.drop_last() =~= b.subrange(0, k));
    assert(is_digit(a[k]) && is_digit(b[k]));
    assert(decimal_value(ha) + 1 <= decimal_value(hb));
    assert(all_digits(ta)) by {
        assert forall|i: int| 0 <= i < ta.len() implies is_digit(#[trigger] ta[i]) by {
            assert(ta[i] == a[k + 1 + i]);
        }
    }
    lemma_value_bound(ta);
    let p = pow10(ta.len());
    assert(tb.len() == ta.len());
    let va = decimal_value(ha);
    let vb = decimal_value(hb);
    let ra = decimal_value(ta);
    let rb = decimal_value(tb);
    assert(va * p + ra < vb * p + rb) by (nonlinear_arith)
        requires
            va + 1 <= vb,
            ra < p,
            rb >= 0,
    ;
}

/// A string of zeros followed by `rest` has the value of `rest`.
pub proof fn lemma_leading_zeros(zeros: Seq<u8>, rest: Seq<u8>)
    requires
        forall|i: int| 0 <= i < zeros.len() ==> zeros[i] == 48,
    ensures
        decimal_value(zeros + rest) == decimal_value(rest),
{
    assert(all_digits(zeros));
    lemma_value_zero(zeros);
    lemma_value_concat(zeros, rest);
}

} // verus!
