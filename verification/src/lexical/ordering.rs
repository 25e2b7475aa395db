//! Equality and order of lexical forms: two forms are equal when they
//! denote the same number, and they are ordered as the numbers they denote.
use crate::decimal::{
    decimal_value, is_canonical_digits, lemma_decimal_digits,
    lemma_first_difference, lemma_shorter_is_smaller, lexical_value,
};
use crate::lexical::buf::UnsignedIntegerBuf;
use crate::lexical::unsigned_integer::UnsignedInteger;
use core::cmp::Ordering;
use vstd::prelude::*;
use vstd::std_specs::cmp::{PartialEqSpec, PartialEqSpecImpl, PartialOrdSpec, PartialOrdSpecImpl};

verus! {

/// The order of two numbers.
pub open spec fn numeric_order(a: nat, b: nat) -> Ordering {
    if a < b {
        Ordering::Less
    } else if a == b {
        Ordering::Equal
    } else {
        Ordering::Greater
    }
}

/// The order agrees with equality: two numbers compare `Equal` exactly
/// when they are equal, and swapping them swaps `Less` and `Greater`.
pub proof fn law_order_agrees_with_equality(a: nat, b: nat)
    ensures
        (numeric_order(a, b) == Ordering::Less) <==> (a < b),
        (numeric_order(a, b) == Ordering::Equal) <==> (a == b),
        (numeric_order(a, b) == Ordering::Greater) <==> (a > b),
        (numeric_order(a, b) == Ordering::Less) <==> (numeric_order(b, a) == Ordering::Greater),
{
}

/// The order is transitive.
pub proof fn law_order_transitive(a: nat, b: nat, c: nat)
    requires
        numeric_order(a, b) == Ordering::Less,
        numeric_order(b, c) == Ordering::Less,
    ensures
        numeric_order(a, c) == Ordering::Less,
{
}

/// The index of the first byte at which `x` and `y` differ, or their common
/// length when they are equal.
fn first_mismatch(x: &[u8], y: &[u8]) -> (k: usize)
    requires
        x@.len() == y@.len(),
    ensures
        k <= x@.len(),
        x@.subrange(0, k as int) == y@.subrange(0, k as int),
        k < x@.len() ==> x@[k as int] != y@[k as int],
{
    let n = x.len();
    let mut i: usize = 0;
    while i < n
        invariant
            n == x@.len(),
            n == y@.len(),
            i <= n,
            x@.subrange(0, i as int) == y@.subrange(0, i as int),
        decreases n - i,
    {
        if x[i] != y[i] {
            return i;
        }
        proof {
            assert(x@.subrange(0, i + 1) =~= x@.subrange(0, i as int).push(x@[i as int]));
            assert(y@.subrange(0, i + 1) =~= y@.subrange(0, i as int).push(y@[i as int]));
        }
        i = i + 1;
    }
    i
}

/// What the first mismatch of two canonical digit strings of equal length
/// says of the numbers they denote.
proof fn lemma_mismatch_value(x: Seq<u8>, y: Seq<u8>, k: usize)
    requires
        is_canonical_digits(x),
        is_canonical_digits(y),
        x.len() == y.len(),
        k <= x.len(),
        x.subrange(0, k as int) == y.subrange(0, k as int),
        k < x.len() ==> x[k as int] != y[k as int],
    ensures
        k == x.len() ==> decimal_value(x) == decimal_value(y),
        k < x.len() && x[k as int] < y[k as int] ==> decimal_value(x) < decimal_value(y),
        k < x.len() && y[k as int] < x[k as int] ==> decimal_value(y) < decimal_value(x),
{
    if k == x.len() {
        assert(x =~= x.subrange(0, k as int));
        assert(y =~= y.subrange(0, k as int));
    } else if x[k as int] < y[k as int] {
        lemma_first_difference(x, y, k as int);
    } else {
        lemma_first_difference(y, x, k as int);
    }
}

/// Compares two canonical digit strings: first by length, then byte by byte.
fn compare_canonical(x: &[u8], y: &[u8]) -> (r: Ordering)
    requires
        is_canonical_digits(x@),
        is_canonical_digits(y@),
    ensures
        r == numeric_order(decimal_value(x@), decimal_value(y@)),
{
    if x.len() < y.len() {
        proof {
            lemma_shorter_is_smaller(x@, y@);
        }
        return Ordering::Less;
    }
    if y.len() < x.len() {
        proof {
            lemma_shorter_is_smaller(y@, x@);
        }
        return Ordering::Greater;
    }
    let k = first_mismatch(x, y);
    proof {
        lemma_mismatch_value(x@, y@, k);
    }
    if k == x.len() {
        Ordering::Equal
    } else if x[k] < y[k] {
        Ordering::Less
    } else {
        Ordering::Greater
    }
}

impl UnsignedInteger {
    /// Compares the numbers that `self` and `other` denote.
    pub fn cmp(&self, other: &Self) -> (r: Ordering)
        ensures
            r == numeric_order(lexical_value(self@), lexical_value(other@)),
            (r == Ordering::Less) <==> lexical_value(self@) < lexical_value(other@),
            (r == Ordering::Equal) <==> lexical_value(self@) == lexical_value(other@),
            (r == Ordering::Greater) <==> lexical_value(self@) > lexical_value(other@),
    {
        let a = self.canonical();
        let b = other.canonical();
        proof {
            lemma_decimal_digits(lexical_value(self@));
            lemma_decimal_digits(lexical_value(other@));
        }
        compare_canonical(a.as_bytes(), b.as_bytes())
    }
}

impl PartialEq for UnsignedInteger {
    fn eq(&self, other: &Self) -> (r: bool)
        ensures
            r == (lexical_value(self@) == lexical_value(other@)),
    {
        match self.cmp(other) {
            Ordering::Equal => true,
            _ => false,
        }
    }
}

impl PartialEqSpecImpl for UnsignedInteger {
    open spec fn obeys_eq_spec() -> bool {
        true
    }

    open spec fn eq_spec(&self, other: &Self) -> bool {
        lexical_value(self@) == lexical_value(other@)
    }
}

impl Eq for UnsignedInteger {

}

/// Hashes the canonical form, so that equal numbers hash alike.
impl core::hash::Hash for UnsignedInteger {
    fn hash<H: core::hash::Hasher>(&self, state: &mut H) {
        let canonical = self.canonical();
        hash_str(canonical.as_str(), state);
    }
}

/// `<str as Hash>::hash`: feeds the string to the hasher.
#[verifier::external_body]
fn hash_str<H: core::hash::Hasher>(s: &str, state: &mut H) {
    core::hash::Hash::hash(s, state)
}

impl PartialOrd for UnsignedInteger {
    fn partial_cmp(&self, other: &Self) -> (r: Option<Ordering>)
        ensures
            (r == Some(Ordering::Less)) <==> lexical_value(self@) < lexical_value(other@),
            (r == Some(Ordering::Equal)) <==> lexical_value(self@) == lexical_value(other@),
            (r == Some(Ordering::Greater)) <==> lexical_value(self@) > lexical_value(other@),
    {
        Some(self.cmp(other))
    }
}

impl PartialOrdSpecImpl for UnsignedInteger {
    open spec fn obeys_partial_cmp_spec() -> bool {
        true
    }

    open spec fn partial_cmp_spec(&self, other: &Self) -> Option<Ordering> {
        Some(numeric_order(lexical_value(self@), lexical_value(other@)))
    }
}

impl UnsignedIntegerBuf {
    /// Compares the numbers that `self` and `other` denote.
    pub fn cmp(&self, other: &Self) -> (r: Ordering)
        ensures
            r == numeric_order(lexical_value(self@), lexical_value(other@)),
            (r == Ordering::Less) <==> lexical_value(self@) < lexical_value(other@),
            (r == Ordering::Equal) <==> lexical_value(self@) == lexical_value(other@),
            (r == Ordering::Greater) <==> lexical_value(self@) > lexical_value(other@),
    {
        self.as_unsigned_integer().cmp(other.as_unsigned_integer())
    }
}

impl PartialEq for UnsignedIntegerBuf {
    fn eq(&self, other: &Self) -> (r: bool)
        ensures
            r == (lexical_value(self@) == lexical_value(other@)),
    {
        match self.cmp(other) {
            Ordering::Equal => true,
            _ => false,
        }
    }
}

impl PartialEqSpecImpl for UnsignedIntegerBuf {
    open spec fn obeys_eq_spec() -> bool {
        true
    }

    open spec fn eq_spec(&self, other: &Self) -> bool {
        lexical_value(self@) == lexical_value(other@)
    }
}

impl Eq for UnsignedIntegerBuf {

}

/// Hashes as the borrowed form does.
impl core::hash::Hash for UnsignedIntegerBuf {
    fn hash<H: core::hash::Hasher>(&self, state: &mut H) {
        self.as_unsigned_integer().hash(state);
    }
}

impl PartialOrd for UnsignedIntegerBuf {
    fn partial_cmp(&self, other: &Self) -> (r: Option<Ordering>)
        ensures
            (r == Some(Ordering::Less)) <==> lexical_value(self@) < lexical_value(other@),
            (r == Some(Ordering::Equal)) <==> lexical_value(self@) == lexical_value(other@),
            (r == Some(Ordering::Greater)) <==> lexical_value(self@) > lexical_value(other@),
    {
        Some(self.cmp(other))
    }
}

impl PartialOrdSpecImpl for UnsignedIntegerBuf {
    open spec fn obeys_partial_cmp_spec() -> bool {
        true
    }

    open spec fn partial_cmp_spec(&self, other: &Self) -> Option<Ordering> {
        Some(numeric_order(lexical_value(self@), lexical_value(other@)))
    }
}


/// Equality of lexical forms (`==`) is equality of the numbers they denote
/// (`"+001" == "1"`, `"007" == "7"`), and agrees with the order
/// (`partial_cmp`, `<`): equal exactly when neither is less.
pub proof fn law_lexical_eq_is_numeric(a: UnsignedInteger, b: UnsignedInteger)
    ensures
        PartialEqSpec::eq_spec(&a, &b) <==> lexical_value(a@) == lexical_value(b@),
        PartialEqSpec::eq_spec(&a, &b) <==> PartialOrdSpec::partial_cmp_spec(&a, &b) == Some(Ordering::Equal),
        PartialOrdSpec::partial_cmp_spec(&a, &b) == Some(Ordering::Less) <==> lexical_value(a@) < lexical_value(b@),
        PartialOrdSpec::partial_cmp_spec(&a, &b) == Some(Ordering::Greater) <==> lexical_value(a@) > lexical_value(
            b@,
        ),
{
}

/// The same for owned lexical forms: `==` is equality of the numbers, and
/// agrees with the order.
pub proof fn law_lexical_buf_eq_is_numeric(a: UnsignedIntegerBuf, b: UnsignedIntegerBuf)
    ensures
        PartialEqSpec::eq_spec(&a, &b) <==> lexical_value(a@) == lexical_value(b@),
        PartialEqSpec::eq_spec(&a, &b) <==> PartialOrdSpec::partial_cmp_spec(&a, &b) == Some(Ordering::Equal),
        PartialOrdSpec::partial_cmp_spec(&a, &b) == Some(Ordering::Less) <==> lexical_value(a@) < lexical_value(b@),
        PartialOrdSpec::partial_cmp_spec(&a, &b) == Some(Ordering::Greater) <==> lexical_value(a@) > lexical_value(
            b@,
        ),
{
}

} // verus!
