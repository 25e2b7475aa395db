//! Equality and order of values: the order of the numbers.
use crate::lexical::ordering::numeric_order;
use crate::value::le::le_value;
use crate::value::unsigned_integer::UnsignedInteger;
use core::cmp::Ordering;
use num_bigint::BigUint;
use vstd::prelude::*;
use vstd::std_specs::cmp::{PartialEqSpec, PartialEqSpecImpl, PartialOrdSpec, PartialOrdSpecImpl};

verus! {

/// `<BigUint as Ord>::cmp` (called with a dot): the order of the two
/// numbers that the little-endian spellings `a` and `b` denote.
#[verifier::external_body]
fn big_compare(a: &[u8], b: &[u8]) -> (r: Ordering)
    ensures
        r == numeric_order(le_value(a@), le_value(b@)),
{
    BigUint::from_bytes_le(a).cmp(&BigUint::from_bytes_le(b))
}

impl UnsignedInteger {
    /// Compares two numbers.
    pub fn cmp(&self, other: &Self) -> (r: Ordering)
        ensures
            r == numeric_order(self@, other@),
            (r == Ordering::Less) <==> self@ < other@,
            (r == Ordering::Equal) <==> self@ == other@,
            (r == Ordering::Greater) <==> self@ > other@,
    {
        big_compare(self.le_bytes().as_slice(), other.le_bytes().as_slice())
    }
}

impl PartialEq for UnsignedInteger {
    fn eq(&self, other: &Self) -> (r: bool)
        ensures
            r == (self@ == other@),
    {
        match self.cmp(other) {
            Ordering::Equal => true,
            _ => false,
        }
    }
}

impl PartialEqSpecImpl for UnsignedInteger {
    open spec fn obeys_eq_spec() -> bool {
        true
    }

    open spec fn eq_spec(&self, other: &Self) -> bool {
        self@ == other@
    }
}

impl Eq for UnsignedInteger {

}

impl PartialOrd for UnsignedInteger {
    fn partial_cmp(&self, other: &Self) -> (r: Option<Ordering>)
        ensures
            (r == Some(Ordering::Less)) <==> self@ < other@,
            (r == Some(Ordering::Equal)) <==> self@ == other@,
            (r == Some(Ordering::Greater)) <==> self@ > other@,
    {
        Some(self.cmp(other))
    }
}

impl PartialOrdSpecImpl for UnsignedInteger {
    open spec fn obeys_partial_cmp_spec() -> bool {
        true
    }

    open spec fn partial_cmp_spec(&self, other: &Self) -> Option<Ordering> {
        Some(numeric_order(self@, other@))
    }
}


/// Equality of values (`==`) is equality of the numbers, for numbers of
/// any size, and agrees with the order (`partial_cmp`, `<`).
pub proof fn law_value_eq_is_numeric(a: UnsignedInteger, b: UnsignedInteger)
    ensures
        PartialEqSpec::eq_spec(&a, &b) <==> a@ == b@,
        PartialEqSpec::eq_spec(&a, &b) <==> PartialOrdSpec::partial_cmp_spec(&a, &b) == Some(Ordering::Equal),
        PartialOrdSpec::partial_cmp_spec(&a, &b) == Some(Ordering::Less) <==> a@ < b@,
        PartialOrdSpec::partial_cmp_spec(&a, &b) == Some(Ordering::Greater) <==> a@ > b@,
{
}

} // verus!
