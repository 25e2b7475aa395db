//! The value of an unsigned integer: an arbitrary-precision non-negative
//! integer, held as its minimal little-endian bytes.
use crate::value::datatype::{
    datatype_of, NonNegativeIntegerDatatype, UnsignedIntDatatype, UnsignedLongDatatype,
    UnsignedShortDatatype,
};
use crate::value::le::{
    be_value, is_canonical_le, le_bytes_of, le_value, lemma_le_bytes_of, lemma_le_unique, lemma_le_lower_bound, lemma_le_push,
    lemma_le_suffix_step, lemma_le_trailing_zeros, lemma_le_upper_bound, lemma_le_zero,
    lemma_pow256_8, lemma_pow256_monotone, pow256,
};
use vstd::prelude::*;

verus! {

/// Unsigned integer value.
///
/// See: <http://www.w3.org/2001/XMLSchema#unsignedInt>
///
/// Parsing gives at most 4294967295, the largest `xsd:unsignedInt`; larger
/// numbers arise from arithmetic, from bytes and from `BigUint`s, and
/// `unsigned_integer_type` classifies them too.
#[derive(Debug, Hash)]
pub struct UnsignedInteger {
    bytes: Vec<u8>,
}

impl View for UnsignedInteger {
    type V = nat;

    /// The number.
    closed spec fn view(&self) -> nat {
        le_value(self.bytes@)
    }
}

/// The bytes of `b` in reverse order.
fn reversed(b: &[u8]) -> (r: Vec<u8>)
    ensures
        r@ == b@.reverse(),
{
    let n = b.len();
    let mut r: Vec<u8> = Vec::new();
    let mut i: usize = n;
    while i > 0
        invariant
            n == b@.len(),
            i <= n,
            r@.len() == n - i,
            forall|j: int| 0 <= j < n - i ==> r@[j] == b@[n - 1 - j],
        decreases i,
    {
        i = i - 1;
        r.push(b[i]);
    }
    assert(r@ =~= b@.reverse());
    r
}

impl UnsignedInteger {
    /// The bytes are the minimal little-endian spelling of the number.
    #[verifier::type_invariant]
    spec fn inv(self) -> bool {
        is_canonical_le(self.bytes@)
    }

    /// Wraps a minimal little-endian spelling.
    pub(crate) fn from_canonical_le(bytes: Vec<u8>) -> (r: Self)
        requires
            is_canonical_le(bytes@),
        ensures
            r@ == le_value(bytes@),
    {
        UnsignedInteger { bytes }
    }

    /// The minimal little-endian spelling held.
    pub(crate) fn le_bytes(&self) -> (r: &Vec<u8>)
        ensures
            is_canonical_le(r@),
            le_value(r@) == self@,
    {
        proof {
            use_type_invariant(self);
        }
        &self.bytes
    }

    /// Zero.
    pub fn zero() -> (r: Self)
        ensures
            r@ == 0,
    {
        let mut bytes: Vec<u8> = Vec::new();
        bytes.push(0u8);
        proof {
            assert(bytes@.drop_first() =~= Seq::<u8>::empty());
            assert(le_value(Seq::<u8>::empty()) == 0);
        }
        UnsignedInteger { bytes }
    }

    /// Returns `true` if the number is zero.
    pub fn is_zero(&self) -> (r: bool)
        ensures
            r == (self@ == 0),
    {
        proof {
            use_type_invariant(self);
            lemma_le_zero(self.bytes@);
        }
        self.bytes.len() == 1 && self.bytes[0] == 0u8
    }

    /// Creates an unsigned integer from its little endian bytes representation.
    pub fn from_bytes_le(bytes: &[u8]) -> (r: Self)
        ensures
            r@ == le_value(bytes@),
    {
        let n = bytes.len();
        let mut k: usize = n;
        while k > 0 && bytes[k - 1] == 0u8
            invariant
                n == bytes@.len(),
                k <= n,
                forall|j: int| k <= j < n ==> bytes@[j] == 0,
            decreases k,
        {
            k = k - 1;
        }
        proof {
            let prefix = bytes@.subrange(0, k as int);
            let zeros = bytes@.subrange(k as int, n as int);
            assert(bytes@ =~= prefix + zeros);
            lemma_le_trailing_zeros(prefix, zeros);
        }
        if k == 0 {
            proof {
                assert(le_value(bytes@.subrange(0, 0)) == 0);
            }
            return Self::zero();
        }
        let mut out: Vec<u8> = Vec::new();
        let mut i: usize = 0;
        while i < k
            invariant
                k <= n,
                n == bytes@.len(),
                i <= k,
                out@ == bytes@.subrange(0, i as int),
            decreases k - i,
        {
            out.push(bytes[i]);
            proof {
                assert(out@ =~= bytes@.subrange(0, i + 1));
            }
            i = i + 1;
        }
        UnsignedInteger { bytes: out }
    }

    /// Creates an unsigned integer from its big endian bytes representation.
    pub fn from_bytes_be(bytes: &[u8]) -> (r: Self)
        ensures
            r@ == be_value(bytes@),
    {
        let le = reversed(bytes);
        Self::from_bytes_le(le.as_slice())
    }

    /// The minimal little endian bytes representation (`[0]` for zero).
    pub fn to_bytes_le(&self) -> (r: Vec<u8>)
        ensures
            r@ == le_bytes_of(self@),
            is_canonical_le(r@),
            le_value(r@) == self@,
    {
        proof {
            use_type_invariant(self);
            lemma_le_bytes_of(self@);
            lemma_le_unique(self.bytes@, le_bytes_of(self@));
        }
        self.bytes.clone()
    }

    /// The minimal big endian bytes representation (`[0]` for zero).
    pub fn to_bytes_be(&self) -> (r: Vec<u8>)
        ensures
            r@ == le_bytes_of(self@).reverse(),
            is_canonical_le(r@.reverse()),
            be_value(r@) == self@,
    {
        proof {
            use_type_invariant(self);
            lemma_le_bytes_of(self@);
            lemma_le_unique(self.bytes@, le_bytes_of(self@));
        }
        let r = reversed(self.bytes.as_slice());
        proof {
            assert(r@.reverse() =~= self.bytes@);
        }
        r
    }

    /// The number as a `u64`, when it fits.
    pub(crate) fn to_u64_checked(&self) -> (r: Option<u64>)
        ensures
            r == (if self@ <= u64::MAX {
                Some(self@ as u64)
            } else {
                None::<u64>
            }),
    {
        proof {
            use_type_invariant(self);
            lemma_pow256_8();
        }
        let n = self.bytes.len();
        if n > 8 {
            proof {
                lemma_le_lower_bound(self.bytes@);
                lemma_pow256_monotone(8, (n - 1) as nat);
            }
            return None;
        }
        let ghost b = self.bytes@;
        let mut v: u64 = 0;
        let mut i: usize = n;
        proof {
            assert(b.subrange(n as int, n as int) =~= Seq::<u8>::empty());
        }
        while i > 0
            invariant
                n == b.len(),
                n <= 8,
                b == self.bytes@,
                i <= n,
                v == le_value(b.subrange(i as int, n as int)),
            decreases i,
        {
            proof {
                lemma_le_upper_bound(b.subrange(i as int, n as int));
                lemma_pow256_monotone((n - i) as nat, 7);
                reveal_with_fuel(pow256, 8);
                lemma_le_suffix_step(b, i - 1);
            }
            i = i - 1;
            v = v * 256 + (self.bytes[i] as u64);
        }
        proof {
            assert(b.subrange(0, n as int) =~= b);
        }
        Some(v)
    }

    /// The minimal little-endian spelling of `x`.
    pub(crate) fn from_u64(x: u64) -> (r: Self)
        ensures
            r@ == x,
    {
        if x == 0 {
            return Self::zero();
        }
        let mut bytes: Vec<u8> = Vec::new();
        let mut rest: u64 = x;
        proof {
            assert(le_value(bytes@) == 0);
            assert(pow256(0) == 1);
        }
        while rest > 0
            invariant
                x > 0,
                x == le_value(bytes@) + rest * pow256(bytes@.len()),
                rest > 0 ==> bytes@.len() < 8,
                rest == 0 ==> bytes@.len() >= 1 && bytes@[bytes@.len() - 1] != 0,
                rest > 0 ==> rest * pow256(bytes@.len()) <= u64::MAX,
            decreases rest,
        {
            let byte = (rest % 256) as u8;
            let next = rest / 256;
            proof {
                let p = pow256(bytes@.len());
                crate::value::le::lemma_pow256_positive(bytes@.len());
                lemma_le_push(bytes@, byte);
                assert(pow256(bytes@.len() + 1) == 256 * p);
                assert(rest * p == byte * p + next * (256 * p)) by (nonlinear_arith)
                    requires
                        rest == next * 256 + byte,
                ;
                assert(next > 0 ==> next * (256 * p) <= rest * p) by (nonlinear_arith)
                    requires
                        rest == next * 256 + byte,
                        p >= 1,
                ;
                lemma_pow256_8();
                if next > 0 {
                    if bytes@.len() + 1 >= 8 {
                        lemma_pow256_monotone(8, bytes@.len() + 1);
                        assert(next * (256 * p) >= 256 * p) by (nonlinear_arith)
                            requires
                                next >= 1,
                        ;
                        assert(false);
                    }
                }
            }
            bytes.push(byte);
            rest = next;
        }
        UnsignedInteger { bytes }
    }

    /// The most specific XSD datatype derived from `xsd:nonNegativeInteger`
    /// whose value space holds this number (`xsd:nonNegativeInteger` for zero).
    pub fn unsigned_integer_type(&self) -> (r: NonNegativeIntegerDatatype)
        ensures
            r == datatype_of(self@),
    {
        if !self.is_zero() {
            match self.to_u64_checked() {
                Some(v) => {
                    if v <= 0xffu64 {
                        NonNegativeIntegerDatatype::UnsignedLong(
                            UnsignedLongDatatype::UnsignedInt(
                                UnsignedIntDatatype::UnsignedShort(UnsignedShortDatatype::UnsignedByte),
                            ),
                        )
                    } else if v <= 0xffffu64 {
                        NonNegativeIntegerDatatype::UnsignedLong(
                            UnsignedLongDatatype::UnsignedInt(
                                UnsignedIntDatatype::UnsignedShort(
                                    UnsignedShortDatatype::UnsignedShort,
                                ),
                            ),
                        )
                    } else if v <= 0xffff_ffffu64 {
                        NonNegativeIntegerDatatype::UnsignedLong(
                            UnsignedLongDatatype::UnsignedInt(UnsignedIntDatatype::UnsignedInt),
                        )
                    } else {
                        NonNegativeIntegerDatatype::UnsignedLong(UnsignedLongDatatype::UnsignedLong)
                    }
                },
                None => NonNegativeIntegerDatatype::PositiveInteger,
            }
        } else {
            NonNegativeIntegerDatatype::NonNegativeInteger
        }
    }
}

impl Clone for UnsignedInteger {
    fn clone(&self) -> (r: Self)
        ensures
            r@ == self@,
    {
        proof {
            use_type_invariant(self);
        }
        UnsignedInteger { bytes: self.bytes.clone() }
    }
}

} // verus!
