//! Little-endian byte strings as numbers: the model of the value space.
use vstd::prelude::*;

verus! {

/// Value of a little-endian byte string (least significant byte first).
pub open spec fn le_value(b: Seq<u8>) -> nat
    decreases b.len(),
{
    if b.len() == 0 {
        0
    } else {
        b[0] as nat + 256 * le_value(b.drop_first())
    }
}

/// Value of a big-endian byte string (most significant byte first).
pub open spec fn be_value(b: Seq<u8>) -> nat {
    le_value(b.reverse())
}

/// `256^n`.
pub open spec fn pow256(n: nat) -> nat
    decreases n,
{
    if n == 0 {
        1
    } else {
        256 * pow256((n - 1) as nat)
    }
}

/// The minimal little-endian spelling: at least one byte, and no most
/// significant zero byte unless the number is zero (spelled `[0]`).
pub open spec fn is_canonical_le(b: Seq<u8>) -> bool {
    &&& b.len() >= 1
    &&& b.len() >= 2 ==> b[b.len() - 1] != 0
}

/// The minimal little-endian spelling of `n`.
pub open spec fn le_bytes_of(n: nat) -> Seq<u8>
    decreases n,
{
    if n < 256 {
        seq![n as u8]
    } else {
        seq![(n % 256) as u8] + le_bytes_of(n / 256)
    }
}

/// The minimal spelling of `n` is minimal and denotes `n`.
pub proof fn lemma_le_bytes_of(n: nat)
    ensures
        is_canonical_le(le_bytes_of(n)),
        le_value(le_bytes_of(n)) == n,
        n > 0 ==> le_bytes_of(n)[le_bytes_of(n).len() - 1] != 0,
    decreases n,
{
    let s = le_bytes_of(n);
    if n < 256 {
        assert(s.drop_first() =~= Seq::<u8>::empty());
        assert(le_value(Seq::<u8>::empty()) == 0);
    } else {
        lemma_le_bytes_of(n / 256);
        let rest = le_bytes_of(n / 256);
        assert(s.drop_first() =~= rest);
        assert(s[s.len() - 1] == rest[rest.len() - 1]);
    }
}

pub proof fn lemma_pow256_positive(n: nat)
    ensures
        pow256(n) >= 1,
    decreases n,
{
    if n > 0 {
        lemma_pow256_positive((n - 1) as nat);
    }
}

pub proof fn lemma_pow256_monotone(a: nat, b: nat)
    requires
        a <= b,
    ensures
        pow256(a) <= pow256(b),
    decreases b,
{
    if a < b {
        lemma_pow256_monotone(a, (b - 1) as nat);
        lemma_pow256_positive((b - 1) as nat);
    }
}

/// `256^8 == 2^64`.
pub proof fn lemma_pow256_8()
    ensures
        pow256(8) == 0x1_0000_0000_0000_0000,
{
    reveal_with_fuel(pow256, 9);
}

/// Appending a most significant byte `x` adds `x * 256^|b|`.
pub proof fn lemma_le_push(b: Seq<u8>, x: u8)
    ensures
        le_value(b.push(x)) == le_value(b) + x * pow256(b.len()),
    decreases b.len(),
{
    if b.len() == 0 {
        assert(b.push(x).drop_first() =~= Seq::<u8>::empty());
        assert(le_value(Seq::<u8>::empty()) == 0);
        assert(pow256(0) == 1);
    } else {
        assert(b.push(x).drop_first() =~= b.drop_first().push(x));
        lemma_le_push(b.drop_first(), x);
        let r = le_value(b.drop_first());
        let p = pow256(b.drop_first().len());
        assert(pow256(b.len()) == 256 * p);
        assert(256 * (r + x * p) == 256 * r + x * (256 * p)) by (nonlinear_arith);
    }
}

/// A byte string of length `n` denotes a number below `256^n`.
pub proof fn lemma_le_upper_bound(b: Seq<u8>)
    ensures
        le_value(b) < pow256(b.len()),
    decreases b.len(),
{
    if b.len() > 0 {
        lemma_le_upper_bound(b.drop_first());
        let r = le_value(b.drop_first());
        let p = pow256(b.drop_first().len());
        assert(b[0] as nat + 256 * r < 256 * p) by (nonlinear_arith)
            requires
                r + 1 <= p,
                b[0] < 256,
        ;
    }
}

/// A canonical spelling of length `n >= 2` denotes at least `256^(n-1)`.
pub proof fn lemma_le_lower_bound(b: Seq<u8>)
    requires
        is_canonical_le(b),
        b.len() >= 2,
    ensures
        le_value(b) >= pow256((b.len() - 1) as nat),
{
    let init = b.drop_last();
    assert(b =~= init.push(b.last()));
    lemma_le_push(init, b.last());
    let p = pow256(init.len());
    let x = b.last();
    assert(x * p >= p) by (nonlinear_arith)
        requires
            x >= 1,
    ;
}

/// A canonical spelling denotes zero exactly when it is `[0]`.
pub proof fn lemma_le_zero(b: Seq<u8>)
    requires
        is_canonical_le(b),
    ensures
        le_value(b) == 0 <==> (b.len() == 1 && b[0] == 0),
{
    if b.len() >= 2 {
        lemma_le_lower_bound(b);
        lemma_pow256_positive((b.len() - 1) as nat);
    } else {
        assert(b.drop_first() =~= Seq::<u8>::empty());
        assert(le_value(Seq::<u8>::empty()) == 0);
    }
}

/// Most significant zero bytes do not change the value.
pub proof fn lemma_le_trailing_zeros(a: Seq<u8>, zeros: Seq<u8>)
    requires
        forall|i: int| 0 <= i < zeros.len() ==> zeros[i] == 0,
    ensures
        le_value(a + zeros) == le_value(a),
    decreases zeros.len(),
{
    if zeros.len() == 0 {
        assert(a + zeros =~= a);
    } else {
        let z1 = zeros.drop_last();
        assert(a + zeros =~= (a + z1).push(0u8));
        lemma_le_push(a + z1, 0u8);
        lemma_le_trailing_zeros(a, z1);
    }
}

/// The value of a suffix-extended prefix: reading a spelling from its most
/// significant end.
pub proof fn lemma_le_suffix_step(b: Seq<u8>, i: int)
    requires
        0 <= i < b.len(),
    ensures
        le_value(b.subrange(i, b.len() as int)) == b[i] as nat + 256 * le_value(
            b.subrange(i + 1, b.len() as int),
        ),
{
    assert(b.subrange(i, b.len() as int).drop_first() =~= b.subrange(i + 1, b.len() as int));
}

/// Two minimal spellings of the same number are the same byte string.
pub proof fn lemma_le_unique(a: Seq<u8>, b: Seq<u8>)
    requires
        is_canonical_le(a),
        is_canonical_le(b),
        le_value(a) == le_value(b),
    ensures
        a == b,
    decreases a.len(),
{
    let a1 = a.drop_first();
    let b1 = b.drop_first();
    if a.len() >= 2 {
        assert(a1.len() >= 1 && a1[a1.len() - 1] == a[a.len() - 1]);
        if a1.len() >= 2 {
            lemma_le_lower_bound(a1);
            lemma_pow256_positive((a1.len() - 1) as nat);
        } else {
            assert(a1.drop_first() =~= Seq::<u8>::empty());
        }
    }
    if b.len() >= 2 {
        assert(b1.len() >= 1 && b1[b1.len() - 1] == b[b.len() - 1]);
        if b1.len() >= 2 {
            lemma_le_lower_bound(b1);
            lemma_pow256_positive((b1.len() - 1) as nat);
        } else {
            assert(b1.drop_first() =~= Seq::<u8>::empty());
        }
    }
    if a.len() == 1 {
        assert(a1 =~= Seq::<u8>::empty());
    }
    if b.len() == 1 {
        assert(b1 =~= Seq::<u8>::empty());
    }
    assert(le_value(Seq::<u8>::empty()) == 0);
    if a.len() >= 2 && b.len() >= 2 {
        lemma_le_unique(a1, b1);
    }
    assert(a =~= b) by {
        if a.len() >= 2 && b.len() >= 2 {
            assert forall|i: int| 0 <= i < a.len() implies a[i] == b[i] by {
                if i > 0 {
                    assert(a[i] == a1[i - 1]);
                    assert(b[i] == b1[i - 1]);
                }
            }
        }
    }
}

} // verus!
