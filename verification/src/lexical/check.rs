//! The recogniser of the lexical space.
use crate::decimal::{
    all_digits, decimal_value, digit_value, digits_part, is_digit, is_lexical,
    lexical_value, unsigned_int_max,
};
use vstd::prelude::*;

verus! {

/// States of the recogniser.
enum State {
    /// Nothing read yet.
    Initial,
    /// A `'+'` was read; at least one digit must follow.
    NonEmptyInteger,
    /// At least one digit was read, after an optional `'+'`.
    Integer,
    /// A `'-'` was read; only zeros may follow, and the form is refused.
    Zero,
}

/// `x`, or one more than the largest `xsd:unsignedInt` when `x` exceeds it.
spec fn capped(x: nat) -> nat {
    if x > unsigned_int_max() {
        unsigned_int_max() + 1
    } else {
        x
    }
}

/// Appending a digit to a non-empty prefix of a form appends it to its digits.
proof fn lemma_push_digit(p: Seq<u8>, b: u8)
    requires
        p.len() > 0,
    ensures
        lexical_value(p.push(b)) == lexical_value(p) * 10 + digit_value(b),
{
    assert(digits_part(p.push(b)) =~= digits_part(p).push(b));
    assert(digits_part(p).push(b).drop_last() =~= digits_part(p));
}

/// The value of a single digit, after an optional `'+'`.
proof fn lemma_first_digit(p: Seq<u8>, b: u8)
    requires
        p.len() == 0 || p =~= seq![43u8],
        is_digit(b),
    ensures
        lexical_value(p.push(b)) == digit_value(b),
{
    assert(digits_part(p.push(b)) =~= seq![b]);
    assert(seq![b].drop_last() =~= Seq::<u8>::empty());
    assert(decimal_value(Seq::<u8>::empty()) == 0);
}

/// Checks that `s` is a lexical form of an unsigned integer.
pub fn check_bytes(s: &[u8]) -> (r: bool)
    ensures
        r == is_lexical(s@),
{
    check(s)
}

/// Runs the recogniser over the bytes of `chars`: an optional `'+'`
/// followed by one or more ASCII digits that denote at most 4294967295 (the
/// largest `xsd:unsignedInt`) is accepted, anything else is refused.
pub fn check(chars: &[u8]) -> (r: bool)
    ensures
        r == is_lexical(chars@),
{
    let n = chars.len();
    let mut state = State::Initial;
    let mut i: usize = 0;
    // The digits read so far, capped just above the largest unsignedInt.
    let mut value: u64 = 0;
    loop
        invariant
            i <= n,
            state is Integer ==> value == capped(lexical_value(chars@.subrange(0, i as int))),
            n == chars@.len(),
            state is Initial ==> i == 0,
            state is NonEmptyInteger ==> i == 1 && chars@[0] == 43,
            state is Zero ==> i >= 1 && chars@[0] == 45,
            state is Integer ==> {
                &&& i >= 1
                &&& is_digit(chars@[0]) || chars@[0] == 43
                &&& forall|j: int| 1 <= j < i ==> is_digit(#[trigger] chars@[j])
                &&& chars@[0] == 43 ==> i >= 2
            },
        decreases n - i,
    {
        let next: Option<u8> = if i < n {
            Some(chars[i])
        } else {
            None
        };
        match state {
            State::Initial => {
                match next {
                    Some(b) => {
                        if b == 43u8 {
                            state = State::NonEmptyInteger;
                        } else if b == 45u8 {
                            state = State::Zero;
                        } else if 48u8 <= b && b <= 57u8 {
                            proof {
                                assert(chars@.subrange(0, 1) =~= Seq::<u8>::empty().push(b));
                                lemma_first_digit(Seq::<u8>::empty(), b);
                            }
                            value = (b - 48u8) as u64;
                            state = State::Integer;
                        } else {
                            assert(!all_digits(digits_part(chars@)));
                            return false;
                        }
                    },
                    None => {
                        return false;
                    },
                }
            },
            State::NonEmptyInteger => {
                match next {
                    Some(b) => {
                        if 48u8 <= b && b <= 57u8 {
                            proof {
                                assert(chars@.subrange(0, 2) =~= seq![43u8].push(b));
                                lemma_first_digit(seq![43u8], b);
                            }
                            value = (b - 48u8) as u64;
                            state = State::Integer;
                        } else {
                            assert(digits_part(chars@)[0] == chars@[1]);
                            return false;
                        }
                    },
                    None => {
                        assert(digits_part(chars@).len() == 0);
                        return false;
                    },
                }
            },
            State::Integer => {
                match next {
                    Some(b) => {
                        if 48u8 <= b && b <= 57u8 {
                            proof {
                                let p = chars@.subrange(0, i as int);
                                assert(chars@.subrange(0, i + 1) =~= p.push(b));
                                lemma_push_digit(p, b);
                            }
                            if value <= 4294967295u64 {
                                value = value * 10 + (b - 48u8) as u64;
                                if value > 4294967295u64 {
                                    value = 4294967296u64;
                                }
                            }
                            state = State::Integer;
                        } else {
                            proof {
                                if chars@[0] == 43 {
                                    assert(digits_part(chars@)[i - 1] == chars@[i as int]);
                                } else {
                                    assert(digits_part(chars@)[i as int] == chars@[i as int]);
                                }
                            }
                            return false;
                        }
                    },
                    None => {
                        assert(all_digits(digits_part(chars@))) by {
                            let d = digits_part(chars@);
                            assert forall|j: int| 0 <= j < d.len() implies is_digit(#[trigger] d[j]) by {
                                if chars@[0] == 43 {
                                    assert(d[j] == chars@[j + 1]);
                                } else {
                                    assert(d[j] == chars@[j]);
                                }
                            }
                        }
                        assert(chars@.subrange(0, i as int) =~= chars@);
                        return value <= 4294967295u64;
                    },
                }
            },
            State::Zero => {
                match next {
                    Some(b) => {
                        if b == 48u8 {
                            state = State::Zero;
                        } else {
                            assert(!is_digit(digits_part(chars@)[0]));
                            return false;
                        }
                    },
                    None => {
                        assert(!is_digit(digits_part(chars@)[0]));
                        return false;
                    },
                }
            },
        }
        i = i + 1;
    }
}

} // verus!
