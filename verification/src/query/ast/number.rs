use vstd::prelude::*;

use crate::query::parse::lex::{ascii_digits, decimal_value, lemma_decimal_value_prefix};
use crate::query::parse::text::{ascii_digit, chars_of};

verus! {

/// The number that std reads from `s` as an integer of a type with (`signed`) or
/// without a sign: an optional `+` (or `-`, where `signed`) and at least one ASCII
/// digit; `None` for any other text.
pub open spec fn int_text(s: Seq<char>, signed: bool) -> Option<int> {
    let neg = signed && s.len() > 0 && s[0] == '-';
    let d = if s.len() > 0 && (s[0] == '+' || neg) {
        s.drop_first()
    } else {
        s
    };
    if d.len() > 0 && ascii_digits(d) {
        Some(
            if neg {
                -decimal_value(d)
            } else {
                decimal_value(d)
            },
        )
    } else {
        None
    }
}

/// What std's `i128::from_str` gives for `s`.
pub open spec fn i128_of_text(s: Seq<char>) -> Option<i128> {
    match int_text(s, true) {
        Some(v) => if i128::MIN <= v <= i128::MAX {
            Some(v as i128)
        } else {
            None
        },
        None => None,
    }
}

/// What std's `usize::from_str` gives for `s`.
pub open spec fn usize_of_text(s: Seq<char>) -> Option<usize> {
    match int_text(s, false) {
        Some(v) => if v <= usize::MAX {
            Some(v as usize)
        } else {
            None
        },
        None => None,
    }
}

/// The value of the ASCII digits of `v` from `from` on, where they are digits and
/// the value is at most `bound`.
fn digits_at_most(v: &Vec<char>, from: usize, bound: u128) -> (r: Option<u128>)
    requires
        from <= v@.len(),
    ensures
        ({
            let d = v@.subrange(from as int, v@.len() as int);
            if ascii_digits(d) && decimal_value(d) <= bound {
                r matches Some(m) && m == decimal_value(d)
            } else {
                r is None
            }
        }),
{
    let ghost full = v@.subrange(from as int, v@.len() as int);
    let mut acc: u128 = 0;
    let mut i = from;
    assert(v@.subrange(from as int, from as int) =~= Seq::<char>::empty());
    while i < v.len()
        invariant
            from <= i <= v@.len(),
            full == v@.subrange(from as int, v@.len() as int),
            ascii_digits(v@.subrange(from as int, i as int)),
            acc == decimal_value(v@.subrange(from as int, i as int)),
            acc <= bound,
        decreases v@.len() - i,
    {
        let c = v[i];
        assert(full[i - from] == c);
        if !ascii_digit(c) {
            return None;
        }
        let ghost next = v@.subrange(from as int, i + 1);
        assert(next.drop_last() =~= v@.subrange(from as int, i as int));
        assert(ascii_digits(next));
        assert(full.take(i + 1 - from) =~= next);
        let d = (c as u32 - 48) as u128;
        let grown = match acc.checked_mul(10) {
            Some(m) => m.checked_add(d),
            None => None,
        };
        match grown {
            Some(a) => {
                if a > bound {
                    proof {
                        if ascii_digits(full) {
                            lemma_decimal_value_prefix(full, i + 1 - from);
                        }
                    }
                    return None;
                }
                acc = a;
            },
            None => {
                proof {
                    if ascii_digits(full) {
                        lemma_decimal_value_prefix(full, i + 1 - from);
                    }
                }
                return None;
            },
        }
        i = i + 1;
    }
    assert(v@.subrange(from as int, i as int) =~= full);
    Some(acc)
}

/// std's `i128::from_str`: the integer that `s` writes, if it is one and `i128`
/// holds it.
pub fn parse_i128(s: &str) -> (r: Option<i128>)
    ensures
        r == i128_of_text(s@),
{
    let v = chars_of(s);
    let n = v.len();
    let neg = n > 0 && v[0] == '-';
    let from: usize = if n > 0 && (v[0] == '+' || neg) {
        1
    } else {
        0
    };
    assert(v@.subrange(from as int, v@.len() as int) =~= if from == 1 {
        v@.drop_first()
    } else {
        v@
    });
    if from >= n {
        return None;
    }
    if neg {
        match digits_at_most(&v, from, 0x8000_0000_0000_0000_0000_0000_0000_0000u128) {
            Some(m) => {
                if m == 0x8000_0000_0000_0000_0000_0000_0000_0000u128 {
                    Some(i128::MIN)
                } else {
                    Some(-(m as i128))
                }
            },
            None => None,
        }
    } else {
        match digits_at_most(&v, from, 0x7fff_ffff_ffff_ffff_ffff_ffff_ffff_ffffu128) {
            Some(m) => Some(m as i128),
            None => None,
        }
    }
}

/// std's `usize::from_str`: the number that `s` writes, if it is one and `usize`
/// holds it.
pub fn parse_usize_text(s: &str) -> (r: Option<usize>)
    ensures
        r == usize_of_text(s@),
{
    let v = chars_of(s);
    let n = v.len();
    let from: usize = if n > 0 && v[0] == '+' {
        1
    } else {
        0
    };
    assert(v@.subrange(from as int, v@.len() as int) =~= if from == 1 {
        v@.drop_first()
    } else {
        v@
    });
    if from >= n {
        return None;
    }
    match digits_at_most(&v, from, usize::MAX as u128) {
        Some(m) => Some(m as usize),
        None => None,
    }
}

} // verus!
