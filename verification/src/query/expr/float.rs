use vstd::prelude::*;

use crate::query::parse::lex::{prefix_at_ci, same_letter};
use crate::query::parse::text::{ascii_digit, chars_of, is_ascii_digit};

verus! {

// The texts that std reads as an `f64` (the grammar in the documentation of
// `f64::from_str`, whose letters are read without regard to case):
//
//     Float  ::= Sign? ( 'inf' | 'infinity' | 'nan' | Number )
//     Number ::= ( Digit+ | Digit+ '.' Digit* | Digit* '.' Digit+ ) Exp?
//     Exp    ::= 'e' Sign? Digit+
//     Sign   ::= [+-]
//     Digit  ::= [0-9]

/// The number of ASCII digits in a row from `i` in `s`.
pub open spec fn ascii_run(s: Seq<char>, i: int) -> nat
    decreases s.len() - i,
{
    if 0 <= i < s.len() && is_ascii_digit(s[i]) {
        1 + ascii_run(s, i + 1)
    } else {
        0
    }
}

/// `Exp` stands at `m` and ends `t`.
pub open spec fn exponent_text(t: Seq<char>, m: int) -> bool {
    let d = if m + 1 < t.len() && (t[m + 1] == '+' || t[m + 1] == '-') {
        m + 2
    } else {
        m + 1
    };
    &&& 0 <= m < t.len()
    &&& (t[m] == 'e' || t[m] == 'E')
    &&& ascii_run(t, d) >= 1
    &&& d + ascii_run(t, d) == t.len()
}

/// `Number` stands at `i` and ends `t`.
pub open spec fn number_text(t: Seq<char>, i: int) -> bool {
    let d1 = ascii_run(t, i);
    let dot = i + d1 < t.len() && t[i + d1] == '.';
    let d2 = if dot {
        ascii_run(t, i + d1 + 1)
    } else {
        0
    };
    let m = if dot {
        i + d1 + 1 + d2
    } else {
        i + d1
    };
    &&& d1 + d2 >= 1
    &&& (m == t.len() || exponent_text(t, m))
}

/// The word `w` (lower case) stands at `i` and ends `s`, in any case.
pub open spec fn word_ci(s: Seq<char>, i: int, w: Seq<char>) -> bool {
    i + w.len() == s.len() && prefix_at_ci(s, i, w)
}

/// `s` is the text of an `f64`.
pub open spec fn float_text(s: Seq<char>) -> bool {
    let i = if s.len() >= 1 && (s[0] == '+' || s[0] == '-') {
        1int
    } else {
        0int
    };
    ||| word_ci(s, i, seq!['i', 'n', 'f'])
    ||| word_ci(s, i, seq!['i', 'n', 'f', 'i', 'n', 'i', 't', 'y'])
    ||| word_ci(s, i, seq!['n', 'a', 'n'])
    ||| number_text(s, i)
}

fn ascii_run_at(s: &Vec<char>, i: usize) -> (n: usize)
    requires
        i <= s@.len(),
    ensures
        n == ascii_run(s@, i as int),
        i + n <= s@.len(),
{
    let mut j = i;
    while j < s.len() && ascii_digit(s[j])
        invariant
            i <= j <= s@.len(),
            ascii_run(s@, i as int) == (j - i) + ascii_run(s@, j as int),
        decreases s@.len() - j,
    {
        j = j + 1;
    }
    j - i
}

fn word_ci_at(s: &Vec<char>, i: usize, w: &Vec<char>) -> (r: bool)
    requires
        i <= s@.len(),
    ensures
        r == word_ci(s@, i as int, w@),
{
    if w.len() != s.len() - i {
        return false;
    }
    let mut k: usize = 0;
    while k < w.len()
        invariant
            i + w@.len() == s@.len(),
            s@.len() == s.len(),
            k <= w@.len(),
            forall|j: int| 0 <= j < k ==> same_letter(s@[i + j], w@[j]),
        decreases w@.len() - k,
    {
        let c = s[i + k];
        let pc = w[k];
        let pu = pc as u32;
        if !(c == pc || (97 <= pu && pu <= 122 && c as u32 == pu - 32)) {
            return false;
        }
        k = k + 1;
    }
    true
}

/// Whether std reads `s` as an `f64`.
pub fn is_float_text(s: &str) -> (r: bool)
    ensures
        r == float_text(s@),
{
    let v = chars_of(s);
    let n = v.len();
    let i: usize = if n >= 1 && (v[0] == '+' || v[0] == '-') {
        1
    } else {
        0
    };
    if word_ci_at(&v, i, &vec!['i', 'n', 'f']) || word_ci_at(
        &v,
        i,
        &vec!['i', 'n', 'f', 'i', 'n', 'i', 't', 'y'],
    ) || word_ci_at(&v, i, &vec!['n', 'a', 'n']) {
        return true;
    }
    let d1 = ascii_run_at(&v, i);
    let dot = i + d1 < n && v[i + d1] == '.';
    let d2 = if dot {
        ascii_run_at(&v, i + d1 + 1)
    } else {
        0
    };
    let m = if dot {
        i + d1 + 1 + d2
    } else {
        i + d1
    };
    if d1 + d2 < 1 {
        return false;
    }
    if m == n {
        return true;
    }
    if !(v[m] == 'e' || v[m] == 'E') {
        return false;
    }
    let d = if m + 1 < n && (v[m + 1] == '+' || v[m + 1] == '-') {
        m + 2
    } else {
        m + 1
    };
    let k = ascii_run_at(&v, d);
    k >= 1 && d + k == n
}

} // verus!
