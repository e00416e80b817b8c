//! Verified text rendering: decimal representations of integers and
//! substitution of a `{}` marker in a filter pattern.

use vstd::prelude::*;

verus! {

/// The character for a single decimal digit.
pub open spec fn dec_digit(n: nat) -> char
    recommends
        n < 10,
{
    ((48 + n) as u8) as char
}

/// The decimal representation of a natural number, most significant digit
/// first, with no leading zeros (a single `'0'` for zero).
pub open spec fn dec_rep(n: nat) -> Seq<char>
    decreases n,
{
    if n < 10 {
        seq![dec_digit(n)]
    } else {
        dec_rep(n / 10) + seq![dec_digit(n % 10)]
    }
}

/// The decimal representation of an integer: a `'-'` sign for negatives.
pub open spec fn int_rep(n: int) -> Seq<char> {
    if n >= 0 {
        dec_rep(n as nat)
    } else {
        seq!['-'] + dec_rep((-n) as nat)
    }
}

/// One decimal digit as a string slice.
fn digit_str(d: u64) -> (r: &'static str)
    requires
        d < 10,
    ensures
        r@ == seq![dec_digit(d as nat)],
{
    proof {
        reveal_strlit("0");
        reveal_strlit("1");
        reveal_strlit("2");
        reveal_strlit("3");
        reveal_strlit("4");
        reveal_strlit("5");
        reveal_strlit("6");
        reveal_strlit("7");
        reveal_strlit("8");
        reveal_strlit("9");
    }
    match d {
        0 => "0",
        1 => "1",
        2 => "2",
        3 => "3",
        4 => "4",
        5 => "5",
        6 => "6",
        7 => "7",
        8 => "8",
        _ => "9",
    }
}

/// Decimal rendering of an unsigned integer.
pub fn u64_to_string(n: u64) -> (s: String)
    ensures
        s@ == dec_rep(n as nat),
    decreases n,
{
    if n < 10 {
        digit_str(n).to_owned()
    } else {
        let mut s = u64_to_string(n / 10);
        s.append(digit_str(n % 10));
        s
    }
}

/// Decimal rendering of a signed integer.
pub fn i64_to_string(n: i64) -> (s: String)
    ensures
        s@ == int_rep(n as int),
{
    if n >= 0 {
        u64_to_string(n as u64)
    } else {
        let magnitude: u64 = ((-(n + 1)) as u64) + 1;
        proof {
            reveal_strlit("-");
            assert(magnitude == -(n as int));
        }
        let mut s = "-".to_owned();
        s.append(u64_to_string(magnitude).as_str());
        s
    }
}

/// The pattern with every `{}` marker replaced by `val`, scanning left to
/// right without overlap.
pub open spec fn subst(pattern: Seq<char>, val: Seq<char>) -> Seq<char>
    decreases pattern.len(),
{
    if pattern.len() >= 2 && pattern[0] == '{' && pattern[1] == '}' {
        val + subst(pattern.skip(2), val)
    } else if pattern.len() > 0 {
        seq![pattern[0]] + subst(pattern.skip(1), val)
    } else {
        Seq::empty()
    }
}

/// Replaces every `{}` marker in `pattern` by `val`.
pub fn substitute(pattern: &str, val: &str) -> (r: String)
    ensures
        r@ == subst(pattern@, val@),
{
    let n = pattern.unicode_len();
    let mut r = String::new();
    let mut i: usize = 0;
    proof {
        assert(pattern@.skip(0) =~= pattern@);
    }
    while i < n
        invariant
            n == pattern@.len(),
            i <= n,
            subst(pattern@, val@) == r@ + subst(pattern@.skip(i as int), val@),
        decreases n - i,
    {
        let ghost rest = pattern@.skip(i as int);
        if i + 1 < n && pattern.get_char(i) == '{' && pattern.get_char(i + 1) == '}' {
            r.append(val);
            i = i + 2;
            proof {
                assert(rest[0] == '{' && rest[1] == '}');
                assert(rest.skip(2) =~= pattern@.skip(i as int));
            }
        } else {
            let piece = pattern.substring_char(i, i + 1);
            r.append(piece);
            i = i + 1;
            proof {
                assert(piece@ =~= seq![rest[0]]);
                assert(rest.skip(1) =~= pattern@.skip(i as int));
            }
        }
    }
    proof {
        assert(pattern@.skip(n as int) =~= Seq::<char>::empty());
    }
    r
}

} // verus!
