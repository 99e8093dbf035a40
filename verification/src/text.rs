//! Text helpers: ASCII case folding against fixed upper-case keywords, and
//! decimal rendering of integers.

use vstd::prelude::*;

verus! {

use vstd::string::StrSliceExecFns;
use vstd::string::StringExecFns;

/// `c` reads as the upper-case letter `u`: either it is `u`, or it is the
/// ASCII lower-case form of `u`.
pub open spec fn upper_matches(c: char, u: char) -> bool {
    c == u || (97 <= c as u32 && c as u32 <= 122 && c as u32 - 32 == u as u32)
}

/// `s` equals the upper-case keyword `t` after ASCII upper-casing.
pub open spec fn eq_upper(s: Seq<char>, t: Seq<char>) -> bool {
    s.len() == t.len() && forall|i: int| 0 <= i < s.len() ==> upper_matches(#[trigger] s[i], t[i])
}

/// Case-insensitive comparison of `s` against the upper-case keyword.
pub fn matches_upper(s: &str, keyword: &str) -> (b: bool)
    ensures
        b == eq_upper(s@, keyword@),
{
    let n: usize = s.unicode_len();
    if n != keyword.unicode_len() {
        return false;
    }
    let mut i: usize = 0;
    while i < n
        invariant
            n == s@.len(),
            n == keyword@.len(),
            i <= n,
            forall|j: int| 0 <= j < i ==> upper_matches(#[trigger] s@[j], keyword@[j]),
        decreases n - i,
    {
        let c = s.get_char(i);
        let k = keyword.get_char(i);
        let cu: u32 = c as u32;
        let ku: u32 = k as u32;
        if !(c == k || (97 <= cu && cu <= 122 && cu - 32 == ku)) {
            assert(!upper_matches(s@[i as int], keyword@[i as int]));
            return false;
        }
        i += 1;
    }
    true
}

/// The character for one decimal digit.
pub open spec fn digit_char(d: nat) -> char {
    if d == 0 {
        '0'
    } else if d == 1 {
        '1'
    } else if d == 2 {
        '2'
    } else if d == 3 {
        '3'
    } else if d == 4 {
        '4'
    } else if d == 5 {
        '5'
    } else if d == 6 {
        '6'
    } else if d == 7 {
        '7'
    } else if d == 8 {
        '8'
    } else {
        '9'
    }
}

/// The decimal rendering of `n`, most significant digit first, no leading
/// zeros (a lone zero for 0).
pub open spec fn dec_digits(n: nat) -> Seq<char>
    decreases n,
{
    if n < 10 {
        seq![digit_char(n)]
    } else {
        dec_digits(n / 10).push(digit_char(n % 10))
    }
}

/// One decimal digit as a string slice.
fn digit_str(d: u64) -> (r: &'static str)
    requires
        d < 10,
    ensures
        r@ =~= seq![digit_char(d as nat)],
{
    proof {
        reveal_strlit("0");
        reveal_strlit("1");
        reveal_strlit("2");
        reveal_strlit("3");
        reveal_strlit("4");
        reveal_strlit("5");
        reveal_strlit("6");
        reveal_strlit("7");
        reveal_strlit("8");
        reveal_strlit("9");
    }
    match d {
        0 => "0",
        1 => "1",
        2 => "2",
        3 => "3",
        4 => "4",
        5 => "5",
        6 => "6",
        7 => "7",
        8 => "8",
        _ => "9",
    }
}

/// Render `n` in decimal.
pub fn u64_to_dec(n: u64) -> (r: String)
    ensures
        r@ == dec_digits(n as nat),
    decreases n,
{
    if n < 10 {
        String::from_str(digit_str(n))
    } else {
        let mut s = u64_to_dec(n / 10);
        s.append(digit_str(n % 10));
        proof {
            assert(s@ =~= dec_digits((n / 10) as nat).push(digit_char((n % 10) as nat)));
        }
        s
    }
}

} // verus!
