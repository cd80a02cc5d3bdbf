//! Small operations on the strings of a record, stated over sequences of glyphs.

use crate::types::Text;
use vstd::prelude::*;
use vstd::string::StrSliceExecFns;
use vstd::string::StringExecFns;

verus! {

/// A reading is negative when its first glyph is a minus sign.
pub open spec fn is_negative(s: Text) -> bool {
    s.len() > 0 && s[0] == '-'
}

/// Whether a minus sign occurs anywhere in the reading.
pub open spec fn has_minus(s: Text) -> bool {
    exists|i: int| 0 <= i < s.len() && s[i] == '-'
}

/// The glyph of one decimal digit.
pub open spec fn digit(d: nat) -> char {
    if d == 0 {
        '0'
    } else if d == 1 {
        '1'
    } else if d == 2 {
        '2'
    } else if d == 3 {
        '3'
    } else if d == 4 {
        '4'
    } else if d == 5 {
        '5'
    } else if d == 6 {
        '6'
    } else if d == 7 {
        '7'
    } else if d == 8 {
        '8'
    } else {
        '9'
    }
}

/// A number in decimal notation, without sign or leading zeros.
pub open spec fn decimal(n: nat) -> Text
    decreases n,
{
    if n < 10 {
        seq![digit(n)]
    } else {
        decimal(n / 10).push(digit(n % 10))
    }
}

/// Ten to the power of `k`.
pub open spec fn power_of_ten(k: nat) -> nat
    decreases k,
{
    if k == 0 {
        1
    } else {
        10 * power_of_ten((k - 1) as nat)
    }
}

/// A number below ten to the `k` has at most `k` digits.
pub proof fn decimal_is_short(n: nat, k: nat)
    requires
        k >= 1,
        n < power_of_ten(k),
    ensures
        1 <= decimal(n).len() <= k,
    decreases k,
{
    reveal_with_fuel(power_of_ten, 2);
    if n >= 10 {
        decimal_is_short(n / 10, (k - 1) as nat);
    }
}

/// A 64-bit counter has at most twenty digits.
pub proof fn counter_is_short(n: u64)
    ensures
        1 <= decimal(n as nat).len() <= 20,
{
    assert(power_of_ten(20) == 100_000_000_000_000_000_000nat) by {
        reveal_with_fuel(power_of_ten, 21);
    }
    decimal_is_short(n as nat, 20);
}

/// The number of glyphs of a string.
pub fn glyph_count(s: &str) -> (n: usize)
    ensures
        n == s@.len(),
{
    s.unicode_len()
}

/// Whether a reading is negative.
pub fn starts_with_minus(s: &str) -> (b: bool)
    ensures
        b == is_negative(s@),
{
    s.unicode_len() > 0 && s.get_char(0) == '-'
}

/// Whether a minus sign occurs anywhere in a reading.
pub fn contains_minus(s: &str) -> (b: bool)
    ensures
        b == has_minus(s@),
{
    for c in glyphs: s.chars()
        invariant
            glyphs.seq() == s@,
            forall|j: int| 0 <= j < glyphs.index() ==> s@[j] != '-',
    {
        if c == '-' {
            return true;
        }
    }
    false
}

/// Whether two strings hold the same glyphs.
pub fn same_text(a: &str, b: &str) -> (same: bool)
    ensures
        same == (a@ == b@),
{
    let n: usize = a.unicode_len();
    if b.unicode_len() != n {
        return false;
    }
    let mut i: usize = 0;
    while i < n
        invariant
            n == a@.len(),
            n == b@.len(),
            i <= n,
            forall|j: int| 0 <= j < i ==> a@[j] == b@[j],
        decreases n - i,
    {
        if a.get_char(i) != b.get_char(i) {
            return false;
        }
        i = i + 1;
    }
    assert(a@ =~= b@);
    true
}

/// The glyphs of `a` followed by those of `b`.
pub fn joined(a: &str, b: &str) -> (s: String)
    ensures
        s@ == a@ + b@,
{
    String::from_str(a).concat(b)
}

fn digit_text(d: u64) -> (s: &'static str)
    requires
        d < 10,
    ensures
        s@ == seq![digit(d as nat)],
{
    proof {
        reveal_strlit("0");
        reveal_strlit("1");
        reveal_strlit("2");
        reveal_strlit("3");
        reveal_strlit("4");
        reveal_strlit("5");
        reveal_strlit("6");
        reveal_strlit("7");
        reveal_strlit("8");
        reveal_strlit("9");
    }
    let s = if d == 0 {
        "0"
    } else if d == 1 {
        "1"
    } else if d == 2 {
        "2"
    } else if d == 3 {
        "3"
    } else if d == 4 {
        "4"
    } else if d == 5 {
        "5"
    } else if d == 6 {
        "6"
    } else if d == 7 {
        "7"
    } else if d == 8 {
        "8"
    } else {
        "9"
    };
    assert(s@ =~= seq![digit(d as nat)]);
    s
}

/// A counter in decimal notation.
pub fn decimal_text(n: u64) -> (s: String)
    ensures
        s@ == decimal(n as nat),
    decreases n,
{
    if n < 10 {
        String::from_str(digit_text(n))
    } else {
        let mut s = decimal_text(n / 10);
        s.append(digit_text(n % 10));
        assert(s@ =~= decimal(n as nat));
        s
    }
}

} // verus!
