//! Character and string helpers shared by the filename classifiers:
//! digit tests, ASCII-case-insensitive comparison, and exact string equality.

use vstd::prelude::*;

verus! {

/// A decimal digit.
pub open spec fn is_digit(c: char) -> bool {
    48 <= c as u32 && c as u32 <= 57
}

/// Executable digit test.
pub fn is_digit_exec(c: char) -> (r: bool)
    ensures
        r == is_digit(c),
{
    let u = c as u32;
    48 <= u && u <= 57
}

/// `a` and `b` are the same character up to ASCII case.
pub open spec fn chars_ci_eq(a: char, b: char) -> bool {
    ||| a == b
    ||| (65 <= a as u32 && a as u32 <= 90 && a as u32 + 32 == b as u32)
    ||| (65 <= b as u32 && b as u32 <= 90 && b as u32 + 32 == a as u32)
}

/// Executable ASCII-case-insensitive character comparison.
pub fn char_ci_eq(a: char, b: char) -> (r: bool)
    ensures
        r == chars_ci_eq(a, b),
{
    if a == b {
        true
    } else {
        let ua = a as u32;
        let ub = b as u32;
        (65 <= ua && ua <= 90 && ua + 32 == ub) || (65 <= ub && ub <= 90 && ub + 32 == ua)
    }
}

/// The two character sequences are equal up to ASCII case.
pub open spec fn seqs_ci_eq(a: Seq<char>, b: Seq<char>) -> bool {
    a.len() == b.len() && (forall|i: int| 0 <= i < a.len() ==> chars_ci_eq(a[i], b[i]))
}

/// Executable ASCII-case-insensitive string comparison.
pub fn str_ci_eq(a: &str, b: &str) -> (r: bool)
    ensures
        r == seqs_ci_eq(a@, b@),
{
    let na = a.unicode_len();
    let nb = b.unicode_len();
    if na != nb {
        return false;
    }
    let mut i: usize = 0;
    while i < na
        invariant
            na == a@.len(),
            nb == b@.len(),
            na == nb,
            i <= na,
            forall|j: int| 0 <= j < i ==> chars_ci_eq(a@[j], b@[j]),
        decreases na - i,
    {
        if !char_ci_eq(a.get_char(i), b.get_char(i)) {
            return false;
        }
        i = i + 1;
    }
    true
}

/// A version core "digit '.' digit" starts at `j`.
pub open spec fn version_at(s: Seq<char>, j: int) -> bool {
    &&& 0 <= j
    &&& j + 3 <= s.len()
    &&& is_digit(s[j])
    &&& s[j + 1] == '.'
    &&& is_digit(s[j + 2])
}

/// Position after an optional digit at `k`.
pub open spec fn skip_digit(s: Seq<char>, k: int) -> int {
    if 0 <= k < s.len() && is_digit(s[k]) {
        k + 1
    } else {
        k
    }
}

/// The extension ".so" occurs at `k` (not anchored to the end).
pub open spec fn dot_so_at(s: Seq<char>, k: int) -> bool {
    &&& 0 <= k
    &&& k + 3 <= s.len()
    &&& s[k] == '.'
    &&& s[k + 1] == 's'
    &&& s[k + 2] == 'o'
}

/// The string ends at `k` with ".so" or ".dylib".
pub open spec fn ext_end_at(s: Seq<char>, k: int) -> bool {
    ||| (0 <= k && k + 3 == s.len() && s[k] == '.' && s[k + 1] == 's' && s[k + 2] == 'o')
    ||| (0 <= k && k + 6 == s.len() && s[k] == '.' && s[k + 1] == 'd' && s[k + 2] == 'y'
        && s[k + 3] == 'l' && s[k + 4] == 'i' && s[k + 5] == 'b')
}

/// The string ends at `k` with ".dll", up to ASCII case.
pub open spec fn dll_end_at(s: Seq<char>, k: int) -> bool {
    &&& 0 <= k
    &&& k + 4 == s.len()
    &&& s[k] == '.'
    &&& chars_ci_eq(s[k + 1], 'd')
    &&& chars_ci_eq(s[k + 2], 'l')
    &&& chars_ci_eq(s[k + 3], 'l')
}

/// Executable exact string comparison, stated over the views.
pub fn str_eq(a: &str, b: &str) -> (r: bool)
    ensures
        r == (a@ == b@),
{
    let na = a.unicode_len();
    let nb = b.unicode_len();
    if na != nb {
        return false;
    }
    let mut i: usize = 0;
    while i < na
        invariant
            na == a@.len(),
            nb == b@.len(),
            na == nb,
            i <= na,
            forall|j: int| 0 <= j < i ==> a@[j] == b@[j],
        decreases na - i,
    {
        if a.get_char(i) != b.get_char(i) {
            return false;
        }
        i = i + 1;
    }
    proof {
        assert(a@ =~= b@);
    }
    true
}

} // verus!
