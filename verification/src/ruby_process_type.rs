//! The Ruby runtime: its shared-library filename convention on each platform,
//! and its framework-path classification.
//!
//! The convention matches plain and version-numbered sonames while rejecting
//! names that merely contain "ruby" inside an unrelated library name.

use vstd::prelude::*;

use crate::ascii::chars_ci_eq;
use crate::ascii::char_ci_eq;
use crate::ascii::dll_end_at;
use crate::ascii::dot_so_at;
use crate::ascii::ext_end_at;
use crate::ascii::is_digit;
use crate::ascii::is_digit_exec;
use crate::ascii::skip_digit;
use crate::ascii::version_at;
use crate::process_type::Platform;
use crate::process_type::ProcessType;
use crate::process_type::RuntimeDescriptor;

verus! {

/// Marker for Ruby processes.
pub struct RubyProcessType {}

impl ProcessType for RubyProcessType {
    open spec fn spec_runtime() -> RuntimeDescriptor {
        RuntimeDescriptor::Ruby
    }

    fn runtime() -> (r: RuntimeDescriptor) {
        RuntimeDescriptor::Ruby
    }
}

/// The stem "/libruby" starts at `i`.
pub open spec fn ruby_stem_at(s: Seq<char>, i: int) -> bool {
    &&& 0 <= i
    &&& i + 8 <= s.len()
    &&& s[i] == '/'
    &&& s[i + 1] == 'l'
    &&& s[i + 2] == 'i'
    &&& s[i + 3] == 'b'
    &&& s[i + 4] == 'r'
    &&& s[i + 5] == 'u'
    &&& s[i + 6] == 'b'
    &&& s[i + 7] == 'y'
}

/// "/libruby" then ".so" directly (plain or soname-suffixed), or a version
/// then ".so", occurs at `i` (ELF convention).
pub open spec fn ruby_linux_at(s: Seq<char>, i: int) -> bool {
    &&& ruby_stem_at(s, i)
    &&& {
        ||| dot_so_at(s, i + 8)
        ||| (version_at(s, i + 8) && dot_so_at(s, skip_digit(s, i + 11)))
    }
}

/// "/libruby", an optional '.', a version, then ".dylib" or ".so" ends the
/// string at `i`.
pub open spec fn ruby_macos_at(s: Seq<char>, i: int) -> bool {
    &&& ruby_stem_at(s, i)
    &&& {
        let j = if i + 8 < s.len() && s[i + 8] == '.' {
            i + 9
        } else {
            i + 8
        };
        version_at(s, j) && ext_end_at(s, skip_digit(s, j + 3))
    }
}

/// The string ends at `k` with ".dll.a", up to ASCII case.
pub open spec fn dll_a_end_at(s: Seq<char>, k: int) -> bool {
    &&& 0 <= k
    &&& k + 6 == s.len()
    &&& s[k] == '.'
    &&& chars_ci_eq(s[k + 1], 'd')
    &&& chars_ci_eq(s[k + 2], 'l')
    &&& chars_ci_eq(s[k + 3], 'l')
    &&& s[k + 4] == '.'
    &&& chars_ci_eq(s[k + 5], 'a')
}

/// "ruby" digits ".dll" or ".dll.a" ends the string at `r`, up to ASCII case.
pub open spec fn ruby_dll_tail_at(s: Seq<char>, r: int) -> bool {
    &&& 0 <= r
    &&& r + 6 <= s.len()
    &&& chars_ci_eq(s[r], 'r')
    &&& chars_ci_eq(s[r + 1], 'u')
    &&& chars_ci_eq(s[r + 2], 'b')
    &&& chars_ci_eq(s[r + 3], 'y')
    &&& is_digit(s[r + 4])
    &&& is_digit(s[r + 5])
    &&& {
        let k = skip_digit(s, r + 6);
        dll_end_at(s, k) || dll_a_end_at(s, k)
    }
}

/// Some backslash precedes a "ruby<digits>.dll" tail that ends the string.
pub open spec fn ruby_windows_spec(s: Seq<char>) -> bool {
    exists|b: int, r: int| 0 <= b < r && s[b] == '\\' && ruby_dll_tail_at(s, r)
}

/// The Ruby shared-library filename convention on `platform`.
pub open spec fn ruby_lib_spec(s: Seq<char>, platform: Platform) -> bool {
    if platform is Windows {
        ruby_windows_spec(s)
    } else if platform is MacOs {
        exists|i: int| ruby_macos_at(s, i)
    } else {
        exists|i: int| ruby_linux_at(s, i)
    }
}

fn ruby_linux_at_exec(s: &str, n: usize, i: usize) -> (r: bool)
    requires
        n == s@.len(),
        i < n,
    ensures
        r == ruby_linux_at(s@, i as int),
{
    if n - i < 11 {
        return false;
    }
    if !(s.get_char(i) == '/' && s.get_char(i + 1) == 'l' && s.get_char(i + 2) == 'i'
        && s.get_char(i + 3) == 'b' && s.get_char(i + 4) == 'r' && s.get_char(i + 5) == 'u'
        && s.get_char(i + 6) == 'b' && s.get_char(i + 7) == 'y') {
        return false;
    }
    if s.get_char(i + 8) == '.' && s.get_char(i + 9) == 's' && s.get_char(i + 10) == 'o' {
        return true;
    }
    if !(is_digit_exec(s.get_char(i + 8)) && s.get_char(i + 9) == '.' && is_digit_exec(
        s.get_char(i + 10),
    )) {
        return false;
    }
    let mut k = i + 11;
    if k < n && is_digit_exec(s.get_char(k)) {
        k = k + 1;
    }
    n - k >= 3 && s.get_char(k) == '.' && s.get_char(k + 1) == 's' && s.get_char(k + 2) == 'o'
}

fn ruby_macos_at_exec(s: &str, n: usize, i: usize) -> (r: bool)
    requires
        n == s@.len(),
        i < n,
    ensures
        r == ruby_macos_at(s@, i as int),
{
    if n - i < 14 {
        return false;
    }
    if !(s.get_char(i) == '/' && s.get_char(i + 1) == 'l' && s.get_char(i + 2) == 'i'
        && s.get_char(i + 3) == 'b' && s.get_char(i + 4) == 'r' && s.get_char(i + 5) == 'u'
        && s.get_char(i + 6) == 'b' && s.get_char(i + 7) == 'y') {
        return false;
    }
    let j = if s.get_char(i + 8) == '.' {
        i + 9
    } else {
        i + 8
    };
    if !(is_digit_exec(s.get_char(j)) && s.get_char(j + 1) == '.' && is_digit_exec(
        s.get_char(j + 2),
    )) {
        return false;
    }
    let mut k = j + 3;
    if k < n && is_digit_exec(s.get_char(k)) {
        k = k + 1;
    }
    if n - k == 3 {
        s.get_char(k) == '.' && s.get_char(k + 1) == 's' && s.get_char(k + 2) == 'o'
    } else if n - k == 6 {
        s.get_char(k) == '.' && s.get_char(k + 1) == 'd' && s.get_char(k + 2) == 'y' && s.get_char(
            k + 3,
        ) == 'l' && s.get_char(k + 4) == 'i' && s.get_char(k + 5) == 'b'
    } else {
        false
    }
}

fn ruby_dll_tail_at_exec(s: &str, n: usize, r: usize) -> (res: bool)
    requires
        n == s@.len(),
        r < n,
    ensures
        res == ruby_dll_tail_at(s@, r as int),
{
    if n - r < 10 {
        return false;
    }
    if !(char_ci_eq(s.get_char(r), 'r') && char_ci_eq(s.get_char(r + 1), 'u') && char_ci_eq(
        s.get_char(r + 2),
        'b',
    ) && char_ci_eq(s.get_char(r + 3), 'y')) {
        return false;
    }
    if !(is_digit_exec(s.get_char(r + 4)) && is_digit_exec(s.get_char(r + 5))) {
        return false;
    }
    let mut k = r + 6;
    if k < n && is_digit_exec(s.get_char(k)) {
        k = k + 1;
    }
    if n - k == 4 {
        s.get_char(k) == '.' && char_ci_eq(s.get_char(k + 1), 'd') && char_ci_eq(
            s.get_char(k + 2),
            'l',
        ) && char_ci_eq(s.get_char(k + 3), 'l')
    } else if n - k == 6 {
        s.get_char(k) == '.' && char_ci_eq(s.get_char(k + 1), 'd') && char_ci_eq(
            s.get_char(k + 2),
            'l',
        ) && char_ci_eq(s.get_char(k + 3), 'l') && s.get_char(k + 4) == '.' && char_ci_eq(
            s.get_char(k + 5),
            'a',
        )
    } else {
        false
    }
}

fn first_backslash(s: &str, n: usize) -> (r: Option<usize>)
    requires
        n == s@.len(),
    ensures
        r matches Some(i) ==> i < n && s@[i as int] == '\\' && forall|j: int|
            0 <= j < i ==> s@[j] != '\\',
        r is None ==> forall|j: int| 0 <= j < n ==> s@[j] != '\\',
{
    let mut i: usize = 0;
    while i < n
        invariant
            n == s@.len(),
            i <= n,
            forall|j: int| 0 <= j < i ==> s@[j] != '\\',
        decreases n - i,
    {
        if s.get_char(i) == '\\' {
            return Some(i);
        }
        i = i + 1;
    }
    None
}

/// Whether `path` is a Ruby shared-library filename on `platform`.
pub fn ruby_lib_match(path: &str, platform: Platform) -> (res: bool)
    ensures
        res == ruby_lib_spec(path@, platform),
{
    let n = path.unicode_len();
    match platform {
        Platform::Windows => {
            let fb = match first_backslash(path, n) {
                Some(fb) => fb,
                None => {
                    proof {
                        assert forall|b: int, r: int|
                            !(0 <= b < r && path@[b] == '\\' && ruby_dll_tail_at(path@, r)) by {
                            if 0 <= b < r && ruby_dll_tail_at(path@, r) {
                                assert(b < n);
                            }
                        }
                    }
                    return false;
                },
            };
            let mut r: usize = fb + 1;
            while r < n
                invariant
                    platform is Windows,
                    n == path@.len(),
                    fb < r,
                    r <= n,
                    path@[fb as int] == '\\',
                    forall|j: int| 0 <= j < fb ==> path@[j] != '\\',
                    forall|j: int| fb < j < r ==> !ruby_dll_tail_at(path@, j),
                decreases n - r,
            {
                if ruby_dll_tail_at_exec(path, n, r) {
                    return true;
                }
                r = r + 1;
            }
            proof {
                assert forall|b: int, rr: int|
                    !(0 <= b < rr && path@[b] == '\\' && ruby_dll_tail_at(path@, rr)) by {
                    if 0 <= b < rr && path@[b] == '\\' && ruby_dll_tail_at(path@, rr) {
                        assert(b >= fb);
                        assert(rr < n);
                        assert(fb < rr);
                    }
                }
            }
            false
        },
        Platform::MacOs => {
            let mut i: usize = 0;
            while i < n
                invariant
                    platform is MacOs,
                    n == path@.len(),
                    i <= n,
                    forall|j: int| 0 <= j < i ==> !ruby_macos_at(path@, j),
                decreases n - i,
            {
                if ruby_macos_at_exec(path, n, i) {
                    return true;
                }
                i = i + 1;
            }
            proof {
                assert forall|j: int| !ruby_macos_at(path@, j) by {
                    if 0 <= j < n {
                    }
                }
            }
            false
        },
        Platform::Linux | Platform::FreeBsd => {
            let mut i: usize = 0;
            while i < n
                invariant
                    platform is Linux || platform is FreeBsd,
                    n == path@.len(),
                    i <= n,
                    forall|j: int| 0 <= j < i ==> !ruby_linux_at(path@, j),
                decreases n - i,
            {
                if ruby_linux_at_exec(path, n, i) {
                    return true;
                }
                i = i + 1;
            }
            proof {
                assert forall|j: int| !ruby_linux_at(path@, j) by {
                    if 0 <= j < n {
                    }
                }
            }
            false
        },
    }
}

/// "Ruby.app" occurs at `i`.
pub open spec fn ruby_app_at(s: Seq<char>, i: int) -> bool {
    &&& 0 <= i
    &&& i + 8 <= s.len()
    &&& s[i] == 'R'
    &&& s[i + 1] == 'u'
    &&& s[i + 2] == 'b'
    &&& s[i + 3] == 'y'
    &&& s[i + 4] == '.'
    &&& s[i + 5] == 'a'
    &&& s[i + 6] == 'p'
    &&& s[i + 7] == 'p'
}

/// The path's last component is "Ruby" and the path does not run through an
/// application-wrapper bundle "Ruby.app".
pub open spec fn ruby_framework_spec(s: Seq<char>) -> bool {
    &&& s.len() >= 4
    &&& (s.len() == 4 || s[s.len() - 5] == '/')
    &&& s[s.len() - 4] == 'R'
    &&& s[s.len() - 3] == 'u'
    &&& s[s.len() - 2] == 'b'
    &&& s[s.len() - 1] == 'y'
    &&& !(exists|i: int| ruby_app_at(s, i))
}

fn ruby_app_at_exec(s: &str, n: usize, i: usize) -> (r: bool)
    requires
        n == s@.len(),
        i < n,
    ensures
        r == ruby_app_at(s@, i as int),
{
    if n - i < 8 {
        return false;
    }
    s.get_char(i) == 'R' && s.get_char(i + 1) == 'u' && s.get_char(i + 2) == 'b' && s.get_char(
        i + 3,
    ) == 'y' && s.get_char(i + 4) == '.' && s.get_char(i + 5) == 'a' && s.get_char(i + 6) == 'p'
        && s.get_char(i + 7) == 'p'
}

/// Whether `path` is the canonical in-framework Ruby binary.
pub fn ruby_framework_match(path: &str) -> (r: bool)
    ensures
        r == ruby_framework_spec(path@),
{
    let n = path.unicode_len();
    if n < 4 {
        return false;
    }
    if !(n == 4 || path.get_char(n - 5) == '/') {
        return false;
    }
    if !(path.get_char(n - 4) == 'R' && path.get_char(n - 3) == 'u' && path.get_char(n - 2) == 'b'
        && path.get_char(n - 1) == 'y') {
        return false;
    }
    let mut i: usize = 0;
    while i < n
        invariant
            n == path@.len(),
            i <= n,
            forall|j: int| 0 <= j < i ==> !ruby_app_at(path@, j),
        decreases n - i,
    {
        if ruby_app_at_exec(path, n, i) {
            return false;
        }
        i = i + 1;
    }
    proof {
        assert forall|j: int| !ruby_app_at(path@, j) by {
            if 0 <= j < n {
            }
        }
    }
    true
}

} // verus!
