//! The Python runtime: its shared-library filename convention on each
//! platform, and its framework-path classification.
//!
//! The convention matches version-numbered sonames and build-flag suffixes
//! (debug `d`, malloc `m`, wide-unicode `u`) while rejecting names that merely
//! contain "python" inside an unrelated library name.

use vstd::prelude::*;

use crate::ascii::chars_ci_eq;
use crate::ascii::char_ci_eq;
use crate::ascii::dll_end_at;
use crate::ascii::dot_so_at;
use crate::ascii::ext_end_at;
use crate::ascii::is_digit;
use crate::ascii::is_digit_exec;
use crate::ascii::skip_digit;
use crate::ascii::version_at;
use crate::process_type::Platform;
use crate::process_type::ProcessType;
use crate::process_type::RuntimeDescriptor;

verus! {

/// Marker for Python processes.
pub struct PythonProcessType {}

impl ProcessType for PythonProcessType {
    open spec fn spec_runtime() -> RuntimeDescriptor {
        RuntimeDescriptor::Python
    }

    fn runtime() -> (r: RuntimeDescriptor) {
        RuntimeDescriptor::Python
    }
}

/// The stem "/libpython" starts at `i`.
pub open spec fn py_stem_at(s: Seq<char>, i: int) -> bool {
    &&& 0 <= i
    &&& i + 10 <= s.len()
    &&& s[i] == '/'
    &&& s[i + 1] == 'l'
    &&& s[i + 2] == 'i'
    &&& s[i + 3] == 'b'
    &&& s[i + 4] == 'p'
    &&& s[i + 5] == 'y'
    &&& s[i + 6] == 't'
    &&& s[i + 7] == 'h'
    &&& s[i + 8] == 'o'
    &&& s[i + 9] == 'n'
}

/// A Python build-flag suffix character.
pub open spec fn is_py_flag(c: char) -> bool {
    c == 'm' || c == 'd' || c == 'u'
}

/// Position after an optional build-flag character at `k`.
pub open spec fn skip_py_flag(s: Seq<char>, k: int) -> int {
    if 0 <= k < s.len() && is_py_flag(s[k]) {
        k + 1
    } else {
        k
    }
}

/// Position after an optional build-flag character at `k`, up to ASCII case.
pub open spec fn skip_py_flag_ci(s: Seq<char>, k: int) -> int {
    if 0 <= k < s.len() && (chars_ci_eq(s[k], 'm') || chars_ci_eq(s[k], 'd') || chars_ci_eq(
        s[k],
        'u',
    )) {
        k + 1
    } else {
        k
    }
}

/// "/libpython" version flags? ".so" occurs at `i` (ELF convention).
pub open spec fn py_linux_at(s: Seq<char>, i: int) -> bool {
    &&& py_stem_at(s, i)
    &&& version_at(s, i + 10)
    &&& dot_so_at(s, skip_py_flag(s, skip_digit(s, i + 13)))
}

/// "/libpython" version flags? then ".dylib" or ".so" ends the string at `i`.
pub open spec fn py_macos_at(s: Seq<char>, i: int) -> bool {
    &&& py_stem_at(s, i)
    &&& version_at(s, i + 10)
    &&& ext_end_at(s, skip_py_flag(s, skip_digit(s, i + 13)))
}

/// "\python" digits flag? ".dll" ends the string at `i`, up to ASCII case.
pub open spec fn py_windows_at(s: Seq<char>, i: int) -> bool {
    &&& 0 <= i
    &&& i + 9 <= s.len()
    &&& s[i] == '\\'
    &&& chars_ci_eq(s[i + 1], 'p')
    &&& chars_ci_eq(s[i + 2], 'y')
    &&& chars_ci_eq(s[i + 3], 't')
    &&& chars_ci_eq(s[i + 4], 'h')
    &&& chars_ci_eq(s[i + 5], 'o')
    &&& chars_ci_eq(s[i + 6], 'n')
    &&& is_digit(s[i + 7])
    &&& is_digit(s[i + 8])
    &&& dll_end_at(s, skip_py_flag_ci(s, skip_digit(s, i + 9)))
}

/// The Python shared-library filename convention on `platform`.
pub open spec fn python_lib_spec(s: Seq<char>, platform: Platform) -> bool {
    if platform is Windows {
        exists|i: int| py_windows_at(s, i)
    } else if platform is MacOs {
        exists|i: int| py_macos_at(s, i)
    } else {
        exists|i: int| py_linux_at(s, i)
    }
}

fn py_linux_at_exec(s: &str, n: usize, i: usize) -> (r: bool)
    requires
        n == s@.len(),
        i < n,
    ensures
        r == py_linux_at(s@, i as int),
{
    if n - i < 16 {
        return false;
    }
    if !(s.get_char(i) == '/' && s.get_char(i + 1) == 'l' && s.get_char(i + 2) == 'i'
        && s.get_char(i + 3) == 'b' && s.get_char(i + 4) == 'p' && s.get_char(i + 5) == 'y'
        && s.get_char(i + 6) == 't' && s.get_char(i + 7) == 'h' && s.get_char(i + 8) == 'o'
        && s.get_char(i + 9) == 'n') {
        return false;
    }
    if !(is_digit_exec(s.get_char(i + 10)) && s.get_char(i + 11) == '.' && is_digit_exec(
        s.get_char(i + 12),
    )) {
        return false;
    }
    let mut k = i + 13;
    if k < n && is_digit_exec(s.get_char(k)) {
        k = k + 1;
    }
    if k < n {
        let c = s.get_char(k);
        if c == 'm' || c == 'd' || c == 'u' {
            k = k + 1;
        }
    }
    n - k >= 3 && s.get_char(k) == '.' && s.get_char(k + 1) == 's' && s.get_char(k + 2) == 'o'
}

fn py_macos_at_exec(s: &str, n: usize, i: usize) -> (r: bool)
    requires
        n == s@.len(),
        i < n,
    ensures
        r == py_macos_at(s@, i as int),
{
    if n - i < 16 {
        return false;
    }
    if !(s.get_char(i) == '/' && s.get_char(i + 1) == 'l' && s.get_char(i + 2) == 'i'
        && s.get_char(i + 3) == 'b' && s.get_char(i + 4) == 'p' && s.get_char(i + 5) == 'y'
        && s.get_char(i + 6) == 't' && s.get_char(i + 7) == 'h' && s.get_char(i + 8) == 'o'
        && s.get_char(i + 9) == 'n') {
        return false;
    }
    if !(is_digit_exec(s.get_char(i + 10)) && s.get_char(i + 11) == '.' && is_digit_exec(
        s.get_char(i + 12),
    )) {
        return false;
    }
    let mut k = i + 13;
    if k < n && is_digit_exec(s.get_char(k)) {
        k = k + 1;
    }
    if k < n {
        let c = s.get_char(k);
        if c == 'm' || c == 'd' || c == 'u' {
            k = k + 1;
        }
    }
    if n - k == 3 {
        s.get_char(k) == '.' && s.get_char(k + 1) == 's' && s.get_char(k + 2) == 'o'
    } else if n - k == 6 {
        s.get_char(k) == '.' && s.get_char(k + 1) == 'd' && s.get_char(k + 2) == 'y' && s.get_char(
            k + 3,
        ) == 'l' && s.get_char(k + 4) == 'i' && s.get_char(k + 5) == 'b'
    } else {
        false
    }
}

fn py_windows_at_exec(s: &str, n: usize, i: usize) -> (r: bool)
    requires
        n == s@.len(),
        i < n,
    ensures
        r == py_windows_at(s@, i as int),
{
    if n - i < 13 {
        return false;
    }
    if !(s.get_char(i) == '\\' && char_ci_eq(s.get_char(i + 1), 'p') && char_ci_eq(
        s.get_char(i + 2),
        'y',
    ) && char_ci_eq(s.get_char(i + 3), 't') && char_ci_eq(s.get_char(i + 4), 'h') && char_ci_eq(
        s.get_char(i + 5),
        'o',
    ) && char_ci_eq(s.get_char(i + 6), 'n')) {
        return false;
    }
    if !(is_digit_exec(s.get_char(i + 7)) && is_digit_exec(s.get_char(i + 8))) {
        return false;
    }
    let mut k = i + 9;
    if k < n && is_digit_exec(s.get_char(k)) {
        k = k + 1;
    }
    if k < n {
        let c = s.get_char(k);
        if char_ci_eq(c, 'm') || char_ci_eq(c, 'd') || char_ci_eq(c, 'u') {
            k = k + 1;
        }
    }
    n - k == 4 && s.get_char(k) == '.' && char_ci_eq(s.get_char(k + 1), 'd') && char_ci_eq(
        s.get_char(k + 2),
        'l',
    ) && char_ci_eq(s.get_char(k + 3), 'l')
}

/// Whether `path` is a Python shared-library filename on `platform`.
pub fn python_lib_match(path: &str, platform: Platform) -> (r: bool)
    ensures
        r == python_lib_spec(path@, platform),
{
    let n = path.unicode_len();
    match platform {
        Platform::Windows => {
            let mut i: usize = 0;
            while i < n
                invariant
                    platform is Windows,
                    n == path@.len(),
                    i <= n,
                    forall|j: int| 0 <= j < i ==> !py_windows_at(path@, j),
                decreases n - i,
            {
                if py_windows_at_exec(path, n, i) {
                    return true;
                }
                i = i + 1;
            }
            proof {
                assert forall|j: int| !py_windows_at(path@, j) by {
                    if 0 <= j < n {
                    }
                }
            }
            false
        },
        Platform::MacOs => {
            let mut i: usize = 0;
            while i < n
                invariant
                    platform is MacOs,
                    n == path@.len(),
                    i <= n,
                    forall|j: int| 0 <= j < i ==> !py_macos_at(path@, j),
                decreases n - i,
            {
                if py_macos_at_exec(path, n, i) {
                    return true;
                }
                i = i + 1;
            }
            proof {
                assert forall|j: int| !py_macos_at(path@, j) by {
                    if 0 <= j < n {
                    }
                }
            }
            false
        },
        Platform::Linux | Platform::FreeBsd => {
            let mut i: usize = 0;
            while i < n
                invariant
                    platform is Linux || platform is FreeBsd,
                    n == path@.len(),
                    i <= n,
                    forall|j: int| 0 <= j < i ==> !py_linux_at(path@, j),
                decreases n - i,
            {
                if py_linux_at_exec(path, n, i) {
                    return true;
                }
                i = i + 1;
            }
            proof {
                assert forall|j: int| !py_linux_at(path@, j) by {
                    if 0 <= j < n {
                    }
                }
            }
            false
        },
    }
}

/// "Python.app" occurs at `i`.
pub open spec fn python_app_at(s: Seq<char>, i: int) -> bool {
    &&& 0 <= i
    &&& i + 10 <= s.len()
    &&& s[i] == 'P'
    &&& s[i + 1] == 'y'
    &&& s[i + 2] == 't'
    &&& s[i + 3] == 'h'
    &&& s[i + 4] == 'o'
    &&& s[i + 5] == 'n'
    &&& s[i + 6] == '.'
    &&& s[i + 7] == 'a'
    &&& s[i + 8] == 'p'
    &&& s[i + 9] == 'p'
}

/// The path's last component is "Python" and the path does not run through an
/// application-wrapper bundle "Python.app".
pub open spec fn python_framework_spec(s: Seq<char>) -> bool {
    &&& s.len() >= 6
    &&& (s.len() == 6 || s[s.len() - 7] == '/')
    &&& s[s.len() - 6] == 'P'
    &&& s[s.len() - 5] == 'y'
    &&& s[s.len() - 4] == 't'
    &&& s[s.len() - 3] == 'h'
    &&& s[s.len() - 2] == 'o'
    &&& s[s.len() - 1] == 'n'
    &&& !(exists|i: int| python_app_at(s, i))
}

fn python_app_at_exec(s: &str, n: usize, i: usize) -> (r: bool)
    requires
        n == s@.len(),
        i < n,
    ensures
        r == python_app_at(s@, i as int),
{
    if n - i < 10 {
        return false;
    }
    s.get_char(i) == 'P' && s.get_char(i + 1) == 'y' && s.get_char(i + 2) == 't' && s.get_char(
        i + 3,
    ) == 'h' && s.get_char(i + 4) == 'o' && s.get_char(i + 5) == 'n' && s.get_char(i + 6) == '.'
        && s.get_char(i + 7) == 'a' && s.get_char(i + 8) == 'p' && s.get_char(i + 9) == 'p'
}

/// Whether `path` is the canonical in-framework Python binary.
pub fn python_framework_match(path: &str) -> (r: bool)
    ensures
        r == python_framework_spec(path@),
{
    let n = path.unicode_len();
    if n < 6 {
        return false;
    }
    if !(n == 6 || path.get_char(n - 7) == '/') {
        return false;
    }
    if !(path.get_char(n - 6) == 'P' && path.get_char(n - 5) == 'y' && path.get_char(n - 4) == 't'
        && path.get_char(n - 3) == 'h' && path.get_char(n - 2) == 'o' && path.get_char(n - 1)
        == 'n') {
        return false;
    }
    let mut i: usize = 0;
    while i < n
        invariant
            n == path@.len(),
            i <= n,
            forall|j: int| 0 <= j < i ==> !python_app_at(path@, j),
        decreases n - i,
    {
        if python_app_at_exec(path, n, i) {
            return false;
        }
        i = i + 1;
    }
    proof {
        assert forall|j: int| !python_app_at(path@, j) by {
            if 0 <= j < n {
            }
        }
    }
    true
}

} // verus!
