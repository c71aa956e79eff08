//! Validation of version strings.
//!
//! A version is the letter `v`, three dot-separated runs of decimal digits,
//! and zero or more release-candidate suffixes of the shape `-rc<digits>`.
//! On top of that pattern, the per-network rules require a single
//! release-candidate suffix on the test network and forbid one on the main
//! network; the local node accepts both forms.

use vstd::prelude::*;

use crate::network::Network;
use crate::strutil::is_digit;

verus! {

/// The first position at or after `i` that does not hold a digit.
pub open spec fn digit_run_end(s: Seq<char>, i: int) -> int
    decreases s.len() - i,
    when 0 <= i <= s.len()
{
    if i < s.len() && is_digit(s[i]) {
        digit_run_end(s, i + 1)
    } else {
        i
    }
}

/// The end of a digit run lies between its start and the end of the text.
pub proof fn lemma_digit_run_end_bounds(s: Seq<char>, i: int)
    requires
        0 <= i <= s.len(),
    ensures
        i <= digit_run_end(s, i) <= s.len(),
    decreases s.len() - i,
{
    if i < s.len() && is_digit(s[i]) {
        lemma_digit_run_end_bounds(s, i + 1);
    }
}

/// The end of the major component's digits (the core starts with `v`).
pub open spec fn major_end(s: Seq<char>) -> int {
    digit_run_end(s, 1)
}

/// The end of the minor component's digits.
pub open spec fn minor_end(s: Seq<char>) -> int {
    digit_run_end(s, major_end(s) + 1)
}

/// The end of the patch component's digits.
pub open spec fn patch_end(s: Seq<char>) -> int {
    digit_run_end(s, minor_end(s) + 1)
}

/// Whether `s` starts with a well-formed core `v<major>.<minor>.<patch>`:
/// the letter `v`, then three non-empty runs of digits separated by dots.
pub open spec fn version_core_ok(s: Seq<char>) -> bool {
    &&& s.len() >= 1
    &&& s[0] == 'v'
    &&& major_end(s) > 1
    &&& major_end(s) < s.len()
    &&& s[major_end(s)] == '.'
    &&& minor_end(s) > major_end(s) + 1
    &&& minor_end(s) < s.len()
    &&& s[minor_end(s)] == '.'
    &&& patch_end(s) > minor_end(s) + 1
}

/// Whether `s` from position `i` to its end is a sequence of zero or more
/// release-candidate suffixes, each of the shape `-rc<digits>` with at
/// least one digit.
pub open spec fn rc_suffixes_from(s: Seq<char>, i: int) -> bool
    decreases s.len() - i,
    when 0 <= i <= s.len()
    via rc_suffixes_from_decreases
{
    if i == s.len() {
        true
    } else if i + 3 <= s.len() && s[i] == '-' && s[i + 1] == 'r' && s[i + 2] == 'c' {
        let d = digit_run_end(s, i + 3);
        d > i + 3 && rc_suffixes_from(s, d)
    } else {
        false
    }
}

#[via_fn]
proof fn rc_suffixes_from_decreases(s: Seq<char>, i: int) {
    if 0 <= i <= s.len() && i != s.len() && i + 3 <= s.len() {
        lemma_digit_run_end_bounds(s, i + 3);
    }
}

/// Whether `s` from position `i` to its end is exactly one
/// release-candidate suffix `-rc<digits>`.
pub open spec fn single_rc_to_end(s: Seq<char>, i: int) -> bool {
    &&& i + 3 <= s.len()
    &&& s[i] == '-'
    &&& s[i + 1] == 'r'
    &&& s[i + 2] == 'c'
    &&& digit_run_end(s, i + 3) > i + 3
    &&& digit_run_end(s, i + 3) == s.len()
}

/// A valid version: a well-formed core followed by zero or more
/// release-candidate suffixes.
pub open spec fn spec_is_valid_version(s: Seq<char>) -> bool {
    version_core_ok(s) && rc_suffixes_from(s, patch_end(s))
}

/// A valid version for a network: the generic version pattern together
/// with that network's release-candidate rule, nothing more.  The local
/// node accepts plain and release-candidate versions alike, the test
/// network requires exactly one release-candidate suffix, and the main
/// network forbids any suffix.
pub open spec fn spec_is_valid_version_for_network(network: Network, s: Seq<char>) -> bool {
    match network {
        Network::LocalNode => version_core_ok(s) && rc_suffixes_from(s, patch_end(s)),
        Network::Testnet => version_core_ok(s) && single_rc_to_end(s, patch_end(s)),
        Network::Mainnet => version_core_ok(s) && patch_end(s) == s.len(),
    }
}

/// A version that is valid for some network is a valid version: each
/// per-network rule only narrows the set of accepted suffixes.
pub proof fn lemma_network_valid_implies_valid(network: Network, s: Seq<char>)
    requires
        spec_is_valid_version_for_network(network, s),
    ensures
        spec_is_valid_version(s),
{
    lemma_digit_run_end_bounds(s, 1);
    lemma_digit_run_end_bounds(s, major_end(s) + 1);
    lemma_digit_run_end_bounds(s, minor_end(s) + 1);
    match network {
        Network::LocalNode => {},
        Network::Testnet => {
            let c = patch_end(s);
            let d = digit_run_end(s, c + 3);
            lemma_digit_run_end_bounds(s, c + 3);
            assert(rc_suffixes_from(s, d));
            assert(rc_suffixes_from(s, c));
        },
        Network::Mainnet => {
            assert(rc_suffixes_from(s, patch_end(s)));
        },
    }
}

/// For the local node, per-network validity coincides with the generic
/// version pattern.
pub proof fn lemma_local_node_valid_iff_valid(s: Seq<char>)
    ensures
        spec_is_valid_version_for_network(Network::LocalNode, s) == spec_is_valid_version(s),
{
}

/// Returns whether `c` is an ASCII decimal digit.
fn is_digit_char(c: char) -> (r: bool)
    ensures
        r == is_digit(c),
{
    let u = c as u32;
    48 <= u && u <= 57
}

/// Scans the run of digits starting at `i` and returns its end.
fn scan_digit_run(s: &str, i: usize, n: usize) -> (r: usize)
    requires
        n == s@.len(),
        i <= n,
    ensures
        r == digit_run_end(s@, i as int),
        i <= r <= n,
{
    let mut j = i;
    while j < n && is_digit_char(s.get_char(j))
        invariant
            i <= j <= n,
            n == s@.len(),
            digit_run_end(s@, i as int) == digit_run_end(s@, j as int),
        decreases n - j,
    {
        j = j + 1;
    }
    j
}

/// Scans the version core `v<major>.<minor>.<patch>` and returns the end
/// positions of the three digit runs, or nothing when the core is not
/// well formed.
fn scan_version_core(s: &str, n: usize) -> (r: Option<(usize, usize, usize)>)
    requires
        n == s@.len(),
    ensures
        match r {
            Some(ends) => {
                &&& version_core_ok(s@)
                &&& ends.0 == major_end(s@)
                &&& ends.1 == minor_end(s@)
                &&& ends.2 == patch_end(s@)
                &&& 1 < ends.0 < ends.1 < ends.2 <= n
            },
            None => !version_core_ok(s@),
        },
{
    if n == 0 || s.get_char(0) != 'v' {
        return None;
    }
    let a = scan_digit_run(s, 1, n);
    if a == 1 || a == n || s.get_char(a) != '.' {
        return None;
    }
    let b = scan_digit_run(s, a + 1, n);
    if b == a + 1 || b == n || s.get_char(b) != '.' {
        return None;
    }
    let c = scan_digit_run(s, b + 1, n);
    if c == b + 1 {
        return None;
    }
    Some((a, b, c))
}

/// Scans for zero or more release-candidate suffixes from `i` to the end.
fn scan_rc_suffixes(s: &str, i: usize, n: usize) -> (r: bool)
    requires
        n == s@.len(),
        i <= n,
    ensures
        r == rc_suffixes_from(s@, i as int),
{
    let mut j = i;
    while j < n
        invariant
            i <= j <= n,
            n == s@.len(),
            rc_suffixes_from(s@, i as int) == rc_suffixes_from(s@, j as int),
        decreases n - j,
    {
        if n - j < 3 {
            return false;
        }
        if s.get_char(j) != '-' || s.get_char(j + 1) != 'r' || s.get_char(j + 2) != 'c' {
            return false;
        }
        let d = scan_digit_run(s, j + 3, n);
        if d == j + 3 {
            return false;
        }
        j = d;
    }
    true
}

/// Returns whether the given version fulfills the semantic versioning
/// requirements: `v<major>.<minor>.<patch>` with optional `-rc<n>`
/// suffixes.  Malformed input simply yields `false`.
pub fn is_valid_version(version: &str) -> (r: bool)
    ensures
        r == spec_is_valid_version(version@),
{
    let n = version.unicode_len();
    match scan_version_core(version, n) {
        Some((_a, _b, c)) => scan_rc_suffixes(version, c, n),
        None => false,
    }
}

/// Returns whether the given target version fits the requirements for the
/// selected network: upgrades of the test network must use a release
/// candidate with a `-rc<n>` suffix, the main network forbids one, and the
/// local node accepts both.  Malformed input simply yields `false`.
pub fn is_valid_version_for_network(network: Network, target_version: &str) -> (r: bool)
    ensures
        r == spec_is_valid_version_for_network(network, target_version@),
{
    let n = target_version.unicode_len();
    let core = scan_version_core(target_version, n);
    match core {
        Some((_a, _b, c)) => {
            match network {
                Network::LocalNode => scan_rc_suffixes(target_version, c, n),
                Network::Testnet => {
                    if n - c < 3 {
                        return false;
                    }
                    if target_version.get_char(c) != '-' || target_version.get_char(c + 1) != 'r'
                        || target_version.get_char(c + 2) != 'c' {
                        return false;
                    }
                    let d = scan_digit_run(target_version, c + 3, n);
                    d > c + 3 && d == n
                },
                Network::Mainnet => c == n,
            }
        },
        None => false,
    }
}

} // verus!
