//! Working with the data of a published release: its notes, its assets,
//! and the checksum file that accompanies them.

use vstd::prelude::*;

use crate::strutil::{contains_str, matches_at, spec_contains};

verus! {

/// Why release information could not be used.
#[derive(Clone, Copy, Debug, PartialEq, Eq, Structural)]
pub enum ReleaseError {
    /// The release carries no notes.
    NoReleaseNotes,
}

/// One downloadable asset of a release.
#[derive(Clone, Debug)]
pub struct ReleaseAsset {
    pub name: String,
    pub browser_download_url: String,
}

/// The data of a published release that this crate works with.
#[derive(Clone, Debug)]
pub struct ReleaseInfo {
    /// The tag the release was published under.
    pub tag_name: String,
    /// The release notes, when the release carries any.
    pub body: Option<String>,
    /// The downloadable assets of the release.
    pub assets: Vec<ReleaseAsset>,
}

/// Returns the release notes from the release, or an error when it
/// carries none.
pub fn get_release_notes(release: &ReleaseInfo) -> (r: Result<String, ReleaseError>)
    ensures
        match release.body {
            Some(body) => r == Ok::<String, ReleaseError>(body),
            None => r == Err::<String, ReleaseError>(ReleaseError::NoReleaseNotes),
        },
{
    match &release.body {
        Some(body) => Ok(body.clone()),
        None => Err(ReleaseError::NoReleaseNotes),
    }
}

/// The operating-system key belonging to a platform pattern that starts at
/// position `k` of an asset name, if one does.
pub open spec fn os_key_at(s: Seq<char>, k: int) -> Option<Seq<char>> {
    if 0 <= k && k + "Linux_amd64"@.len() <= s.len() && s.subrange(k, k + "Linux_amd64"@.len())
        == "Linux_amd64"@ {
        Some("linux/amd64"@)
    } else if 0 <= k && k + "Linux_arm64"@.len() <= s.len() && s.subrange(
        k,
        k + "Linux_arm64"@.len(),
    ) == "Linux_arm64"@ {
        Some("linux/arm64"@)
    } else if 0 <= k && k + "Darwin_amd64"@.len() <= s.len() && s.subrange(
        k,
        k + "Darwin_amd64"@.len(),
    ) == "Darwin_amd64"@ {
        Some("darwin/amd64"@)
    } else if 0 <= k && k + "Darwin_arm64"@.len() <= s.len() && s.subrange(
        k,
        k + "Darwin_arm64"@.len(),
    ) == "Darwin_arm64"@ {
        Some("darwin/arm64"@)
    } else {
        None
    }
}

/// The operating-system key at the leftmost platform pattern at or after
/// position `i` of an asset name.
pub open spec fn spec_os_key_from(s: Seq<char>, i: int) -> Option<Seq<char>>
    decreases s.len() - i,
    when 0 <= i <= s.len()
{
    if i == s.len() {
        None
    } else if os_key_at(s, i) is Some {
        os_key_at(s, i)
    } else {
        spec_os_key_from(s, i + 1)
    }
}

/// The operating-system key of an asset name: `<os>/<arch>` with the
/// operating system in lower case, taken from the leftmost occurrence of a
/// platform pattern `Linux_amd64`, `Linux_arm64`, `Darwin_amd64` or
/// `Darwin_arm64` in the name.
pub open spec fn spec_os_key(s: Seq<char>) -> Option<Seq<char>> {
    spec_os_key_from(s, 0)
}

/// Returns the operating-system key for an asset name, or nothing when the
/// name holds no platform pattern.
pub fn get_os_key_from_asset_name(name: &str) -> (r: Option<String>)
    ensures
        match r {
            Some(key) => spec_os_key(name@) == Some(key@),
            None => spec_os_key(name@) is None,
        },
{
    let n = name.unicode_len();
    let mut k: usize = 0;
    while k < n
        invariant
            k <= n,
            n == name@.len(),
            spec_os_key(name@) == spec_os_key_from(name@, k as int),
        decreases n - k,
    {
        proof {
            reveal_strlit("Linux_amd64");
            reveal_strlit("Linux_arm64");
            reveal_strlit("Darwin_amd64");
            reveal_strlit("Darwin_arm64");
        }
        if n - k >= 11 {
            if matches_at(name, "Linux_amd64", k, n, 11) {
                return Some(String::from_str("linux/amd64"));
            }
            if matches_at(name, "Linux_arm64", k, n, 11) {
                return Some(String::from_str("linux/arm64"));
            }
        }
        if n - k >= 12 {
            if matches_at(name, "Darwin_amd64", k, n, 12) {
                return Some(String::from_str("darwin/amd64"));
            }
            if matches_at(name, "Darwin_arm64", k, n, 12) {
                return Some(String::from_str("darwin/arm64"));
            }
        }
        proof {
            assert(os_key_at(name@, k as int) is None);
        }
        k = k + 1;
    }
    None
}

/// Whether `c` separates the fields of a checksum line.
pub open spec fn is_space(c: char) -> bool {
    c == ' ' || c == '\t' || c == '\r' || c == '\n'
}

/// The first position at or after `i` that holds no whitespace.
pub open spec fn skip_spaces(s: Seq<char>, i: int) -> int
    decreases s.len() - i,
    when 0 <= i <= s.len()
{
    if i < s.len() && is_space(s[i]) {
        skip_spaces(s, i + 1)
    } else {
        i
    }
}

/// The first position at or after `i` that holds whitespace (the end of
/// the field that starts at `i`).
pub open spec fn field_end(s: Seq<char>, i: int) -> int
    decreases s.len() - i,
    when 0 <= i <= s.len()
{
    if i < s.len() && !is_space(s[i]) {
        field_end(s, i + 1)
    } else {
        i
    }
}

/// The parse of one checksum line: exactly two whitespace-separated
/// fields, a checksum and an asset name, in that order; lines of any other
/// shape, and assets for Windows, parse to nothing.  The result is the
/// pair (asset name, checksum).
pub open spec fn spec_parse_checksum_line(s: Seq<char>) -> Option<(Seq<char>, Seq<char>)> {
    let t0 = skip_spaces(s, 0);
    let e0 = field_end(s, t0);
    let t1 = skip_spaces(s, e0);
    let e1 = field_end(s, t1);
    let t2 = skip_spaces(s, e1);
    let checksum = s.subrange(t0, e0);
    let asset = s.subrange(t1, e1);
    if e0 > t0 && e1 > t1 && t2 == s.len() && !spec_contains(asset, "Windows"@) {
        Some((asset, checksum))
    } else {
        None
    }
}

/// Scans past whitespace from `i` and returns the first non-blank
/// position.
fn scan_spaces(s: &str, i: usize, n: usize) -> (r: usize)
    requires
        n == s@.len(),
        i <= n,
    ensures
        r == skip_spaces(s@, i as int),
        i <= r <= n,
{
    let mut j = i;
    while j < n && is_space_char(s.get_char(j))
        invariant
            i <= j <= n,
            n == s@.len(),
            skip_spaces(s@, i as int) == skip_spaces(s@, j as int),
        decreases n - j,
    {
        j = j + 1;
    }
    j
}

/// Returns whether `c` separates the fields of a checksum line.
fn is_space_char(c: char) -> (r: bool)
    ensures
        r == is_space(c),
{
    c == ' ' || c == '\t' || c == '\r' || c == '\n'
}

/// Scans the field that starts at `i` and returns its end.
fn scan_field(s: &str, i: usize, n: usize) -> (r: usize)
    requires
        n == s@.len(),
        i <= n,
    ensures
        r == field_end(s@, i as int),
        i <= r <= n,
{
    let mut j = i;
    while j < n && !is_space_char(s.get_char(j))
        invariant
            i <= j <= n,
            n == s@.len(),
            field_end(s@, i as int) == field_end(s@, j as int),
        decreases n - j,
    {
        j = j + 1;
    }
    j
}

/// Parses a single line from the checksum file into an (asset name,
/// checksum) pair.  Returns nothing when the line does not hold exactly a
/// checksum and an asset name, or names an asset for Windows.
pub fn parse_checksum_line(line: &str) -> (r: Option<(String, String)>)
    ensures
        match r {
            Some(p) => spec_parse_checksum_line(line@) == Some((p.0@, p.1@)),
            None => spec_parse_checksum_line(line@) is None,
        },
{
    let n = line.unicode_len();
    let t0 = scan_spaces(line, 0, n);
    let e0 = scan_field(line, t0, n);
    let t1 = scan_spaces(line, e0, n);
    let e1 = scan_field(line, t1, n);
    let t2 = scan_spaces(line, e1, n);
    if e0 == t0 || e1 == t1 || t2 != n {
        return None;
    }
    let checksum = line.substring_char(t0, e0);
    let asset = line.substring_char(t1, e1);
    if contains_str(asset, "Windows") {
        return None;
    }
    Some((asset.to_owned(), checksum.to_owned()))
}

/// The end of the line that starts at `i`: the position of the next line
/// break, or the end of the text.
pub open spec fn line_break(s: Seq<char>, i: int) -> int
    decreases s.len() - i,
    when 0 <= i <= s.len()
{
    if i < s.len() && s[i] != '\n' {
        line_break(s, i + 1)
    } else {
        i
    }
}

/// A line break position lies between its start and the end of the text.
pub proof fn lemma_line_break_bounds(s: Seq<char>, i: int)
    requires
        0 <= i <= s.len(),
    ensures
        i <= line_break(s, i) <= s.len(),
    decreases s.len() - i,
{
    if i < s.len() && s[i] != '\n' {
        lemma_line_break_bounds(s, i + 1);
    }
}

/// The (asset name, checksum) pairs parsed from the lines of a checksum
/// file, from position `i` on, in the order of the lines.
pub open spec fn spec_checksum_pairs_from(s: Seq<char>, i: int) -> Seq<(Seq<char>, Seq<char>)>
    decreases s.len() - i,
    when 0 <= i <= s.len()
    via spec_checksum_pairs_from_decreases
{
    let e = line_break(s, i);
    let parsed = spec_parse_checksum_line(s.subrange(i, e));
    let rest = if e < s.len() {
        spec_checksum_pairs_from(s, e + 1)
    } else {
        Seq::empty()
    };
    match parsed {
        Some(p) => seq![p] + rest,
        None => rest,
    }
}

#[via_fn]
proof fn spec_checksum_pairs_from_decreases(s: Seq<char>, i: int) {
    if 0 <= i <= s.len() {
        lemma_line_break_bounds(s, i);
    }
}

/// The (asset name, checksum) pairs parsed from a checksum file.
pub open spec fn spec_checksum_pairs(s: Seq<char>) -> Seq<(Seq<char>, Seq<char>)> {
    spec_checksum_pairs_from(s, 0)
}

/// Parses the downloaded checksum file into its (asset name, checksum)
/// pairs, one per well-formed line, in the order of the lines.
pub fn parse_checksum_file(body: &str) -> (r: Vec<(String, String)>)
    ensures
        r@.len() == spec_checksum_pairs(body@).len(),
        forall|j: int|
            0 <= j < r@.len() ==> (#[trigger] r@[j]).0@ == spec_checksum_pairs(body@)[j].0
                && r@[j].1@ == spec_checksum_pairs(body@)[j].1,
{
    let n = body.unicode_len();
    let mut pairs: Vec<(String, String)> = Vec::new();
    let mut i: usize = 0;
    while i < n
        invariant
            i <= n,
            n == body@.len(),
            spec_checksum_pairs(body@).len() == pairs@.len() + spec_checksum_pairs_from(
                body@,
                i as int,
            ).len(),
            forall|j: int|
                pairs@.len() <= j < spec_checksum_pairs(body@).len()
                    ==> #[trigger] spec_checksum_pairs(body@)[j] == spec_checksum_pairs_from(
                    body@,
                    i as int,
                )[j - pairs@.len()],
            forall|j: int|
                0 <= j < pairs@.len() ==> (#[trigger] pairs@[j]).0@ == spec_checksum_pairs(
                    body@,
                )[j].0 && pairs@[j].1@ == spec_checksum_pairs(body@)[j].1,
        decreases n - i,
    {
        proof {
            lemma_line_break_bounds(body@, i as int);
        }
        let e = scan_line_break(body, i, n);
        let line = body.substring_char(i, e);
        match parse_checksum_line(line) {
            Some(p) => {
                pairs.push(p);
            },
            None => {},
        }
        if e < n {
            i = e + 1;
        } else {
            i = n;
        }
    }
    pairs
}

/// Scans to the end of the line that starts at `i`.
fn scan_line_break(s: &str, i: usize, n: usize) -> (r: usize)
    requires
        n == s@.len(),
        i <= n,
    ensures
        r == line_break(s@, i as int),
        i <= r <= n,
{
    let mut j = i;
    while j < n && s.get_char(j) != '\n'
        invariant
            i <= j <= n,
            n == s@.len(),
            line_break(s@, i as int) == line_break(s@, j as int),
        decreases n - j,
    {
        j = j + 1;
    }
    j
}

/// The position of the first asset that holds the checksum file.
pub open spec fn spec_checksum_asset_from(assets: Seq<ReleaseAsset>, i: int) -> Option<int>
    decreases assets.len() - i,
    when 0 <= i <= assets.len()
{
    if i == assets.len() {
        None
    } else if assets[i].name@ == "checksums.txt"@ {
        Some(i)
    } else {
        spec_checksum_asset_from(assets, i + 1)
    }
}

/// Returns the position of the first asset named `checksums.txt`, whose
/// download URL leads to the checksum file of the release.
pub fn get_checksum_from_assets(assets: &Vec<ReleaseAsset>) -> (r: Option<usize>)
    ensures
        match r {
            Some(i) => spec_checksum_asset_from(assets@, 0) == Some(i as int) && i < assets@.len(),
            None => spec_checksum_asset_from(assets@, 0) is None,
        },
{
    let n = assets.len();
    let mut i: usize = 0;
    while i < n
        invariant
            i <= n,
            n == assets@.len(),
            spec_checksum_asset_from(assets@, 0) == spec_checksum_asset_from(assets@, i as int),
        decreases n - i,
    {
        if crate::strutil::str_eq(assets[i].name.as_str(), "checksums.txt") {
            return Some(i);
        }
        i = i + 1;
    }
    None
}

/// The (operating-system key, download URL) entries derived from the
/// assets of a release, in asset order: every asset whose name holds a
/// platform pattern and whose checksum is on record contributes its key
/// and its download URL with the checksum appended.
pub open spec fn spec_asset_entries(
    assets: Seq<ReleaseAsset>,
    checksums: Seq<(String, String)>,
) -> Seq<(Seq<char>, Seq<char>)>
    decreases assets.len(),
{
    if assets.len() == 0 {
        Seq::empty()
    } else {
        let init = spec_asset_entries(assets.drop_last(), checksums);
        let a = assets.last();
        if spec_os_key(a.name@) is Some && spec_lookup_checksum(checksums, a.name@) is Some {
            init + seq![
                (
                    spec_os_key(a.name@)->0,
                    a.browser_download_url@ + "?checksum="@ + spec_lookup_checksum(
                        checksums,
                        a.name@,
                    )->0,
                ),
            ]
        } else {
            init
        }
    }
}

/// Builds the (operating-system key, download URL) entries for the assets
/// of a release: each asset with a platform pattern in its name and a
/// recorded checksum yields its key and its download URL with the
/// checksum appended, in asset order.
pub fn build_asset_entries(assets: &Vec<ReleaseAsset>, checksums: &Vec<(String, String)>) -> (r:
    Vec<(String, String)>)
    ensures
        r@.len() == spec_asset_entries(assets@, checksums@).len(),
        forall|j: int|
            0 <= j < r@.len() ==> (#[trigger] r@[j]).0@ == spec_asset_entries(
                assets@,
                checksums@,
            )[j].0 && r@[j].1@ == spec_asset_entries(assets@, checksums@)[j].1,
{
    let n = assets.len();
    let mut entries: Vec<(String, String)> = Vec::new();
    proof {
        assert(assets@.take(0) =~= Seq::<ReleaseAsset>::empty());
    }
    let mut i: usize = 0;
    while i < n
        invariant
            i <= n,
            n == assets@.len(),
            entries@.len() == spec_asset_entries(assets@.take(i as int), checksums@).len(),
            forall|j: int|
                0 <= j < entries@.len() ==> (#[trigger] entries@[j]).0@ == spec_asset_entries(
                    assets@.take(i as int),
                    checksums@,
                )[j].0 && entries@[j].1@ == spec_asset_entries(assets@.take(i as int), checksums@)[j].1,
        decreases n - i,
    {
        proof {
            assert(assets@.take(i + 1).drop_last() =~= assets@.take(i as int));
            assert(assets@.take(i + 1).last() == assets@[i as int]);
        }
        let key = get_os_key_from_asset_name(assets[i].name.as_str());
        let sum = lookup_checksum(checksums, assets[i].name.as_str());
        match (key, sum) {
            (Some(key), Some(sum)) => {
                let mut url = assets[i].browser_download_url.clone();
                url.append("?checksum=");
                url.append(sum.as_str());
                entries.push((key, url));
            },
            _ => {},
        }
        i = i + 1;
    }
    proof {
        assert(assets@.take(n as int) =~= assets@);
    }
    entries
}

/// The checksum recorded for `key`, taking the last entry when a file
/// lists an asset more than once.
pub open spec fn spec_lookup_checksum(pairs: Seq<(String, String)>, key: Seq<char>) -> Option<
    Seq<char>,
>
    decreases pairs.len(),
{
    if pairs.len() == 0 {
        None
    } else if pairs.last().0@ == key {
        Some(pairs.last().1@)
    } else {
        spec_lookup_checksum(pairs.drop_last(), key)
    }
}

/// Returns the checksum recorded for the given asset name, taking the last
/// entry when the file listed the asset more than once.
pub fn lookup_checksum(pairs: &Vec<(String, String)>, asset_name: &str) -> (r: Option<String>)
    ensures
        match r {
            Some(sum) => spec_lookup_checksum(pairs@, asset_name@) == Some(sum@),
            None => spec_lookup_checksum(pairs@, asset_name@) is None,
        },
{
    let n = pairs.len();
    proof {
        assert(pairs@.take(n as int) =~= pairs@);
    }
    let mut i: usize = n;
    while i > 0
        invariant
            i <= n,
            n == pairs@.len(),
            spec_lookup_checksum(pairs@, asset_name@) == spec_lookup_checksum(
                pairs@.take(i as int),
                asset_name@,
            ),
        decreases i,
    {
        i = i - 1;
        proof {
            assert(pairs@.take(i + 1).drop_last() =~= pairs@.take(i as int));
            assert(pairs@.take(i + 1).last() == pairs@[i as int]);
        }
        if crate::strutil::str_eq(pairs[i].0.as_str(), asset_name) {
            return Some(pairs[i].1.clone());
        }
    }
    None
}

} // verus!
