//! Release checks against GitHub: version comparison, the update-check
//! result, version tracking between runs, and file-size display.

use vstd::prelude::*;
use crate::text::{
    decimal, eq_ignore_ascii_case, eq_ignore_ascii_case_exec, parse_u32,
    parse_unsigned_exec, push_decimal, push_str, seqs_of, split, split_char,
    to_chars,
};
use crate::units::{push_scaled, scaled_text};

verus! {

/// A release as GitHub's API describes it (the fields this program reads).
#[derive(Debug, Clone)]
pub struct GitHubRelease {
    /// The release tag, e.g. "v1.2.0".
    pub tag_name: String,
    /// Release notes, if any.
    pub body: Option<String>,
    /// Files attached to the release.
    pub assets: Vec<GitHubAsset>,
}

/// A file attached to a release.
#[derive(Debug, Clone)]
pub struct GitHubAsset {
    pub name: String,
    pub browser_download_url: String,
    pub size: u64,
}

/// What the update check reports to the interface.
#[derive(Debug, Clone)]
pub struct UpdateCheckResult {
    pub update_available: bool,
    pub latest_version: String,
    pub current_version: String,
    pub release_notes: String,
    pub download_url: String,
    pub download_size: u64,
    pub error: String,
}

/// The version that ran last, kept next to the executable.
#[derive(Debug, Clone)]
pub struct VersionInfo {
    pub last_run_version: String,
}

// ---------------------------------------------------------------------------
// Version comparison
// ---------------------------------------------------------------------------

/// Component `i` of a dotted version: the `i`-th piece parsed as a `u32`,
/// 0 when the piece is missing or not a number.
pub open spec fn version_part(s: Seq<char>, i: int) -> nat {
    let parts = split(s, '.');
    if 0 <= i < parts.len() {
        match parse_u32(parts[i]) {
            Some(v) => v,
            None => 0,
        }
    } else {
        0
    }
}

/// `(major, minor, patch)` of a dotted version.
pub open spec fn version_triple(s: Seq<char>) -> (nat, nat, nat) {
    (version_part(s, 0), version_part(s, 1), version_part(s, 2))
}

/// Lexicographic order on triples.
pub open spec fn triple_lt(a: (nat, nat, nat), b: (nat, nat, nat)) -> bool {
    ||| a.0 < b.0
    ||| a.0 == b.0 && a.1 < b.1
    ||| a.0 == b.0 && a.1 == b.1 && a.2 < b.2
}

/// `latest` names a strictly newer version than `current`.
pub open spec fn newer_version(current: Seq<char>, latest: Seq<char>) -> bool {
    triple_lt(version_triple(current), version_triple(latest))
}

/// Component `i` of the version held in `parts`.
fn version_part_exec(parts: &Vec<Vec<char>>, i: usize) -> (r: u64)
    ensures
        r as nat == (if i < parts@.len() {
            match parse_u32(parts@[i as int]@) {
                Some(v) => v,
                None => 0,
            }
        } else {
            0
        }),
{
    if i < parts.len() {
        match parse_unsigned_exec(parts[i].as_slice(), 4294967295u64) {
            Some(v) => v,
            None => 0,
        }
    } else {
        0
    }
}

/// Whether `latest` is a strictly newer version than `current`, comparing
/// major, minor and patch numbers in turn; a part that is missing or not a
/// number counts as 0.
pub fn is_newer_version(current: &str, latest: &str) -> (r: bool)
    ensures
        r == newer_version(current@, latest@),
{
    let c = to_chars(current);
    let l = to_chars(latest);
    let cp = split_char(c.as_slice(), '.');
    let lp = split_char(l.as_slice(), '.');
    let c0 = version_part_exec(&cp, 0);
    let c1 = version_part_exec(&cp, 1);
    let c2 = version_part_exec(&cp, 2);
    let l0 = version_part_exec(&lp, 0);
    let l1 = version_part_exec(&lp, 1);
    let l2 = version_part_exec(&lp, 2);
    proof {
        assert(seqs_of(cp@)[0] == cp@[0]@);
        assert forall|i: int| 0 <= i < cp@.len() implies seqs_of(cp@)[i] == cp@[i]@ by {}
        assert forall|i: int| 0 <= i < lp@.len() implies seqs_of(lp@)[i] == lp@[i]@ by {}
    }
    (c0 < l0) || (c0 == l0 && c1 < l1) || (c0 == l0 && c1 == l1 && c2 < l2)
}

} // verus!

verus! {

/// Versions are compared by major number first, then minor, then patch: a
/// greater major number is newer and a smaller one older, whatever follows;
/// with equal major numbers a greater minor number is newer and a smaller
/// one older, whatever the patch numbers; with equal major and minor
/// numbers the greater patch number is the newer.
pub proof fn lemma_newer_by_major_minor_patch(current: Seq<char>, latest: Seq<char>)
    ensures
        version_part(latest, 0) > version_part(current, 0) ==> newer_version(current, latest),
        version_part(latest, 0) < version_part(current, 0) ==> !newer_version(current, latest),
        version_part(latest, 0) == version_part(current, 0) && version_part(latest, 1) > version_part(
            current,
            1,
        ) ==> newer_version(current, latest),
        version_part(latest, 0) == version_part(current, 0) && version_part(latest, 1) < version_part(
            current,
            1,
        ) ==> !newer_version(current, latest),
        version_part(latest, 0) == version_part(current, 0) && version_part(latest, 1) == version_part(
            current,
            1,
        ) ==> (newer_version(current, latest) <==> version_part(latest, 2) > version_part(current, 2)),
{
}

/// No version is newer than itself.
pub proof fn lemma_newer_irreflexive(v: Seq<char>)
    ensures
        !newer_version(v, v),
{
}

/// Of two versions, at most one is newer than the other.
pub proof fn lemma_newer_asymmetric(a: Seq<char>, b: Seq<char>)
    ensures
        newer_version(a, b) ==> !newer_version(b, a),
{
}

/// Newer-than is transitive.
pub proof fn lemma_newer_transitive(a: Seq<char>, b: Seq<char>, c: Seq<char>)
    requires
        newer_version(a, b),
        newer_version(b, c),
    ensures
        newer_version(a, c),
{
}

/// Two versions with different major, minor or patch numbers are ordered
/// one way or the other.
pub proof fn lemma_newer_total(a: Seq<char>, b: Seq<char>)
    requires
        version_triple(a) != version_triple(b),
    ensures
        newer_version(a, b) || newer_version(b, a),
{
}

// ---------------------------------------------------------------------------
// Size display
// ---------------------------------------------------------------------------

/// What `format_size` prints: gigabytes or megabytes with one decimal,
/// kilobytes with none, or plain bytes below 1024.
pub open spec fn size_text(b: nat) -> Seq<char> {
    if b >= 1073741824 {
        scaled_text(b, 1073741824, true) + " GB"@
    } else if b >= 1048576 {
        scaled_text(b, 1048576, true) + " MB"@
    } else if b >= 1024 {
        scaled_text(b, 1024, false) + " KB"@
    } else {
        decimal(b) + " bytes"@
    }
}

/// Formats a byte count as a human-readable size, e.g. "8.6 MB".
pub fn format_size(bytes: u64) -> (s: String)
    ensures
        s@ == size_text(bytes as nat),
{
    let mut s = String::new();
    if bytes >= 1073741824 {
        push_scaled(&mut s, bytes, 1073741824, true);
        push_str(&mut s, " GB");
    } else if bytes >= 1048576 {
        push_scaled(&mut s, bytes, 1048576, true);
        push_str(&mut s, " MB");
    } else if bytes >= 1024 {
        push_scaled(&mut s, bytes, 1024, false);
        push_str(&mut s, " KB");
    } else {
        push_decimal(&mut s, bytes);
        push_str(&mut s, " bytes");
    }
    s
}

// ---------------------------------------------------------------------------
// Update check result
// ---------------------------------------------------------------------------

/// A tag without one leading `v`.
pub open spec fn strip_v(tag: Seq<char>) -> Seq<char> {
    if tag.len() > 0 && tag[0] == 'v' {
        tag.drop_first()
    } else {
        tag
    }
}

/// The asset name that holds the program.
pub open spec fn exe_asset_name() -> Seq<char> {
    "masterbooter.exe"@
}

/// The index of the first asset named like the program (ignoring ASCII
/// case) at or after `i`, if any.
pub open spec fn exe_asset_from(assets: Seq<GitHubAsset>, i: int) -> Option<int>
    decreases assets.len() - i,
{
    if i < 0 || i >= assets.len() {
        None
    } else if eq_ignore_ascii_case(assets[i].name@, exe_asset_name()) {
        Some(i)
    } else {
        exe_asset_from(assets, i + 1)
    }
}

/// What an update check reports for a release, given the running version.
pub open spec fn release_check(current: Seq<char>, release: GitHubRelease) -> (
    bool,
    Seq<char>,
    Seq<char>,
    Seq<char>,
    Seq<char>,
    nat,
    Seq<char>,
) {
    let latest = strip_v(release.tag_name@);
    let available = newer_version(current, latest);
    let (url, size) = if !available {
        (Seq::empty(), 0nat)
    } else {
        match exe_asset_from(release.assets@, 0) {
            Some(i) => (release.assets@[i].browser_download_url@, release.assets@[i].size as nat),
            None => (Seq::empty(), 0nat),
        }
    };
    let notes = match release.body {
        Some(b) => b@,
        None => Seq::empty(),
    };
    (available, latest, current, notes, url, size, Seq::empty())
}

/// The fields of a check result, as a tuple of views.
pub open spec fn check_fields(r: UpdateCheckResult) -> (
    bool,
    Seq<char>,
    Seq<char>,
    Seq<char>,
    Seq<char>,
    nat,
    Seq<char>,
) {
    (
        r.update_available,
        r.latest_version@,
        r.current_version@,
        r.release_notes@,
        r.download_url@,
        r.download_size as nat,
        r.error@,
    )
}

/// A copy of a string.
fn copy_string(s: &String) -> (r: String)
    ensures
        r@ == s@,
{
    s.clone()
}

/// The update-check result for a release fetched from GitHub: the tag
/// without its `v`, whether the tag is newer than `current_version`, and,
/// only when it is, the first asset named `masterbooter.exe` (any ASCII case)
/// as the download (an empty URL and size 0 when there is no update).
pub fn release_check_result(current_version: &str, release: &GitHubRelease) -> (r:
    UpdateCheckResult)
    ensures
        check_fields(r) == release_check(current_version@, *release),
{
    let tag = to_chars(release.tag_name.as_str());
    let start: usize = if tag.len() > 0 && tag[0] == 'v' { 1 } else { 0 };
    let mut latest = String::new();
    let mut k = start;
    while k < tag.len()
        invariant
            start <= k <= tag@.len(),
            latest@ == tag@.subrange(start as int, k as int),
        decreases tag@.len() - k,
    {
        latest.push(tag[k]);
        k = k + 1;
        proof {
            assert(latest@ =~= tag@.subrange(start as int, k as int));
        }
    }
    proof {
        assert(latest@ =~= strip_v(release.tag_name@));
    }
    let target = to_chars("masterbooter.exe");
    let mut i: usize = 0;
    let mut found: Option<usize> = None;
    while i < release.assets.len()
        invariant
            i <= release.assets@.len(),
            target@ == exe_asset_name(),
            found is None ==> exe_asset_from(release.assets@, 0) == exe_asset_from(
                release.assets@,
                i as int,
            ),
            found matches Some(j) ==> exe_asset_from(release.assets@, 0) == Some(j as int) && j
                < release.assets@.len(),
        decreases release.assets@.len() - i,
    {
        if found.is_none() {
            let name = to_chars(release.assets[i].name.as_str());
            if eq_ignore_ascii_case_exec(name.as_slice(), target.as_slice()) {
                found = Some(i);
            }
        }
        i = i + 1;
    }
    proof {
        if found is None {
            assert(exe_asset_from(release.assets@, i as int) is None);
        }
    }
    let update_available = is_newer_version(current_version, latest.as_str());
    let (download_url, download_size) = match found {
        Some(j) => if update_available {
            (copy_string(&release.assets[j].browser_download_url), release.assets[j].size)
        } else {
            (String::new(), 0u64)
        },
        None => (String::new(), 0u64),
    };
    let notes = match &release.body {
        Some(b) => copy_string(b),
        None => String::new(),
    };
    UpdateCheckResult {
        update_available,
        latest_version: latest,
        current_version: String::from_str(current_version),
        release_notes: notes,
        download_url,
        download_size,
        error: String::new(),
    }
}

/// The result reported when the check could not be completed.
pub fn update_check_error(current_version: &str, message: String) -> (r: UpdateCheckResult)
    ensures
        check_fields(r) == (
            false,
            Seq::<char>::empty(),
            current_version@,
            Seq::<char>::empty(),
            Seq::<char>::empty(),
            0nat,
            message@,
        ),
{
    UpdateCheckResult {
        update_available: false,
        latest_version: String::new(),
        current_version: String::from_str(current_version),
        release_notes: String::new(),
        download_url: String::new(),
        download_size: 0,
        error: message,
    }
}

// ---------------------------------------------------------------------------
// Version tracking
// ---------------------------------------------------------------------------

/// Whether the program's version differs from the one recorded last time;
/// with no readable record (first run), it has changed.
pub fn version_changed(recorded: &Option<VersionInfo>, current: &str) -> (r: bool)
    ensures
        r == match recorded {
            Some(info) => info.last_run_version@ != current@,
            None => true,
        },
{
    match recorded {
        Some(info) => {
            let a = to_chars(info.last_run_version.as_str());
            let b = to_chars(current);
            !chars_equal(a.as_slice(), b.as_slice())
        },
        None => true,
    }
}

/// The record to save for the running version.
pub fn current_version_info(current: &str) -> (r: VersionInfo)
    ensures
        r.last_run_version@ == current@,
{
    VersionInfo { last_run_version: String::from_str(current) }
}

/// Whether two character sequences are equal.
pub fn chars_equal(a: &[char], b: &[char]) -> (r: bool)
    ensures
        r == (a@ == b@),
{
    if a.len() != b.len() {
        return false;
    }
    let mut i: usize = 0;
    while i < a.len()
        invariant
            a@.len() == b@.len(),
            i <= a@.len(),
            forall|k: int| 0 <= k < i ==> a@[k] == b@[k],
        decreases a@.len() - i,
    {
        if a[i] != b[i] {
            return false;
        }
        i = i + 1;
    }
    proof {
        assert(a@ =~= b@);
    }
    true
}


/// The progress shown while the new program downloads: the share of 90%
/// reached (truncated to 32 bits), never above 90.
pub fn update_download_percent(downloaded: u64, total: u64) -> (r: u32)
    requires
        total > 0,
        downloaded * 90 <= u64::MAX,
    ensures
        r == if (((downloaded * 90) / (total as int)) as u32) < 90 {
            ((downloaded * 90) / (total as int)) as u32
        } else {
            90u32
        },
{
    let p = ((downloaded * 90) / total) as u32;
    if p < 90 {
        p
    } else {
        90
    }
}

} // verus!
