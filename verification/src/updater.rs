//! The decisions of the updater: which files of a release to download for the
//! emulator being updated, which BizHawk version the new release needs, and
//! which BizHawk release to fetch for it.
use vstd::prelude::*;
use semver::Version as SemverVersion;
use crate::dotted::semver_new;
use crate::frontend::TargetOs;
use crate::github::{ReleaseAsset, parse_semver, semver_parse};
use crate::report::{error_report, error_report_text};
use crate::text::{chars_of, decimal, push_char, push_str};

verus! {

/// How two SemVer versions compare.
#[derive(Clone, Copy, Debug, PartialEq, Eq, Structural)]
pub enum VersionOrder {
    Older,
    Same,
    Newer,
}

/// How `semver::Version`'s `Ord` compares two versions.
pub uninterp spec fn semver_order(a: SemverVersion, b: SemverVersion) -> VersionOrder;

/// How the numbers `(a1, a2, a3)` compare to `(b1, b2, b3)`, the first
/// number deciding, then the second, then the third.
pub open spec fn triple_order(a1: u64, a2: u64, a3: u64, b1: u64, b2: u64, b3: u64) -> VersionOrder {
    if a1 < b1 || (a1 == b1 && (a2 < b2 || (a2 == b2 && a3 < b3))) {
        VersionOrder::Older
    } else if a1 == b1 && a2 == b2 && a3 == b3 {
        VersionOrder::Same
    } else {
        VersionOrder::Newer
    }
}

/// `Ord::cmp` of `semver::Version`: how `a` compares to `b`, as `Older`,
/// `Same` or `Newer` for `Less`, `Equal` and `Greater`. Its result is taken to
/// depend on the two versions alone. Of two versions made by `Version::new`
/// (no pre-release, no build metadata) it claims what the derived `Ord` on the
/// fields `major`, `minor`, `patch`, `pre`, `build` gives: the numbers decide in
/// that order. Nothing more is said of it.
#[verifier::external_body]
pub(crate) fn compare_semver(a: &SemverVersion, b: &SemverVersion) -> (r: VersionOrder)
    ensures
        r == semver_order(*a, *b),
        forall|a1: u64, a2: u64, a3: u64, b1: u64, b2: u64, b3: u64|
            *a == #[trigger] semver_new(a1, a2, a3) && *b == #[trigger] semver_new(b1, b2, b3) ==> r
                == triple_order(a1, a2, a3, b1, b2, b3),
{
    match a.cmp(b) {
        std::cmp::Ordering::Less => VersionOrder::Older,
        std::cmp::Ordering::Equal => VersionOrder::Same,
        std::cmp::Ordering::Greater => VersionOrder::Newer,
    }
}

/// What the `Display` impl of `semver::Version` writes for a version.
pub uninterp spec fn semver_text(v: SemverVersion) -> Seq<char>;

/// `ToString::to_string` of `semver::Version` (through its `Display` impl). Its
/// result is taken to depend on the version alone. Of a version made by
/// `Version::new` (no pre-release, no build metadata) it claims what the
/// `Display` impl writes: the three numbers in decimal, joined by dots.
#[verifier::external_body]
pub(crate) fn semver_to_string(v: &SemverVersion) -> (r: String)
    ensures
        r@ == semver_text(*v),
        forall|a: u64, b: u64, c: u64|
            *v == #[trigger] semver_new(a, b, c) ==> r@ == decimal(a as nat) + "."@ + decimal(b as nat) + "."@
                + decimal(c as nat),
{
    v.to_string()
}

/// The emulator (or flashcart) whose multiworld files are being updated.
#[derive(Clone, Copy, Debug, PartialEq, Eq, Structural)]
pub enum Emulator {
    EverDrive,
    BizHawk,
    Pj64,
}

/// Why an update could not go on.
#[derive(Debug)]
pub enum UpdaterError {
    /// The release does not have a download for this platform.
    MissingAsset,
    /// The expected BizHawk version is not in the README.
    ReadmeFormat,
    SemVer(semver::Error),
    /// The update requires an older version of BizHawk.
    BizHawkVersionRegression,
    /// The downloaded archive has no README naming the BizHawk version.
    MissingReadme,
    /// The downloaded archive holds a file that does not belong to the update.
    UnexpectedZipEntry,
}

pub open spec fn is_desktop(os: TargetOs) -> bool {
    os == TargetOs::Linux || os == TargetOs::Windows
}

/// The release asset holding the new version for `emulator`, and the
/// Project64 script to update with it, if any.
pub open spec fn multiworld_asset_names(emulator: Emulator, os: TargetOs) -> (Seq<char>, Option<Seq<char>>) {
    match emulator {
        Emulator::EverDrive => if os == TargetOs::Linux {
            ("multiworld-gui-linux"@, None)
        } else {
            ("multiworld-pj64.exe"@, None)
        },
        Emulator::BizHawk => if os == TargetOs::Linux {
            ("multiworld-bizhawk-linux.zip"@, None)
        } else {
            ("multiworld-bizhawk.zip"@, None)
        },
        Emulator::Pj64 => ("multiworld-pj64.exe"@, Some("ootrmw-pj64.js"@)),
    }
}

/// The names of the assets to download for `emulator` on `os`.
pub fn multiworld_assets(emulator: Emulator, os: TargetOs) -> (r: (&'static str, Option<&'static str>))
    requires
        is_desktop(os),
    ensures
        r.0@ == multiworld_asset_names(emulator, os).0,
        match multiworld_asset_names(emulator, os).1 {
            Some(s) => r.1 matches Some(t) && t@ == s,
            None => r.1 is None,
        },
{
    match emulator {
        Emulator::EverDrive => if os == TargetOs::Linux {
            ("multiworld-gui-linux", None)
        } else {
            ("multiworld-pj64.exe", None)
        },
        Emulator::BizHawk => if os == TargetOs::Linux {
            ("multiworld-bizhawk-linux.zip", None)
        } else {
            ("multiworld-bizhawk.zip", None)
        },
        Emulator::Pj64 => ("multiworld-pj64.exe", Some("ootrmw-pj64.js")),
    }
}

pub open spec fn asset_names(assets: Seq<ReleaseAsset>) -> Seq<Seq<char>> {
    Seq::new(assets.len(), |i: int| assets[i].name@)
}

/// The last of the first `n` names that is `name`.
pub open spec fn last_named(names: Seq<Seq<char>>, name: Seq<char>, n: int) -> Option<int>
    decreases n,
{
    if n <= 0 {
        None
    } else if names[n - 1] == name {
        Some(n - 1)
    } else {
        last_named(names, name, n - 1)
    }
}

/// The last of the first `n` names that is `name` but not `other`.
pub open spec fn last_named_except(names: Seq<Seq<char>>, name: Seq<char>, other: Seq<char>, n: int) -> Option<
    int,
>
    decreases n,
{
    if n <= 0 {
        None
    } else if names[n - 1] == name && names[n - 1] != other {
        Some(n - 1)
    } else {
        last_named_except(names, name, other, n - 1)
    }
}

proof fn lemma_last_named_bounds(names: Seq<Seq<char>>, name: Seq<char>, other: Seq<char>, n: int)
    ensures
        last_named(names, name, n) matches Some(k) ==> 0 <= k < n,
        last_named_except(names, name, other, n) matches Some(k) ==> 0 <= k < n,
    decreases n,
{
    if n > 0 {
        lemma_last_named_bounds(names, name, other, n - 1);
    }
}

/// The positions of the asset and of the script among the release's assets (a
/// later asset of the same name wins), or `MissingAsset` if the script is
/// wanted and missing, or the asset is missing.
pub open spec fn selected_assets(names: Seq<Seq<char>>, asset: Seq<char>, script: Option<Seq<char>>) -> Option<
    (int, Option<int>),
> {
    let a = last_named(names, asset, names.len() as int);
    let s = match script {
        Some(sn) => last_named_except(names, sn, asset, names.len() as int),
        None => None,
    };
    if script is Some && s is None {
        None
    } else {
        match a {
            Some(i) => Some((i, s)),
            None => None,
        }
    }
}

/// Whether `a` and `b` are the same text.
pub(crate) fn same_text(a: &str, b: &str) -> (r: bool)
    ensures
        r == (a@ == b@),
{
    let x = chars_of(a);
    let y = chars_of(b);
    if x.len() != y.len() {
        assert(x@.len() != y@.len());
        return false;
    }
    let mut i: usize = 0;
    while i < x.len()
        invariant
            x@ == a@,
            y@ == b@,
            x@.len() == y@.len(),
            i <= x@.len(),
            forall|k: int| 0 <= k < i ==> x@[k] == y@[k],
        decreases x.len() - i,
    {
        if x[i] != y[i] {
            assert(x@[i as int] != y@[i as int]);
            return false;
        }
        i = i + 1;
    }
    assert(x@ =~= y@);
    true
}

/// Finds the asset and the script to download among a release's assets.
pub fn select_assets(assets: &Vec<ReleaseAsset>, asset_name: &str, script_name: Option<&str>) -> (r:
    Result<(usize, Option<usize>), UpdaterError>)
    ensures
        match selected_assets(
            asset_names(assets@),
            asset_name@,
            match script_name {
                Some(s) => Some(s@),
                None => None,
            },
        ) {
            Some((i, s)) => r matches Ok((ri, rs)) && ri == i && match s {
                Some(k) => rs == Some(k as usize),
                None => rs is None,
            },
            None => r matches Err(UpdaterError::MissingAsset),
        },
{
    let ghost names = asset_names(assets@);
    let ghost script = match script_name {
        Some(s) => Some(s@),
        None => None,
    };
    let mut asset: Option<usize> = None;
    let mut script_at: Option<usize> = None;
    let mut i: usize = 0;
    while i < assets.len()
        invariant
            names == asset_names(assets@),
            i <= assets@.len(),
            match last_named(names, asset_name@, i as int) {
                Some(k) => asset == Some(k as usize),
                None => asset is None,
            },
            match script_name {
                Some(sn) => match last_named_except(names, sn@, asset_name@, i as int) {
                    Some(k) => script_at == Some(k as usize),
                    None => script_at is None,
                },
                None => script_at is None,
            },
        decreases assets.len() - i,
    {
        let name = assets[i].name.as_str();
        assert(name@ == names[i as int]);
        if same_text(name, asset_name) {
            asset = Some(i);
        } else {
            match script_name {
                Some(sn) => if same_text(name, sn) {
                    script_at = Some(i);
                },
                None => {},
            }
        }
        i = i + 1;
    }
    assert(names.len() == i);
    proof {
        match script_name {
            Some(sn) => lemma_last_named_bounds(names, asset_name@, sn@, i as int),
            None => lemma_last_named_bounds(names, asset_name@, asset_name@, i as int),
        }
    }
    if script_name.is_some() && script_at.is_none() {
        return Err(UpdaterError::MissingAsset);
    }
    match asset {
        Some(a) => Ok((a, script_at)),
        None => Err(UpdaterError::MissingAsset),
    }
}

/// Whether `s` has `p` at position `k`.
pub open spec fn occurs_at(s: Seq<char>, p: Seq<char>, k: int) -> bool {
    0 <= k && k + p.len() <= s.len() && s.subrange(k, k + p.len() as int) == p
}

/// `k` is the first position of `p` in `s`.
pub open spec fn first_occurrence(s: Seq<char>, p: Seq<char>, k: int) -> bool {
    occurs_at(s, p, k) && forall|j: int| 0 <= j < k ==> !occurs_at(s, p, j)
}

pub open spec fn sentence_end() -> Seq<char> {
    seq!['.', ' ']
}

/// The BizHawk version that a release's README names: the README starts with
/// the template's text before the version, and the version ends at the first
/// `". "` after it.
pub open spec fn readme_version(readme: Seq<char>, prefix: Seq<char>) -> Option<Seq<char>> {
    if !(prefix.len() <= readme.len() && readme.take(prefix.len() as int) == prefix) {
        None
    } else {
        let rest = readme.skip(prefix.len() as int);
        if exists|k: int| first_occurrence(rest, sentence_end(), k) {
            Some(rest.take(choose|k: int| first_occurrence(rest, sentence_end(), k)))
        } else {
            None
        }
    }
}

/// Reads the BizHawk version that a release requires from its README.
pub fn required_bizhawk_version(readme: &str, prefix: &str) -> (r: Result<SemverVersion, UpdaterError>)
    ensures
        match readme_version(readme@, prefix@) {
            None => r matches Err(UpdaterError::ReadmeFormat),
            Some(v) => match semver_parse(v) {
                Ok(version) => r matches Ok(x) && x == version,
                Err(e) => r matches Err(UpdaterError::SemVer(x)) && x == e,
            },
        },
{
    let s = chars_of(readme);
    let p = chars_of(prefix);
    let plen = p.len();
    if plen > s.len() {
        return Err(UpdaterError::ReadmeFormat);
    }
    let mut i: usize = 0;
    while i < plen
        invariant
            s@ == readme@,
            p@ == prefix@,
            plen == p@.len() <= s@.len(),
            i <= plen,
            forall|k: int| 0 <= k < i ==> s@[k] == p@[k],
        decreases plen - i,
    {
        if s[i] != p[i] {
            assert(s@.take(plen as int)[i as int] != p@[i as int]);
            return Err(UpdaterError::ReadmeFormat);
        }
        i = i + 1;
    }
    assert(s@.take(plen as int) =~= p@);
    let ghost rest = s@.skip(plen as int);
    let mut k: usize = plen;
    let mut found = false;
    while !found && s.len() - k >= 2
        invariant
            s@ == readme@,
            plen <= k <= s@.len(),
            rest == s@.skip(plen as int),
            forall|j: int| 0 <= j < k - plen ==> !occurs_at(rest, sentence_end(), j),
            found ==> k + 1 < s@.len() && s@[k as int] == '.' && s@[k + 1] == ' ',
        decreases (s.len() - k) * 2 + if found {
            0int
        } else {
            1int
        },
    {
        if s[k] == '.' && s[k + 1] == ' ' {
            found = true;
        } else {
            assert(!occurs_at(rest, sentence_end(), k - plen)) by {
                if occurs_at(rest, sentence_end(), k - plen) {
                    assert(rest.subrange(k - plen, k - plen + 2)[0] == s@[k as int]);
                    assert(rest.subrange(k - plen, k - plen + 2)[1] == s@[k + 1]);
                }
            }
            k = k + 1;
        }
    }
    if !found {
        assert(forall|j: int| 0 <= j ==> !occurs_at(rest, sentence_end(), j)) by {
            assert forall|j: int| 0 <= j implies !occurs_at(rest, sentence_end(), j) by {
                if j >= k - plen {
                    assert(j + 2 > rest.len());
                }
            }
        }
        return Err(UpdaterError::ReadmeFormat);
    }
    let ghost at = k - plen;
    assert(rest.subrange(at, at + 2) =~= sentence_end());
    assert(first_occurrence(rest, sentence_end(), at));
    assert(forall|j: int| first_occurrence(rest, sentence_end(), j) ==> j == at) by {
        assert forall|j: int| first_occurrence(rest, sentence_end(), j) implies j == at by {
            if j < at {
                assert(!occurs_at(rest, sentence_end(), j));
            } else if j > at {
                assert(!occurs_at(rest, sentence_end(), at));
            }
        }
    }
    let mut version = String::new();
    let mut m: usize = plen;
    while m < k
        invariant
            plen <= m <= k <= s@.len(),
            version@ == s@.subrange(plen as int, m as int),
        decreases k - m,
    {
        push_char(&mut version, s[m]);
        m = m + 1;
        assert(version@ =~= s@.subrange(plen as int, m as int));
    }
    assert(version@ =~= rest.take(at));
    match parse_semver(version.as_str()) {
        Ok(v) => Ok(v),
        Err(e) => Err(UpdaterError::SemVer(e)),
    }
}

/// What the updater does once it knows the BizHawk version a release needs.
#[derive(Clone, Copy, Debug, PartialEq, Eq, Structural)]
pub enum BizHawkStep {
    /// The installed BizHawk is older: ask whether to update it.
    AskUpdate,
    /// The installed BizHawk is the one needed: start it.
    Launch,
}

/// An older BizHawk asks for an update, the same one is launched, a newer one
/// is an error.
pub fn bizhawk_step(local: &SemverVersion, required: &SemverVersion) -> (r: Result<BizHawkStep, UpdaterError>)
    ensures
        match semver_order(*local, *required) {
            VersionOrder::Older => r matches Ok(BizHawkStep::AskUpdate),
            VersionOrder::Same => r matches Ok(BizHawkStep::Launch),
            VersionOrder::Newer => r matches Err(UpdaterError::BizHawkVersionRegression),
        },
{
    match compare_semver(local, required) {
        VersionOrder::Older => Ok(BizHawkStep::AskUpdate),
        VersionOrder::Same => Ok(BizHawkStep::Launch),
        VersionOrder::Newer => Err(UpdaterError::BizHawkVersionRegression),
    }
}

/// `s` with every trailing `p` removed, as `str::trim_end_matches` does.
pub open spec fn trim_end_all(s: Seq<char>, p: Seq<char>) -> Seq<char>
    decreases s.len(),
{
    if p.len() > 0 && p.len() <= s.len() && s.skip(s.len() - p.len()) == p {
        trim_end_all(s.take(s.len() - p.len()), p)
    } else {
        s
    }
}

pub open spec fn dot_zero() -> Seq<char> {
    seq!['.', '0']
}

/// The tag of the BizHawk release for a version: the version without its
/// trailing `.0`s (`2.10.0` is tagged `2.10`).
pub fn bizhawk_tag(required: &SemverVersion) -> (r: String)
    ensures
        r@ == trim_end_all(semver_text(*required), dot_zero()),
{
    let text = semver_to_string(required);
    let s = chars_of(text.as_str());
    let mut end: usize = s.len();
    assert(s@.take(s@.len() as int) =~= s@);
    while end >= 2 && s[end - 2] == '.' && s[end - 1] == '0'
        invariant
            end <= s@.len(),
            trim_end_all(s@, dot_zero()) == trim_end_all(s@.take(end as int), dot_zero()),
        decreases end,
    {
        let ghost t = s@.take(end as int);
        assert(t.skip(t.len() - 2) =~= dot_zero());
        assert(t.take(t.len() - 2) =~= s@.take(end - 2));
        end = end - 2;
    }
    let ghost t = s@.take(end as int);
    assert(trim_end_all(t, dot_zero()) == t) by {
        if 2 <= t.len() && t.skip(t.len() - 2) == dot_zero() {
            assert(t.skip(t.len() - 2)[0] == s@[end - 2]);
            assert(t.skip(t.len() - 2)[1] == s@[end - 1]);
        }
    }
    assert(s@.take(s@.len() as int) =~= s@);
    let mut out = String::new();
    let mut i: usize = 0;
    while i < end
        invariant
            end <= s@.len(),
            i <= end,
            out@ == s@.take(i as int),
        decreases end - i,
    {
        push_char(&mut out, s[i]);
        i = i + 1;
        assert(out@ =~= s@.take(i as int));
    }
    out
}

/// The end of the name of the BizHawk download for `os`.
pub open spec fn platform_suffix(os: TargetOs) -> Seq<char> {
    if os == TargetOs::Linux {
        "-linux-x64.tar.gz"@
    } else {
        "-win-x64.zip"@
    }
}

pub fn bizhawk_platform_suffix(os: TargetOs) -> (r: &'static str)
    requires
        is_desktop(os),
    ensures
        r@ == platform_suffix(os),
{
    if os == TargetOs::Linux {
        "-linux-x64.tar.gz"
    } else {
        "-win-x64.zip"
    }
}

pub open spec fn ends_with(s: Seq<char>, suffix: Seq<char>) -> bool {
    suffix.len() <= s.len() && s.skip(s.len() - suffix.len()) == suffix
}

/// How many of the first `n` names end with `suffix`.
pub open spec fn count_ending(names: Seq<Seq<char>>, suffix: Seq<char>, n: int) -> nat
    decreases n,
{
    if n <= 0 {
        0
    } else {
        count_ending(names, suffix, n - 1) + if ends_with(names[n - 1], suffix) {
            1nat
        } else {
            0nat
        }
    }
}

/// Whether `s` ends with `suffix`.
fn text_ends_with(s: &str, suffix: &str) -> (r: bool)
    ensures
        r == ends_with(s@, suffix@),
{
    let x = chars_of(s);
    let y = chars_of(suffix);
    if y.len() > x.len() {
        return false;
    }
    let off = x.len() - y.len();
    let xlen = x.len();
    let mut i: usize = 0;
    while i < y.len()
        invariant
            xlen == x@.len(),
            x@ == s@,
            y@ == suffix@,
            off == x@.len() - y@.len(),
            i <= y@.len(),
            forall|k: int| 0 <= k < i ==> x@[off + k] == y@[k],
        decreases y.len() - i,
    {
        if x[off + i] != y[i] {
            assert(x@.skip(off as int)[i as int] != y@[i as int]);
            return false;
        }
        i = i + 1;
    }
    assert(x@.skip(off as int) =~= y@);
    true
}

/// The BizHawk download for this platform: the one asset whose name ends with
/// the platform's suffix; none, or more than one, is `MissingAsset`.
pub fn single_asset_with_suffix(assets: &Vec<ReleaseAsset>, suffix: &str) -> (r: Result<usize, UpdaterError>)
    ensures
        count_ending(asset_names(assets@), suffix@, assets@.len() as int) == 1 ==> (r matches Ok(i)
            && i < assets@.len() && ends_with(assets@[i as int].name@, suffix@)),
        count_ending(asset_names(assets@), suffix@, assets@.len() as int) != 1 ==> r matches Err(
            UpdaterError::MissingAsset,
        ),
{
    let ghost names = asset_names(assets@);
    let mut found: Option<usize> = None;
    let mut count: usize = 0;
    let mut i: usize = 0;
    while i < assets.len()
        invariant
            names == asset_names(assets@),
            i <= assets@.len(),
            count == count_ending(names, suffix@, i as int),
            count <= i,
            count == 0 <==> found is None,
            found matches Some(k) ==> k < i && ends_with(names[k as int], suffix@),
        decreases assets.len() - i,
    {
        let name = assets[i].name.as_str();
        assert(name@ == names[i as int]);
        if text_ends_with(name, suffix) {
            count = count + 1;
            found = Some(i);
        }
        i = i + 1;
    }
    if count == 1 {
        match found {
            Some(k) => Ok(k),
            None => Err(UpdaterError::MissingAsset),
        }
    } else {
        Err(UpdaterError::MissingAsset)
    }
}

/// Where a file of the BizHawk update archive goes.
#[derive(Clone, Copy, Debug, PartialEq, Eq, Structural)]
pub enum ZipEntryTarget {
    /// `README.txt`: read for the BizHawk version the update needs.
    Readme,
    /// `OotrMultiworld.dll`: the BizHawk tool, into `ExternalTools`.
    Tool,
    /// The native library: `libmultiworld.so` into `dll` on Linux,
    /// `multiworld.dll` into `ExternalTools` on Windows.
    NativeLibrary,
}

/// What becomes of the file `name` of the BizHawk update archive on `os`;
/// any other file makes the update fail.
pub open spec fn zip_entry_target_spec(name: Seq<char>, os: TargetOs) -> Result<ZipEntryTarget, UpdaterError> {
    if name == "README.txt"@ {
        Ok(ZipEntryTarget::Readme)
    } else if name == "OotrMultiworld.dll"@ {
        Ok(ZipEntryTarget::Tool)
    } else if os == TargetOs::Linux && name == "libmultiworld.so"@ {
        Ok(ZipEntryTarget::NativeLibrary)
    } else if os == TargetOs::Windows && name == "multiworld.dll"@ {
        Ok(ZipEntryTarget::NativeLibrary)
    } else {
        Err(UpdaterError::UnexpectedZipEntry)
    }
}

/// What becomes of a file of the BizHawk update archive.
pub fn zip_entry_target(name: &str, os: TargetOs) -> (r: Result<ZipEntryTarget, UpdaterError>)
    ensures
        match zip_entry_target_spec(name@, os) {
            Ok(t) => r == Ok::<ZipEntryTarget, UpdaterError>(t),
            Err(_) => r matches Err(UpdaterError::UnexpectedZipEntry),
        },
{
    if same_text(name, "README.txt") {
        Ok(ZipEntryTarget::Readme)
    } else if same_text(name, "OotrMultiworld.dll") {
        Ok(ZipEntryTarget::Tool)
    } else if os == TargetOs::Linux && same_text(name, "libmultiworld.so") {
        Ok(ZipEntryTarget::NativeLibrary)
    } else if os == TargetOs::Windows && same_text(name, "multiworld.dll") {
        Ok(ZipEntryTarget::NativeLibrary)
    } else {
        Err(UpdaterError::UnexpectedZipEntry)
    }
}

/// The BizHawk version the update needs, once the whole archive is read:
/// the one its README named, or `MissingReadme` if it had none.
pub fn archive_bizhawk_version(found: Option<SemverVersion>) -> (r: Result<SemverVersion, UpdaterError>)
    ensures
        match found {
            Some(v) => r matches Ok(x) && x == v,
            None => r matches Err(UpdaterError::MissingReadme),
        },
{
    match found {
        Some(v) => Ok(v),
        None => Err(UpdaterError::MissingReadme),
    }
}

/// The first line of the updater's bug report.
pub open spec fn update_report_heading(version: Seq<char>, debug: bool) -> Seq<char> {
    "error while trying to update Mido's House Multiworld from version "@ + version + (if debug {
        " (debug)"@
    } else {
        ""@
    }) + ":"@
}

/// The updater's bug report on its error (`display` and `debug_text` are the
/// error's message and debug form).
pub fn update_error_report(version: &str, debug: bool, display: &str, debug_text: &str) -> (r: String)
    ensures
        r@ == error_report_text(update_report_heading(version@, debug), display@, debug_text@),
{
    let mut heading = String::new();
    push_str(&mut heading, "error while trying to update Mido's House Multiworld from version ");
    push_str(&mut heading, version);
    if debug {
        push_str(&mut heading, " (debug)");
    } else {
        push_str(&mut heading, "");
    }
    push_str(&mut heading, ":");
    assert(heading@ =~= update_report_heading(version@, debug));
    error_report(heading.as_str(), display, debug_text)
}

} // verus!
