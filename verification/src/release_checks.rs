//! The checks the release tool makes before it builds a release: the version
//! being released is newer than the latest release, the bundled BizHawk is the
//! latest one, and the Project64 script speaks the app's protocol version.
use vstd::prelude::*;
use semver::Version as SemverVersion;
use crate::dotted::{ranges_match, split_on, split_ranges};
use crate::frontend::PROTOCOL_VERSION;
use crate::text::{IntErrorKind, ParseIntError, all_digits, chars_of, is_ascii_digit, parse_unsigned, parse_unsigned_range};
use crate::github::Issue;
use crate::updater::{VersionOrder, compare_semver, same_text, semver_order};

verus! {

/// Why a release cannot be made.
#[derive(Clone, Copy, Debug, PartialEq, Eq, Structural)]
pub enum ReleaseCheckError {
    /// The version being released is older than the latest release.
    VersionRegression,
    /// The version being released is the latest release's.
    SameVersion,
    /// A newer BizHawk has been released than the one bundled.
    BizHawkOutdated,
    /// The bundled BizHawk is newer than the latest BizHawk release.
    BizHawkVersionRegression,
    /// The Project64 script names no protocol version.
    MissingPj64ProtocolVersion,
    /// The Project64 script speaks another protocol version.
    WrongPj64ProtocolVersion(u8),
    /// The protocol version that the script names is not a number that fits in a byte.
    ParseInt(ParseIntError),
}

/// The version being released must be newer than the latest release (if any);
/// only a release of the server alone may have the same version.
pub fn check_release_version(local: &SemverVersion, latest: Option<&SemverVersion>, server_only: bool) -> (r:
    Result<(), ReleaseCheckError>)
    ensures
        match latest {
            None => r is Ok,
            Some(l) => match semver_order(*local, *l) {
                VersionOrder::Older => r == Err::<(), ReleaseCheckError>(ReleaseCheckError::VersionRegression),
                VersionOrder::Same => if server_only {
                    r is Ok
                } else {
                    r == Err::<(), ReleaseCheckError>(ReleaseCheckError::SameVersion)
                },
                VersionOrder::Newer => r is Ok,
            },
        },
{
    match latest {
        None => Ok(()),
        Some(l) => match compare_semver(local, l) {
            VersionOrder::Older => Err(ReleaseCheckError::VersionRegression),
            VersionOrder::Same => if server_only {
                Ok(())
            } else {
                Err(ReleaseCheckError::SameVersion)
            },
            VersionOrder::Newer => Ok(()),
        },
    }
}

/// The bundled BizHawk must be the latest BizHawk release.
pub fn check_bizhawk_version(local: &SemverVersion, latest: &SemverVersion) -> (r: Result<(), ReleaseCheckError>)
    ensures
        match semver_order(*local, *latest) {
            VersionOrder::Older => r == Err::<(), ReleaseCheckError>(ReleaseCheckError::BizHawkOutdated),
            VersionOrder::Same => r is Ok,
            VersionOrder::Newer => r == Err::<(), ReleaseCheckError>(
                ReleaseCheckError::BizHawkVersionRegression,
            ),
        },
{
    match compare_semver(local, latest) {
        VersionOrder::Older => Err(ReleaseCheckError::BizHawkOutdated),
        VersionOrder::Same => Ok(()),
        VersionOrder::Newer => Err(ReleaseCheckError::BizHawkVersionRegression),
    }
}

/// `l` without one trailing carriage return.
pub open spec fn strip_cr(l: Seq<char>) -> Seq<char> {
    if l.len() > 0 && l.last() == '\r' {
        l.drop_last()
    } else {
        l
    }
}

/// The lines of a text, as `BufRead::lines` reads them: split at each line
/// feed, a carriage return before a line feed dropped, and no empty line after
/// a final line feed.
pub open spec fn lines_of(s: Seq<char>) -> Seq<Seq<char>> {
    let p = split_on(s, '\n');
    let n = p.len() - 1;
    let body = Seq::new(n as nat, |i: int| strip_cr(p[i]));
    if p[n].len() > 0 {
        body.push(p[n])
    } else {
        body
    }
}

/// What the line naming the protocol version starts with.
pub open spec fn proto_prefix() -> Seq<char> {
    "const MW_FRONTEND_PROTO_VERSION = "@
}

/// The digits of a line `const MW_FRONTEND_PROTO_VERSION = <digits>;`.
pub open spec fn version_digits(line: Seq<char>) -> Option<Seq<char>> {
    let n = proto_prefix().len();
    if line.len() >= n + 2 && line.take(n as int) == proto_prefix() && line.last() == ';' && all_digits(
        line.subrange(n as int, line.len() - 1),
    ) {
        Some(line.subrange(n as int, line.len() - 1))
    } else {
        None
    }
}

/// The digits of the first line that names the protocol version.
pub open spec fn first_version_digits(lines: Seq<Seq<char>>) -> Option<Seq<char>>
    decreases lines.len(),
{
    if lines.len() == 0 {
        None
    } else {
        match version_digits(lines[0]) {
            Some(d) => Some(d),
            None => first_version_digits(lines.drop_first()),
        }
    }
}

/// The Project64 script must name the app's protocol version: on its first
/// line of the form `const MW_FRONTEND_PROTO_VERSION = <digits>;`.
pub open spec fn pj64_protocol_check(script: Seq<char>) -> Result<(), ReleaseCheckError> {
    match first_version_digits(lines_of(script)) {
        None => Err(ReleaseCheckError::MissingPj64ProtocolVersion),
        Some(d) => match parse_unsigned(d, 255) {
            Err(k) => Err(ReleaseCheckError::ParseInt(ParseIntError { kind: k })),
            Ok(v) => if v == PROTOCOL_VERSION {
                Ok(())
            } else {
                Err(ReleaseCheckError::WrongPj64ProtocolVersion(v as u8))
            },
        },
    }
}

proof fn lemma_first_version_digits(lines: Seq<Seq<char>>, k: int)
    requires
        0 <= k <= lines.len(),
        forall|j: int| 0 <= j < k ==> version_digits(#[trigger] lines[j]) is None,
    ensures
        first_version_digits(lines) == first_version_digits(lines.skip(k)),
    decreases k,
{
    if k > 0 {
        assert(version_digits(lines[0]) is None);
        let rest = lines.drop_first();
        assert forall|j: int| 0 <= j < k - 1 implies version_digits(#[trigger] rest[j]) is None by {
            assert(rest[j] == lines[j + 1]);
        }
        lemma_first_version_digits(rest, k - 1);
        assert(rest.skip(k - 1) =~= lines.skip(k));
    } else {
        assert(lines.skip(0) =~= lines);
    }
}

/// The digits of the line `v[start..end]`, as a range, if it names the protocol version.
fn line_version_digits(v: &Vec<char>, start: usize, end: usize, prefix: &Vec<char>) -> (r: Option<(usize, usize)>)
    requires
        start <= end <= v@.len(),
        prefix@ == proto_prefix(),
    ensures
        match version_digits(v@.subrange(start as int, end as int)) {
            Some(d) => r matches Some((a, b)) && start <= a <= b <= end && v@.subrange(a as int, b as int) == d,
            None => r is None,
        },
{
    let ghost line = v@.subrange(start as int, end as int);
    let n = prefix.len();
    if end - start < n || end - start - n < 2 || v[end - 1] != ';' {
        return None;
    }
    let mut i: usize = 0;
    while i < n
        invariant
            prefix@ == proto_prefix(),
            n == prefix@.len(),
            line == v@.subrange(start as int, end as int),
            start + n + 2 <= end <= v@.len(),
            i <= n,
            forall|k: int| 0 <= k < i ==> v@[start + k] == prefix@[k],
        decreases n - i,
    {
        if v[start + i] != prefix[i] {
            assert(line.take(n as int)[i as int] != proto_prefix()[i as int]);
            return None;
        }
        i = i + 1;
    }
    assert(line.take(n as int) =~= proto_prefix());
    let a = start + n;
    let b = end - 1;
    let mut j: usize = a;
    while j < b
        invariant
            start + n == a <= b < end <= v@.len(),
            n == proto_prefix().len(),
            line == v@.subrange(start as int, end as int),
            a <= j <= b,
            forall|k: int| a <= k < j ==> is_ascii_digit(v@[k]),
        decreases b - j,
    {
        if !('0' <= v[j] && v[j] <= '9') {
            assert(line.subrange(n as int, line.len() - 1)[j - a] == v@[j as int]);
            assert(!is_ascii_digit(line.subrange(n as int, line.len() - 1)[j - a]));
            return None;
        }
        j = j + 1;
    }
    assert(line.subrange(n as int, line.len() - 1) =~= v@.subrange(a as int, b as int));
    assert(line.last() == v@[end - 1]);
    Some((a, b))
}

/// What `lines_of` is, line by line, in terms of the pieces between line feeds.
proof fn lemma_lines_of(s: Seq<char>)
    ensures
        ({
            let p = split_on(s, '\n');
            let lines = lines_of(s);
            &&& p.len() >= 1
            &&& lines.len() == if p[p.len() - 1].len() > 0 { p.len() as int } else { p.len() - 1 }
            &&& forall|i: int| 0 <= i < p.len() - 1 ==> #[trigger] lines[i] == strip_cr(p[i])
            &&& p[p.len() - 1].len() > 0 ==> lines[p.len() - 1] == p[p.len() - 1]
        }),
{
    crate::dotted::lemma_split_on_nonempty(s, '\n');
}

/// Checks the protocol version that the Project64 script names.
pub fn check_pj64_protocol_version(script: &str) -> (r: Result<(), ReleaseCheckError>)
    ensures
        r == pj64_protocol_check(script@),
{
    let v = chars_of(script);
    let prefix = chars_of("const MW_FRONTEND_PROTO_VERSION = ");
    let parts = split_ranges(&v, '\n');
    let ghost p = split_on(v@, '\n');
    let ghost lines = lines_of(v@);
    proof {
        lemma_lines_of(v@);
    }
    let count = parts.len();
    let mut k: usize = 0;
    while k < count
        invariant
            count == parts@.len() == p.len() >= 1,
            p == split_on(v@, '\n'),
            lines == lines_of(v@),
            v@ == script@,
            prefix@ == proto_prefix(),
            ranges_match(v@, parts@, p, v@.len() as int),
            lines.len() == if p[p.len() - 1].len() > 0 { p.len() as int } else { p.len() - 1 },
            forall|i: int| 0 <= i < p.len() - 1 ==> #[trigger] lines[i] == strip_cr(p[i]),
            p[p.len() - 1].len() > 0 ==> lines[p.len() - 1] == p[p.len() - 1],
            k <= count,
            k <= lines.len(),
            forall|j: int| 0 <= j < k ==> version_digits(#[trigger] lines[j]) is None,
        ensures
            lines.len() <= k,
            forall|j: int| 0 <= j < k ==> version_digits(#[trigger] lines[j]) is None,
        decreases count - k,
    {
        let (start, end) = parts[k];
        let last = k + 1 == count;
        assert(start <= end <= v@.len() && v@.subrange(start as int, end as int) == p[k as int]);
        if last && start == end {
            assert(lines.len() == k);
            break;
        }
        let line_end = if !last && end > start && v[end - 1] == '\r' {
            end - 1
        } else {
            end
        };
        assert(k < lines.len());
        assert(lines[k as int] == v@.subrange(start as int, line_end as int)) by {
            if !last {
                assert(lines[k as int] == strip_cr(p[k as int]));
                if end > start && v@[end - 1] == '\r' {
                    assert(p[k as int].drop_last() =~= v@.subrange(start as int, line_end as int));
                }
            }
        }
        match line_version_digits(&v, start, line_end, &prefix) {
            Some((a, b)) => {
                proof {
                    lemma_first_version_digits(lines, k as int);
                    assert(lines.skip(k as int)[0] == lines[k as int]);
                }
                return match parse_unsigned_range(&v, a, b, 255) {
                    Err(e) => Err(ReleaseCheckError::ParseInt(e)),
                    Ok(x) => if x == PROTOCOL_VERSION as u64 {
                        Ok(())
                    } else {
                        Err(ReleaseCheckError::WrongPj64ProtocolVersion(x as u8))
                    },
                };
            },
            None => {},
        }
        k = k + 1;
    }
    proof {
        lemma_first_version_digits(lines, lines.len() as int);
        assert(lines.skip(lines.len() as int) =~= Seq::<Seq<char>>::empty());
    }
    Err(ReleaseCheckError::MissingPj64ProtocolVersion)
}

/// The label that marks an issue fixed in a release that is not out yet.
pub open spec fn pending_release_label() -> Seq<char> {
    "status: pending release"@
}

/// The label that marks an issue fixed in a published release.
pub open spec fn released_label() -> Seq<char> {
    "status: released"@
}

/// The names of `labels` in order, without the pending-release label, and the
/// released label after them.
pub open spec fn labels_after_release(labels: Seq<Seq<char>>) -> Seq<Seq<char>> {
    labels.filter(|l: Seq<char>| l != pending_release_label()).push(released_label())
}

/// The label names that an issue pending release gets once the release is published.
pub fn released_labels(issue: &Issue) -> (r: Vec<String>)
    ensures
        r@.map_values(|l: String| l@) == labels_after_release(issue.labels@.map_values(|l: crate::github::Label| l.name@)),
{
    let ghost names = issue.labels@.map_values(|l: crate::github::Label| l.name@);
    let mut r: Vec<String> = Vec::new();
    let mut i: usize = 0;
    while i < issue.labels.len()
        invariant
            i <= issue.labels@.len(),
            names == issue.labels@.map_values(|l: crate::github::Label| l.name@),
            r@.map_values(|l: String| l@) == names.take(i as int).filter(
                |l: Seq<char>| l != pending_release_label(),
            ),
        decreases issue.labels.len() - i,
    {
        let name = &issue.labels[i].name;
        let ghost before = r@;
        proof {
            reveal(Seq::filter);
            assert(names.take(i + 1).drop_last() =~= names.take(i as int));
            assert(names.take(i + 1).last() == name@);
        }
        if !same_text(name.as_str(), "status: pending release") {
            r.push(name.clone());
            assert(r@.map_values(|l: String| l@) =~= before.map_values(|l: String| l@).push(name@));
        }
        i = i + 1;
    }
    assert(names.take(i as int) =~= names);
    let ghost before = r@;
    r.push(String::from_str("status: released"));
    assert(r@.map_values(|l: String| l@) =~= before.map_values(|l: String| l@).push(released_label()));
    r
}

/// What the release tool is asked to release.
#[derive(Clone, Copy, Debug, PartialEq, Eq, Structural)]
pub enum ReleaseCommand {
    /// Update both the server and the client.
    Both { force: bool, no_publish: bool, no_wait: bool },
    /// Only update the client.
    Client { no_publish: bool, no_wait: bool },
    /// Only update the server.
    Server { force: bool },
}

/// The release tool's options.
#[derive(Clone, Copy, Debug, PartialEq, Eq, Structural)]
pub struct ReleaseArgs {
    /// Don't wait for the server to be inactive before restarting it.
    pub force: bool,
    /// Create the GitHub release as a draft.
    pub no_publish: bool,
    /// Leave the server alone.
    pub no_server: bool,
    /// Don't pass `--wait` to the release notes editor.
    pub no_wait: bool,
    /// Release the server alone.
    pub server_only: bool,
}

/// The options each command sets: a client release leaves the server alone and
/// forces nothing; a server release is published and does not wait for the
/// notes editor.
pub open spec fn release_args_spec(command: ReleaseCommand) -> ReleaseArgs {
    match command {
        ReleaseCommand::Both { force, no_publish, no_wait } => ReleaseArgs {
            force,
            no_publish,
            no_server: false,
            no_wait,
            server_only: false,
        },
        ReleaseCommand::Client { no_publish, no_wait } => ReleaseArgs {
            force: false,
            no_publish,
            no_server: true,
            no_wait,
            server_only: false,
        },
        ReleaseCommand::Server { force } => ReleaseArgs {
            force,
            no_publish: false,
            no_server: false,
            no_wait: false,
            server_only: true,
        },
    }
}

impl From<ReleaseCommand> for ReleaseArgs {
    fn from(command: ReleaseCommand) -> (r: ReleaseArgs) {
        match command {
            ReleaseCommand::Both { force, no_publish, no_wait } => ReleaseArgs {
                force,
                no_publish,
                no_server: false,
                no_wait,
                server_only: false,
            },
            ReleaseCommand::Client { no_publish, no_wait } => ReleaseArgs {
                force: false,
                no_publish,
                no_server: true,
                no_wait,
                server_only: false,
            },
            ReleaseCommand::Server { force } => ReleaseArgs {
                force,
                no_publish: false,
                no_server: false,
                no_wait: false,
                server_only: true,
            },
        }
    }
}

impl vstd::std_specs::convert::FromSpecImpl<ReleaseCommand> for ReleaseArgs {
    open spec fn obeys_from_spec() -> bool {
        true
    }

    open spec fn from_spec(v: ReleaseCommand) -> ReleaseArgs {
        release_args_spec(v)
    }
}

/// A release never both leaves the server alone and releases it alone, never
/// forces a server restart that it does not make, and a server-only release is
/// always published.
pub proof fn lemma_release_args_consistent(command: ReleaseCommand)
    ensures
        !(release_args_spec(command).no_server && release_args_spec(command).server_only),
        release_args_spec(command).no_server ==> !release_args_spec(command).force,
        release_args_spec(command).server_only ==> !release_args_spec(command).no_publish,
{
}

} // verus!
