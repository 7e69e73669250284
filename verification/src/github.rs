//! GitHub repositories and releases: the addresses of the GitHub API calls the
//! app and its release tools make, and what they read from the answers.
use vstd::prelude::*;
use crate::text::{chars_of, decimal, push_char, push_decimal, push_str};
use semver::Version as SemverVersion;

verus! {

#[verifier::external_type_specification]
#[verifier::external_body]
pub struct ExSemverVersion(SemverVersion);

#[verifier::external_type_specification]
#[verifier::external_body]
pub struct ExSemverError(semver::Error);

/// What the `FromStr` impl of `semver::Version` gives for a text.
pub uninterp spec fn semver_parse(text: Seq<char>) -> Result<SemverVersion, semver::Error>;

/// `semver::Version::from_str` (`str::parse`): reads a SemVer version. Its
/// result is taken to depend on the text alone; nothing more is said of it.
#[verifier::external_body]
pub(crate) fn parse_semver(text: &str) -> (r: Result<SemverVersion, semver::Error>)
    ensures
        r == semver_parse(text@),
{
    text.parse()
}

/// A label of a GitHub issue.
#[derive(Clone, Debug)]
pub struct Label {
    pub name: String,
}

/// A GitHub issue.
#[derive(Clone, Debug)]
pub struct Issue {
    pub number: u64,
    pub labels: Vec<Label>,
}

/// A file attached to a GitHub release.
#[derive(Debug)]
pub struct ReleaseAsset {
    pub name: String,
    pub browser_download_url: url::Url,
}

/// A GitHub release.
#[derive(Debug)]
pub struct Release {
    pub assets: Vec<ReleaseAsset>,
    pub id: u64,
    /// The release's tag: `v` and the version.
    pub tag_name: String,
    /// The address for uploading assets, a URI template.
    pub upload_url: String,
}

/// A GitHub repository.
#[derive(Clone, Debug)]
pub struct Repo {
    /// The GitHub user or organization who owns this repo.
    user: String,
    /// The name of the repo.
    name: String,
}

impl View for Repo {
    type V = (Seq<char>, Seq<char>);

    closed spec fn view(&self) -> (Seq<char>, Seq<char>) {
        (self.user@, self.name@)
    }
}

/// The address of the GitHub API for the repo: `https://api.github.com/repos/{user}/{name}`.
pub open spec fn repo_api(repo: (Seq<char>, Seq<char>)) -> Seq<char> {
    "https://api.github.com/repos/"@ + repo.0 + "/"@ + repo.1
}

impl Repo {
    pub fn new(user: &str, name: &str) -> (r: Repo)
        ensures
            r@ == (user@, name@),
    {
        let mut u = String::new();
        push_str(&mut u, user);
        let mut n = String::new();
        push_str(&mut n, name);
        assert(u@ =~= user@);
        assert(n@ =~= name@);
        Repo { user: u, name: n }
    }

    /// The repo's API address followed by `path`.
    fn api_url(&self, path: &str) -> (r: String)
        ensures
            r@ == repo_api(self@) + path@,
    {
        let mut s = String::new();
        push_str(&mut s, "https://api.github.com/repos/");
        push_str(&mut s, self.user.as_str());
        push_str(&mut s, "/");
        push_str(&mut s, self.name.as_str());
        push_str(&mut s, path);
        assert(s@ =~= repo_api(self@) + path@);
        s
    }

    /// Where to ask for the latest release.
    pub fn latest_release_url(&self) -> (r: String)
        ensures
            r@ == repo_api(self@) + "/releases/latest"@,
    {
        self.api_url("/releases/latest")
    }

    /// Where to ask for the release with tag `tag`.
    pub fn release_by_tag_url(&self, tag: &str) -> (r: String)
        ensures
            r@ == repo_api(self@) + "/releases/tags/"@ + tag@,
    {
        let mut s = self.api_url("/releases/tags/");
        push_str(&mut s, tag);
        s
    }

    /// Where to create a release.
    pub fn releases_url(&self) -> (r: String)
        ensures
            r@ == repo_api(self@) + "/releases"@,
    {
        self.api_url("/releases")
    }

    /// Where to edit (publish) `release`.
    pub fn release_url(&self, release: &Release) -> (r: String)
        ensures
            r@ == repo_api(self@) + "/releases/"@ + decimal(release.id as nat),
    {
        let mut s = self.api_url("/releases/");
        push_decimal(&mut s, release.id);
        s
    }

    /// Where to list the repo's issues.
    pub fn issues_url(&self) -> (r: String)
        ensures
            r@ == repo_api(self@) + "/issues"@,
    {
        self.api_url("/issues")
    }

    /// Where to edit `issue`.
    pub fn issue_url(&self, issue: &Issue) -> (r: String)
        ensures
            r@ == repo_api(self@) + "/issues/"@ + decimal(issue.number as nat),
    {
        let mut s = self.api_url("/issues/");
        push_decimal(&mut s, issue.number);
        s
    }
}

/// `s` with every occurrence of `p` removed, left to right, as `str::replace`
/// with an empty replacement does for a non-empty pattern.
pub open spec fn remove_all(s: Seq<char>, p: Seq<char>) -> Seq<char>
    decreases s.len(),
{
    if p.len() == 0 || s.len() < p.len() {
        s
    } else if s.take(p.len() as int) == p {
        remove_all(s.skip(p.len() as int), p)
    } else {
        seq![s[0]] + remove_all(s.skip(1), p)
    }
}

pub open spec fn upload_template() -> Seq<char> {
    "{?name,label}"@
}

/// Whether `v[at..]` starts with `w`.
fn starts_with_at(v: &Vec<char>, at: usize, w: &Vec<char>) -> (r: bool)
    requires
        at <= v@.len(),
    ensures
        r == (w@.len() <= v@.len() - at && v@.skip(at as int).take(w@.len() as int) == w@),
{
    if w.len() > v.len() - at {
        return false;
    }
    let vlen = v.len();
    let mut k: usize = 0;
    while k < w.len()
        invariant
            vlen == v@.len(),
            at <= v@.len(),
            w@.len() <= v@.len() - at,
            k <= w@.len(),
            forall|m: int| 0 <= m < k ==> v@[at + m] == w@[m],
        decreases w.len() - k,
    {
        assert(at + k < vlen);
        if v[at + k] != w[k] {
            assert(v@.skip(at as int).take(w@.len() as int)[k as int] != w@[k as int]);
            return false;
        }
        k = k + 1;
    }
    assert(v@.skip(at as int).take(w@.len() as int) =~= w@);
    true
}

impl Release {
    /// The release's version: its tag without the leading `v`. The tag starts
    /// with a one-byte (ASCII) character.
    pub fn version(&self) -> (r: Result<SemverVersion, semver::Error>)
        requires
            self.tag_name@.len() > 0,
            (self.tag_name@[0] as u32) < 0x80,
        ensures
            r == semver_parse(self.tag_name@.skip(1)),
    {
        let cs = chars_of(self.tag_name.as_str());
        let mut rest = String::new();
        let mut i: usize = 1;
        while i < cs.len()
            invariant
                1 <= i <= cs@.len(),
                rest@ == cs@.subrange(1, i as int),
            decreases cs.len() - i,
        {
            push_char(&mut rest, cs[i]);
            i = i + 1;
            assert(rest@ =~= cs@.subrange(1, i as int));
        }
        assert(rest@ =~= self.tag_name@.skip(1));
        parse_semver(rest.as_str())
    }

    /// The address to upload assets to: the upload URL without its
    /// `{?name,label}` template.
    pub fn upload_target(&self) -> (r: String)
        ensures
            r@ == remove_all(self.upload_url@, upload_template()),
    {
        let s = chars_of(self.upload_url.as_str());
        let p = chars_of("{?name,label}");
        let ghost pat = upload_template();
        assert(p@ == pat);
        assert(pat.len() == 13) by {
            reveal_strlit("{?name,label}");
        }
        let mut out = String::new();
        let mut i: usize = 0;
        assert(s@.skip(0) =~= s@);
        assert(out@ + remove_all(s@.skip(0), pat) =~= remove_all(s@, pat));
        while i < s.len()
            invariant
                i <= s@.len(),
                p@ == pat,
                pat.len() == 13,
                s@ == self.upload_url@,
                out@ + remove_all(s@.skip(i as int), pat) == remove_all(s@, pat),
            decreases s.len() - i,
        {
            let ghost rest = s@.skip(i as int);
            if starts_with_at(&s, i, &p) {
                assert(rest.skip(13) =~= s@.skip(i + 13));
                i = i + 13;
            } else {
                let ghost before = out@;
                push_char(&mut out, s[i]);
                proof {
                    if rest.len() >= 13 {
                        assert(rest.skip(1) =~= s@.skip(i + 1));
                        assert(before + remove_all(rest, pat) == before + (seq![s@[i as int]]
                            + remove_all(s@.skip(i + 1), pat)));
                        assert(before + (seq![s@[i as int]] + remove_all(s@.skip(i + 1), pat))
                            =~= out@ + remove_all(s@.skip(i + 1), pat));
                    } else {
                        assert(remove_all(rest, pat) == rest);
                        assert(s@.skip(i + 1).len() < 13);
                        assert(remove_all(s@.skip(i + 1), pat) == s@.skip(i + 1));
                        assert(before + rest =~= out@ + s@.skip(i + 1));
                    }
                }
                i = i + 1;
            }
        }
        assert(s@.skip(i as int) =~= Seq::<char>::empty());
        assert(out@ + Seq::<char>::empty() =~= out@);
        out
    }
}

} // verus!
