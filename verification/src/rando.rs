//! Randomizer version numbers, as players write them (`8.1.0 f.LUM`,
//! `8.2.52 Fenhl-1`, `8.2.7 R-1`), and the names derived from them.
use vstd::prelude::*;
use crate::text::{
    IntErrorKind, ParseIntError, all_digits, chars_of, decimal, is_ascii_digit, is_ascii_ws,
    lemma_decimal_facts, lemma_parse_decimal, lemma_words_of_word_then, lemma_words_single,
    lemma_words_skip_ws, parse_unsigned, parse_unsigned_range, push_char, push_chars,
    push_decimal, word_ranges, words,
};

verus! {

/// A branch of the randomizer.
#[derive(Clone, Copy, Debug, PartialEq, Eq, Structural)]
pub enum Branch {
    Dev,
    DevFenhl,
    DevR,
}

pub open spec fn github_username_spec(b: Branch) -> Seq<char> {
    match b {
        Branch::Dev => "TestRunnerSRL"@,
        Branch::DevFenhl => "fenhl"@,
        Branch::DevR => "Roman971"@,
    }
}

pub open spec fn web_name_spec(b: Branch) -> Seq<char> {
    match b {
        Branch::Dev => seq!['d', 'e', 'v'],
        Branch::DevFenhl => seq!['d', 'e', 'v', 'F', 'e', 'n', 'h', 'l'],
        Branch::DevR => seq!['d', 'e', 'v', 'R'],
    }
}

impl Branch {
    /// The GitHub user whose fork holds this branch.
    pub fn github_username(&self) -> (r: &'static str)
        ensures
            r@ == github_username_spec(*self),
    {
        match self {
            Branch::Dev => "TestRunnerSRL",
            Branch::DevFenhl => "fenhl",
            Branch::DevR => "Roman971",
        }
    }

    /// The name of this branch on the randomizer's web site.
    pub fn web_name_known_settings(&self) -> (r: String)
        ensures
            r@ == web_name_spec(*self),
    {
        let mut s = String::new();
        push_char(&mut s, 'd');
        push_char(&mut s, 'e');
        push_char(&mut s, 'v');
        match self {
            Branch::Dev => {},
            Branch::DevFenhl => {
                push_char(&mut s, 'F');
                push_char(&mut s, 'e');
                push_char(&mut s, 'n');
                push_char(&mut s, 'h');
                push_char(&mut s, 'l');
            },
            Branch::DevR => {
                push_char(&mut s, 'R');
            },
        }
        assert(s@ =~= web_name_spec(*self));
        s
    }
}

/// A `major.minor.patch` version number.
#[derive(Clone, Copy, Debug, PartialEq, Eq, Structural)]
pub struct BaseVersion {
    pub major: u64,
    pub minor: u64,
    pub patch: u64,
}

/// A randomizer version: a base version on a branch, and for the branches other
/// than the main development branch, a supplementary version number.
#[derive(Clone, Copy, Debug, PartialEq, Eq, Structural)]
pub struct Version {
    pub branch: Branch,
    pub base: BaseVersion,
    pub supplementary: Option<u8>,
}

/// Why a randomizer version could not be read.
#[derive(Clone, Copy, Debug, PartialEq, Eq, Structural)]
pub enum VersionParseError {
    ParseInt(ParseIntError),
    /// The base version is not three numbers separated by dots.
    Base,
    /// The branch is not supported.
    Branch,
    /// The version is empty or has more than two words.
    Words,
}

impl Version {
    /// A version of the main development branch.
    pub fn dev(major: u8, minor: u8, patch: u8) -> (r: Version)
        ensures
            r == (Version {
                branch: Branch::Dev,
                base: BaseVersion { major: major as u64, minor: minor as u64, patch: patch as u64 },
                supplementary: None,
            }),
    {
        Version {
            branch: Branch::Dev,
            base: BaseVersion { major: major as u64, minor: minor as u64, patch: patch as u64 },
            supplementary: None,
        }
    }

    /// A version of another branch.
    pub fn branch(branch: Branch, major: u8, minor: u8, patch: u8, supplementary: u8) -> (r: Version)
        ensures
            r == (Version {
                branch,
                base: BaseVersion { major: major as u64, minor: minor as u64, patch: patch as u64 },
                supplementary: Some(supplementary),
            }),
    {
        Version {
            base: BaseVersion { major: major as u64, minor: minor as u64, patch: patch as u64 },
            supplementary: Some(supplementary),
            branch,
        }
    }
}

/// A version as the parser builds it: the main development branch has no
/// supplementary number, the other branches have one.
pub open spec fn version_wf(v: Version) -> bool {
    (v.branch == Branch::Dev) == (v.supplementary is None)
}

/// `b[..i]`, `b[i + 1..j]` and `b[j + 1..]` are numbers and `b[i]`, `b[j]` dots.
pub open spec fn valid_base_split(b: Seq<char>, i: int, j: int) -> bool {
    &&& 0 < i
    &&& i + 1 < j
    &&& j + 1 < b.len()
    &&& b[i] == '.'
    &&& b[j] == '.'
    &&& all_digits(b.take(i))
    &&& all_digits(b.subrange(i + 1, j))
    &&& all_digits(b.skip(j + 1))
}

/// `b` matches `^([0-9]+)\.([0-9]+)\.([0-9]+)$`.
pub open spec fn base_matches(b: Seq<char>) -> bool {
    exists|i: int, j: int| #[trigger] valid_base_split(b, i, j)
}

/// Where the dots of a matching base version are.
pub open spec fn base_split(b: Seq<char>) -> (int, int) {
    choose|i: int, j: int| #[trigger] valid_base_split(b, i, j)
}

/// The three numbers of a matching base version, each read as a `u8`.
pub open spec fn base_numbers(b: Seq<char>) -> Result<(nat, nat, nat), IntErrorKind> {
    let (i, j) = base_split(b);
    match parse_unsigned(b.take(i), 255) {
        Err(e) => Err(e),
        Ok(major) => match parse_unsigned(b.subrange(i + 1, j), 255) {
            Err(e) => Err(e),
            Ok(minor) => match parse_unsigned(b.skip(j + 1), 255) {
                Err(e) => Err(e),
                Ok(patch) => Ok((major, minor, patch)),
            },
        },
    }
}

pub open spec fn f_lum() -> Seq<char> {
    seq!['f', '.', 'L', 'U', 'M']
}

pub open spec fn fenhl_prefix() -> Seq<char> {
    seq!['F', 'e', 'n', 'h', 'l', '-']
}

pub open spec fn r_prefix() -> Seq<char> {
    seq!['R', '-']
}

/// `e` is `prefix` followed by one or more digits.
pub open spec fn is_suffixed_number(e: Seq<char>, prefix: Seq<char>) -> bool {
    e.len() > prefix.len() && e.take(prefix.len() as int) == prefix && all_digits(
        e.skip(prefix.len() as int),
    )
}

pub open spec fn mk_version(branch: Branch, n: (nat, nat, nat), supplementary: Option<nat>) -> Version {
    Version {
        branch,
        base: BaseVersion { major: n.0 as u64, minor: n.1 as u64, patch: n.2 as u64 },
        supplementary: match supplementary {
            Some(s) => Some(s as u8),
            None => None,
        },
    }
}

pub open spec fn int_error(e: IntErrorKind) -> VersionParseError {
    VersionParseError::ParseInt(ParseIntError { kind: e })
}

/// A base version followed by a branch suffix.
pub open spec fn parse_with_branch(n: Result<(nat, nat, nat), IntErrorKind>, extra: Seq<char>) -> Result<
    Version,
    VersionParseError,
> {
    if extra == f_lum() {
        match n {
            Err(e) => Err(int_error(e)),
            Ok(n) => Ok(mk_version(Branch::Dev, n, None)),
        }
    } else if is_suffixed_number(extra, fenhl_prefix()) {
        match n {
            Err(e) => Err(int_error(e)),
            Ok(n) => match parse_unsigned(extra.skip(6), 255) {
                Err(e) => Err(int_error(e)),
                Ok(s) => Ok(mk_version(Branch::DevFenhl, n, Some(s))),
            },
        }
    } else if is_suffixed_number(extra, r_prefix()) {
        match n {
            Err(e) => Err(int_error(e)),
            Ok(n) => match parse_unsigned(extra.skip(2), 255) {
                Err(e) => Err(int_error(e)),
                Ok(s) => Ok(mk_version(Branch::DevR, n, Some(s))),
            },
        }
    } else {
        Err(VersionParseError::Branch)
    }
}

/// Reading a randomizer version: one word (a base version of the main
/// development branch), or a base version and a branch suffix (`f.LUM` for the
/// main development branch, `Fenhl-N` or `R-N`).
pub open spec fn parse_version_spec(s: Seq<char>) -> Result<Version, VersionParseError> {
    let w = words(s);
    if w.len() == 1 {
        if !base_matches(w[0]) {
            Err(VersionParseError::Base)
        } else {
            match base_numbers(w[0]) {
                Err(e) => Err(int_error(e)),
                Ok(n) => Ok(mk_version(Branch::Dev, n, None)),
            }
        }
    } else if w.len() == 2 {
        if !base_matches(w[0]) {
            Err(VersionParseError::Base)
        } else {
            parse_with_branch(base_numbers(w[0]), w[1])
        }
    } else {
        Err(VersionParseError::Words)
    }
}

/// How a base version is written.
pub open spec fn base_text(b: BaseVersion) -> Seq<char> {
    decimal(b.major as nat) + seq!['.'] + decimal(b.minor as nat) + seq!['.'] + decimal(
        b.patch as nat,
    )
}

/// How a version is written (its `Display` text).
pub open spec fn version_text(v: Version) -> Seq<char> {
    base_text(v.base) + seq![' '] + match v.branch {
        Branch::Dev => f_lum(),
        Branch::DevFenhl => fenhl_prefix() + decimal(v.supplementary->0 as nat),
        Branch::DevR => r_prefix() + decimal(v.supplementary->0 as nat),
    }
}

/// The name of the directory that holds a checkout of this version.
pub open spec fn dir_name_spec(v: Version) -> Seq<char> {
    seq!['r', 'a', 'n', 'd', 'o', '-'] + web_name_spec(v.branch) + seq!['-'] + base_text(v.base)
        + match v.supplementary {
        Some(s) => seq!['-'] + decimal(s as nat),
        None => Seq::empty(),
    }
}

/// Two valid splits of a base version are the same.
pub proof fn lemma_base_split_unique(b: Seq<char>, i: int, j: int, k: int, l: int)
    requires
        valid_base_split(b, i, j),
        valid_base_split(b, k, l),
    ensures
        i == k && j == l,
{
    if i < k {
        assert(is_ascii_digit(b.take(k)[i]));
    } else if k < i {
        assert(is_ascii_digit(b.take(i)[k]));
    }
    if j < l {
        assert(is_ascii_digit(b.subrange(k + 1, l)[j - k - 1]));
    } else if l < j {
        assert(is_ascii_digit(b.subrange(i + 1, j)[l - i - 1]));
    }
}

/// Decimal digits are not whitespace.
proof fn lemma_decimal_no_ws(n: nat)
    ensures
        forall|i: int| 0 <= i < decimal(n).len() ==> !is_ascii_ws(#[trigger] decimal(n)[i]),
        decimal(n).len() >= 1,
        all_digits(decimal(n)),
{
    lemma_decimal_facts(n);
    assert forall|i: int| 0 <= i < decimal(n).len() implies !is_ascii_ws(#[trigger] decimal(n)[i]) by {
        assert(is_ascii_digit(decimal(n)[i]));
    }
}

/// How a base version is written is read back as the same base version.
proof fn lemma_base_roundtrip(b: BaseVersion)
    requires
        b.major <= 255,
        b.minor <= 255,
        b.patch <= 255,
    ensures
        base_matches(base_text(b)),
        base_numbers(base_text(b)) == Ok::<(nat, nat, nat), IntErrorKind>(
            (b.major as nat, b.minor as nat, b.patch as nat),
        ),
        base_text(b).len() >= 1,
        forall|i: int| 0 <= i < base_text(b).len() ==> !is_ascii_ws(#[trigger] base_text(b)[i]),
{
    let d1 = decimal(b.major as nat);
    let d2 = decimal(b.minor as nat);
    let d3 = decimal(b.patch as nat);
    lemma_decimal_no_ws(b.major as nat);
    lemma_decimal_no_ws(b.minor as nat);
    lemma_decimal_no_ws(b.patch as nat);
    let t = base_text(b);
    let i = d1.len() as int;
    let j = i + 1 + d2.len();
    assert(t == d1 + seq!['.'] + d2 + seq!['.'] + d3);
    assert(t.take(i) =~= d1);
    assert(t.subrange(i + 1, j) =~= d2);
    assert(t.skip(j + 1) =~= d3);
    assert(t[i] == '.');
    assert(t[j] == '.');
    assert(valid_base_split(t, i, j));
    let (p, q) = base_split(t);
    lemma_base_split_unique(t, i, j, p, q);
    lemma_parse_decimal(b.major as nat, 255);
    lemma_parse_decimal(b.minor as nat, 255);
    lemma_parse_decimal(b.patch as nat, 255);
    assert forall|k: int| 0 <= k < t.len() implies !is_ascii_ws(#[trigger] t[k]) by {
        if k < i {
            assert(t[k] == d1[k]);
        } else if k == i || k == j {
        } else if k < j {
            assert(t[k] == d2[k - i - 1]);
        } else {
            assert(t[k] == d3[k - j - 1]);
        }
    }
}

/// The part of a version's text after the space.
pub open spec fn branch_suffix(v: Version) -> Seq<char> {
    match v.branch {
        Branch::Dev => f_lum(),
        Branch::DevFenhl => fenhl_prefix() + decimal(v.supplementary->0 as nat),
        Branch::DevR => r_prefix() + decimal(v.supplementary->0 as nat),
    }
}

/// Two words separated by a space.
proof fn lemma_two_words(b: Seq<char>, e: Seq<char>)
    requires
        b.len() >= 1,
        e.len() >= 1,
        forall|i: int| 0 <= i < b.len() ==> !is_ascii_ws(#[trigger] b[i]),
        forall|i: int| 0 <= i < e.len() ==> !is_ascii_ws(#[trigger] e[i]),
    ensures
        words(b + (seq![' '] + e)) == seq![b, e],
{
    lemma_words_of_word_then(b, seq![' '] + e);
    lemma_words_skip_ws(' ', e);
    lemma_words_single(e);
    assert(seq![b] + seq![e] =~= seq![b, e]);
}

/// A branch suffix is one word, read back as the version's branch.
proof fn lemma_suffix_roundtrip(v: Version)
    requires
        version_wf(v),
    ensures
        branch_suffix(v).len() >= 1,
        forall|i: int| 0 <= i < branch_suffix(v).len() ==> !is_ascii_ws(#[trigger] branch_suffix(v)[i]),
        parse_with_branch(
            Ok((v.base.major as nat, v.base.minor as nat, v.base.patch as nat)),
            branch_suffix(v),
        ) == Ok::<Version, VersionParseError>(v),
{
    let e = branch_suffix(v);
    match v.branch {
        Branch::Dev => {
            assert(e == f_lum());
        },
        Branch::DevFenhl => {
            let d = decimal(v.supplementary->0 as nat);
            lemma_decimal_no_ws(v.supplementary->0 as nat);
            lemma_parse_decimal(v.supplementary->0 as nat, 255);
            assert(e[0] != f_lum()[0]);
            assert(e.take(6) =~= fenhl_prefix());
            assert(e.skip(6) =~= d);
            assert forall|i: int| 0 <= i < e.len() implies !is_ascii_ws(#[trigger] e[i]) by {
                if i >= 6 {
                    assert(e[i] == d[i - 6]);
                }
            }
        },
        Branch::DevR => {
            let d = decimal(v.supplementary->0 as nat);
            lemma_decimal_no_ws(v.supplementary->0 as nat);
            lemma_parse_decimal(v.supplementary->0 as nat, 255);
            assert(e[0] != f_lum()[0]);
            if e.len() > 6 {
                assert(e.take(6)[0] != fenhl_prefix()[0]);
            }
            assert(e.take(2) =~= r_prefix());
            assert(e.skip(2) =~= d);
            assert forall|i: int| 0 <= i < e.len() implies !is_ascii_ws(#[trigger] e[i]) by {
                if i >= 2 {
                    assert(e[i] == d[i - 2]);
                }
            }
        },
    }
}

/// Writing a version and reading it back gives the same version, for every
/// version the parser can produce (base numbers that fit in a byte).
pub proof fn lemma_version_roundtrip(v: Version)
    requires
        version_wf(v),
        v.base.major <= 255,
        v.base.minor <= 255,
        v.base.patch <= 255,
    ensures
        parse_version_spec(version_text(v)) == Ok::<Version, VersionParseError>(v),
{
    let b = base_text(v.base);
    let e = branch_suffix(v);
    lemma_base_roundtrip(v.base);
    lemma_suffix_roundtrip(v);
    assert(version_text(v) =~= b + (seq![' '] + e));
    lemma_two_words(b, e);
}

/// The first position in `v[from..to]` that holds `c`.
fn find_char(v: &Vec<char>, from: usize, to: usize, c: char) -> (r: Option<usize>)
    requires
        from <= to <= v@.len(),
    ensures
        r matches Some(k) ==> from <= k < to && v@[k as int] == c && forall|m: int|
            from <= m < k ==> v@[m] != c,
        r is None ==> forall|m: int| from <= m < to ==> v@[m] != c,
{
    let mut k = from;
    while k < to
        invariant
            from <= k <= to <= v@.len(),
            forall|m: int| from <= m < k ==> v@[m] != c,
        decreases to - k,
    {
        if v[k] == c {
            return Some(k);
        }
        k = k + 1;
    }
    None
}

/// Whether `v[from..to]` is made of digits.
fn digits_only(v: &Vec<char>, from: usize, to: usize) -> (r: bool)
    requires
        from <= to <= v@.len(),
    ensures
        r == all_digits(v@.subrange(from as int, to as int)),
{
    let mut k = from;
    while k < to
        invariant
            from <= k <= to <= v@.len(),
            forall|m: int| from <= m < k ==> is_ascii_digit(v@[m]),
        decreases to - k,
    {
        if !('0' <= v[k] && v[k] <= '9') {
            assert(!is_ascii_digit(v@.subrange(from as int, to as int)[k - from]));
            return false;
        }
        k = k + 1;
    }
    assert forall|m: int| 0 <= m < to - from implies #[trigger] is_ascii_digit(
        v@.subrange(from as int, to as int)[m],
    ) by {
        assert(v@.subrange(from as int, to as int)[m] == v@[from + m]);
    }
    true
}

/// In a valid split, the dots are the first two dots of the base version.
pub proof fn lemma_split_dots_first(b: Seq<char>, p: int, q: int)
    requires
        valid_base_split(b, p, q),
    ensures
        forall|m: int| 0 <= m < p ==> b[m] != '.',
        forall|m: int| p < m < q ==> b[m] != '.',
{
    assert forall|m: int| 0 <= m < p implies b[m] != '.' by {
        assert(is_ascii_digit(b.take(p)[m]));
    }
    assert forall|m: int| p < m < q implies b[m] != '.' by {
        assert(is_ascii_digit(b.subrange(p + 1, q)[m - p - 1]));
    }
}

/// Finds the dots of the base version `v[start..end]`, if it matches.
fn locate_dots(v: &Vec<char>, start: usize, end: usize) -> (r: Option<(usize, usize)>)
    requires
        start <= end <= v@.len(),
    ensures
        r is None ==> !base_matches(v@.subrange(start as int, end as int)),
        r matches Some((i, j)) ==> start <= i < j < end && valid_base_split(
            v@.subrange(start as int, end as int),
            i - start,
            j - start,
        ),
{
    let ghost b = v@.subrange(start as int, end as int);
    let i = match find_char(v, start, end, '.') {
        Some(i) => i,
        None => {
            proof {
                if base_matches(b) {
                    let (p, q) = choose|p: int, q: int| #[trigger] valid_base_split(b, p, q);
                    assert(v@[start + p] == '.');
                }
            }
            return None;
        },
    };
    let ghost ii = i - start;
    assert(b[ii] == '.');
    assert(forall|m: int| 0 <= m < ii ==> b[m] != '.') by {
        assert forall|m: int| 0 <= m < ii implies b[m] != '.' by {
            assert(b[m] == v@[start + m]);
        }
    }
    let j = match find_char(v, i + 1, end, '.') {
        Some(j) => j,
        None => {
            proof {
                if base_matches(b) {
                    let (p, q) = choose|p: int, q: int| #[trigger] valid_base_split(b, p, q);
                    lemma_split_dots_first(b, p, q);
                    assert(p == ii);
                    assert(v@[start + q] == '.');
                }
            }
            return None;
        },
    };
    let ghost jj = j - start;
    assert(b[jj] == '.');
    assert(forall|m: int| ii < m < jj ==> b[m] != '.') by {
        assert forall|m: int| ii < m < jj implies b[m] != '.' by {
            assert(b[m] == v@[start + m]);
        }
    }
    proof {
        assert(b.take(ii) =~= v@.subrange(start as int, i as int));
        assert(b.subrange(ii + 1, jj) =~= v@.subrange(i + 1, j as int));
        assert(b.skip(jj + 1) =~= v@.subrange(j + 1, end as int));
    }
    if i > start && j > i + 1 && j + 1 < end && digits_only(v, start, i) && digits_only(v, i + 1, j)
        && digits_only(v, j + 1, end) {
        Some((i, j))
    } else {
        proof {
            if base_matches(b) {
                let (p, q) = choose|p: int, q: int| #[trigger] valid_base_split(b, p, q);
                lemma_split_dots_first(b, p, q);
                assert(p == ii);
                assert(q == jj);
            }
        }
        None
    }
}

/// Reads the base version `v[start..end]`.
fn parse_base(v: &Vec<char>, start: usize, end: usize) -> (r: Result<(u8, u8, u8), VersionParseError>)
    requires
        start <= end <= v@.len(),
    ensures
        ({
            let b = v@.subrange(start as int, end as int);
            if !base_matches(b) {
                r == Err::<(u8, u8, u8), VersionParseError>(VersionParseError::Base)
            } else {
                match base_numbers(b) {
                    Err(e) => r == Err::<(u8, u8, u8), VersionParseError>(int_error(e)),
                    Ok(n) => r == Ok::<(u8, u8, u8), VersionParseError>(
                        (n.0 as u8, n.1 as u8, n.2 as u8),
                    ) && n.0 < 256 && n.1 < 256 && n.2 < 256,
                }
            }
        }),
{
    let ghost b = v@.subrange(start as int, end as int);
    let (i, j) = match locate_dots(v, start, end) {
        Some(p) => p,
        None => return Err(VersionParseError::Base),
    };
    proof {
        assert(valid_base_split(b, i - start, j - start));
        assert(base_matches(b));
        let (p, q) = base_split(b);
        assert(valid_base_split(b, p, q));
        lemma_base_split_unique(b, i - start, j - start, p, q);
        assert(b.take(i - start) =~= v@.subrange(start as int, i as int));
        assert(b.subrange(i - start + 1, j - start) =~= v@.subrange(i + 1, j as int));
        assert(b.skip(j - start + 1) =~= v@.subrange(j + 1, end as int));
    }
    let major = match parse_unsigned_range(v, start, i, 255) {
        Ok(x) => x,
        Err(e) => return Err(VersionParseError::ParseInt(e)),
    };
    let minor = match parse_unsigned_range(v, i + 1, j, 255) {
        Ok(x) => x,
        Err(e) => return Err(VersionParseError::ParseInt(e)),
    };
    let patch = match parse_unsigned_range(v, j + 1, end, 255) {
        Ok(x) => x,
        Err(e) => return Err(VersionParseError::ParseInt(e)),
    };
    assert(base_numbers(b) == Ok::<(nat, nat, nat), IntErrorKind>((major as nat, minor as nat, patch as nat)));
    Ok((major as u8, minor as u8, patch as u8))
}

/// Whether `v[start..end]` is `prefix` followed by one or more digits.
fn suffixed_number(v: &Vec<char>, start: usize, end: usize, prefix: &Vec<char>) -> (r: bool)
    requires
        start <= end <= v@.len(),
    ensures
        r == is_suffixed_number(v@.subrange(start as int, end as int), prefix@),
{
    let ghost e = v@.subrange(start as int, end as int);
    let n = prefix.len();
    if end - start <= n {
        return false;
    }
    let mut k: usize = 0;
    while k < n
        invariant
            k <= n == prefix@.len(),
            start + n < end <= v@.len(),
            e == v@.subrange(start as int, end as int),
            forall|m: int| 0 <= m < k ==> v@[start + m] == prefix@[m],
        decreases n - k,
    {
        if v[start + k] != prefix[k] {
            assert(e.take(n as int)[k as int] != prefix@[k as int]);
            return false;
        }
        k = k + 1;
    }
    assert(e.take(n as int) =~= prefix@);
    assert(e.skip(n as int) =~= v@.subrange(start + n, end as int));
    digits_only(v, start + n, end)
}

/// Whether `v[start..end]` equals `w`.
fn range_equals(v: &Vec<char>, start: usize, end: usize, w: &Vec<char>) -> (r: bool)
    requires
        start <= end <= v@.len(),
    ensures
        r == (v@.subrange(start as int, end as int) == w@),
{
    if end - start != w.len() {
        return false;
    }
    let mut k: usize = 0;
    while k < w.len()
        invariant
            end - start == w@.len(),
            end <= v@.len(),
            k <= w@.len(),
            forall|m: int| 0 <= m < k ==> v@[start + m] == w@[m],
        decreases w@.len() - k,
    {
        if v[start + k] != w[k] {
            assert(v@.subrange(start as int, end as int)[k as int] != w@[k as int]);
            return false;
        }
        k = k + 1;
    }
    assert(v@.subrange(start as int, end as int) =~= w@);
    true
}

fn chars_f_lum() -> (r: Vec<char>)
    ensures
        r@ == f_lum(),
{
    let r = vec!['f', '.', 'L', 'U', 'M'];
    assert(r@ =~= f_lum());
    r
}

fn chars_fenhl() -> (r: Vec<char>)
    ensures
        r@ == fenhl_prefix(),
{
    let r = vec!['F', 'e', 'n', 'h', 'l', '-'];
    assert(r@ =~= fenhl_prefix());
    r
}

fn chars_r() -> (r: Vec<char>)
    ensures
        r@ == r_prefix(),
{
    let r = vec!['R', '-'];
    assert(r@ =~= r_prefix());
    r
}

impl Version {
    /// Reads a randomizer version as players write it (`FromStr`).
    pub fn from_str(s: &str) -> (r: Result<Version, VersionParseError>)
        ensures
            r == parse_version_spec(s@),
            r matches Ok(v) ==> version_wf(v),
    {
        let v = chars_of(s);
        let w = word_ranges(&v);
        if w.len() == 1 {
            let (a, b) = w[0];
            match parse_base(&v, a, b) {
                Ok((major, minor, patch)) => Ok(Version::dev(major, minor, patch)),
                Err(e) => Err(e),
            }
        } else if w.len() == 2 {
            let (a, b) = w[0];
            let (c, d) = w[1];
            let base = parse_base(&v, a, b);
            if let Err(VersionParseError::Base) = base {
                return Err(VersionParseError::Base);
            }
            let ghost extra = v@.subrange(c as int, d as int);
            if range_equals(&v, c, d, &chars_f_lum()) {
                match base {
                    Ok((major, minor, patch)) => Ok(Version::dev(major, minor, patch)),
                    Err(e) => Err(e),
                }
            } else if suffixed_number(&v, c, d, &chars_fenhl()) {
                match base {
                    Ok((major, minor, patch)) => {
                        assert(extra.skip(6) =~= v@.subrange(c + 6, d as int));
                        match parse_unsigned_range(&v, c + 6, d, 255) {
                            Ok(x) => Ok(Version::branch(Branch::DevFenhl, major, minor, patch, x as u8)),
                            Err(e) => Err(VersionParseError::ParseInt(e)),
                        }
                    },
                    Err(e) => Err(e),
                }
            } else if suffixed_number(&v, c, d, &chars_r()) {
                match base {
                    Ok((major, minor, patch)) => {
                        assert(extra.skip(2) =~= v@.subrange(c + 2, d as int));
                        match parse_unsigned_range(&v, c + 2, d, 255) {
                            Ok(x) => Ok(Version::branch(Branch::DevR, major, minor, patch, x as u8)),
                            Err(e) => Err(VersionParseError::ParseInt(e)),
                        }
                    },
                    Err(e) => Err(e),
                }
            } else {
                Err(VersionParseError::Branch)
            }
        } else {
            Err(VersionParseError::Words)
        }
    }

    /// How this version is written (its `Display` text).
    pub fn to_display_string(&self) -> (r: String)
        requires
            version_wf(*self),
        ensures
            r@ == version_text(*self),
    {
        let mut s = String::new();
        push_base(&mut s, &self.base);
        push_char(&mut s, ' ');
        match self.branch {
            Branch::Dev => push_chars(&mut s, &chars_f_lum()),
            Branch::DevFenhl => {
                push_chars(&mut s, &chars_fenhl());
                push_decimal(&mut s, self.supplementary.unwrap() as u64);
            },
            Branch::DevR => {
                push_chars(&mut s, &chars_r());
                push_decimal(&mut s, self.supplementary.unwrap() as u64);
            },
        }
        assert(s@ =~= version_text(*self));
        s
    }

    /// The name of the directory that holds a checkout of this version.
    pub fn dir_name(&self) -> (r: String)
        ensures
            r@ == dir_name_spec(*self),
    {
        let mut s = String::new();
        push_chars(&mut s, &vec!['r', 'a', 'n', 'd', 'o', '-']);
        let web = self.branch.web_name_known_settings();
        let web_chars = chars_of(web.as_str());
        push_chars(&mut s, &web_chars);
        push_char(&mut s, '-');
        push_base(&mut s, &self.base);
        match self.supplementary {
            Some(x) => {
                push_char(&mut s, '-');
                push_decimal(&mut s, x as u64);
            },
            None => {},
        }
        assert(s@ =~= dir_name_spec(*self));
        s
    }
}

/// Appends how `b` is written.
fn push_base(s: &mut String, b: &BaseVersion)
    ensures
        final(s)@ == old(s)@ + base_text(*b),
{
    push_decimal(s, b.major);
    push_char(s, '.');
    push_decimal(s, b.minor);
    push_char(s, '.');
    push_decimal(s, b.patch);
    assert(s@ =~= old(s)@ + base_text(*b));
}

} // verus!
