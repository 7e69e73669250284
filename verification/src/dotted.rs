//! Version numbers written as numbers separated by dots (`2.9.1`, `4.0`), as
//! emulators report them: the first three numbers count, missing ones are 0.
use vstd::prelude::*;
use semver::Version as SemverVersion;
use crate::text::{
    IntErrorKind, ParseIntError, chars_of, decimal, is_ascii_digit, lemma_decimal_facts,
    lemma_parse_decimal, parse_unsigned, parse_unsigned_range, push_char, push_decimal,
};

verus! {

/// What `semver::Version::new` gives for three numbers.
pub uninterp spec fn semver_new(major: u64, minor: u64, patch: u64) -> SemverVersion;

/// `semver::Version::new`: the version `major.minor.patch`, without
/// pre-release or build metadata. Nothing more than the name is said of it.
#[verifier::external_body]
pub(crate) fn new_semver(major: u64, minor: u64, patch: u64) -> (r: SemverVersion)
    ensures
        r == semver_new(major, minor, patch),
{
    SemverVersion::new(major, minor, patch)
}

/// `s` split at every `c`, as `str::split` with a character does.
pub open spec fn split_on(s: Seq<char>, c: char) -> Seq<Seq<char>>
    decreases s.len(),
{
    if s.len() == 0 {
        seq![Seq::empty()]
    } else {
        let p = split_on(s.drop_last(), c);
        if s.last() == c {
            p.push(Seq::empty())
        } else {
            p.update(p.len() - 1, p.last().push(s.last()))
        }
    }
}

/// Splitting a text always gives at least one part.
pub proof fn lemma_split_on_nonempty(s: Seq<char>, c: char)
    ensures
        split_on(s, c).len() >= 1,
    decreases s.len(),
{
    if s.len() > 0 {
        lemma_split_on_nonempty(s.drop_last(), c);
    }
}

/// The `k`-th number of a dotted version: 0 if it has fewer parts.
pub open spec fn dotted_part(parts: Seq<Seq<char>>, k: int) -> Result<nat, IntErrorKind> {
    if k < parts.len() {
        parse_unsigned(parts[k], 0xffff_ffff_ffff_ffff)
    } else {
        Ok(0)
    }
}

/// The first three numbers of a dotted version; the error is that of the first
/// of them that is not a `u64`.
pub open spec fn dotted_version_spec(s: Seq<char>) -> Result<(nat, nat, nat), IntErrorKind> {
    let parts = split_on(s, '.');
    match dotted_part(parts, 0) {
        Err(e) => Err(e),
        Ok(a) => match dotted_part(parts, 1) {
            Err(e) => Err(e),
            Ok(b) => match dotted_part(parts, 2) {
                Err(e) => Err(e),
                Ok(c) => Ok((a, b, c)),
            },
        },
    }
}

/// `parts` are ranges of `v` ending at most at `bound`, and hold the pieces of `split`.
pub open spec fn ranges_match(v: Seq<char>, parts: Seq<(usize, usize)>, split: Seq<Seq<char>>, bound: int) -> bool {
    &&& parts.len() == split.len()
    &&& forall|k: int|
        0 <= k < parts.len() ==> (#[trigger] parts[k]).0 <= parts[k].1 <= bound && v.subrange(
            parts[k].0 as int,
            parts[k].1 as int,
        ) == split[k]
}

/// The ranges of the parts of `v` between the characters `c`.
pub fn split_ranges(v: &Vec<char>, c: char) -> (r: Vec<(usize, usize)>)
    ensures
        ranges_match(v@, r@, split_on(v@, c), v@.len() as int),
{
    let mut parts: Vec<(usize, usize)> = Vec::new();
    parts.push((0, 0));
    let mut i: usize = 0;
    assert(v@.take(0) =~= Seq::<char>::empty());
    assert(v@.subrange(0, 0) =~= Seq::<char>::empty());
    while i < v.len()
        invariant
            i <= v@.len(),
            parts@.len() >= 1,
            parts@.last().1 == i,
            ranges_match(v@, parts@, split_on(v@.take(i as int), c), i as int),
        decreases v.len() - i,
    {
        let ghost prev = split_on(v@.take(i as int), c);
        let ghost old_parts = parts@;
        let ghost cur = v@.take(i + 1);
        assert(cur.drop_last() =~= v@.take(i as int));
        assert(cur.last() == v@[i as int]);
        proof {
            lemma_split_on_nonempty(v@.take(i as int), c);
        }
        let last = parts.len() - 1;
        assert(old_parts[last as int].0 <= old_parts[last as int].1);
        if v[i] == c {
            parts.push((i + 1, i + 1));
            assert(split_on(cur, c) == prev.push(Seq::<char>::empty()));
            assert(v@.subrange(i + 1, i + 1) =~= Seq::<char>::empty());
            assert forall|k: int| 0 <= k < parts@.len() implies (#[trigger] parts@[k]).0 <= parts@[k].1
                <= i + 1 && v@.subrange(parts@[k].0 as int, parts@[k].1 as int) == split_on(
                cur,
                c,
            )[k] by {
                if k < old_parts.len() {
                    assert(parts@[k] == old_parts[k]);
                }
            }
        } else {
            let (start, _) = parts[last];
            parts.set(last, (start, i + 1));
            assert(split_on(cur, c) == prev.update(prev.len() - 1, prev.last().push(v@[i as int])));
            assert(v@.subrange(start as int, i + 1) =~= v@.subrange(start as int, i as int).push(
                v@[i as int],
            ));
            assert forall|k: int| 0 <= k < parts@.len() implies (#[trigger] parts@[k]).0 <= parts@[k].1
                <= i + 1 && v@.subrange(parts@[k].0 as int, parts@[k].1 as int) == split_on(
                cur,
                c,
            )[k] by {
                if k < last {
                    assert(parts@[k] == old_parts[k]);
                }
            }
        }
        i = i + 1;
    }
    assert(v@.take(v@.len() as int) =~= v@);
    parts
}

/// The `k`-th number of the dotted version in `v`, with its parts at `parts`.
fn dotted_number(v: &Vec<char>, parts: &Vec<(usize, usize)>, k: usize) -> (r: Result<u64, ParseIntError>)
    requires
        ranges_match(v@, parts@, split_on(v@, '.'), v@.len() as int),
    ensures
        match r {
            Ok(n) => dotted_part(split_on(v@, '.'), k as int) == Ok::<nat, IntErrorKind>(n as nat),
            Err(e) => dotted_part(split_on(v@, '.'), k as int) == Err::<nat, IntErrorKind>(e.kind),
        },
{
    if k < parts.len() {
        let (start, end) = parts[k];
        assert(start <= end <= v@.len());
        parse_unsigned_range(v, start, end, 0xffff_ffff_ffff_ffff)
    } else {
        Ok(0)
    }
}

/// Reads the first three numbers of a dotted version.
pub fn dotted_version(text: &str) -> (r: Result<(u64, u64, u64), ParseIntError>)
    ensures
        match r {
            Ok((a, b, c)) => dotted_version_spec(text@) == Ok::<(nat, nat, nat), IntErrorKind>(
                (a as nat, b as nat, c as nat),
            ),
            Err(e) => dotted_version_spec(text@) == Err::<(nat, nat, nat), IntErrorKind>(e.kind),
        },
{
    let v = chars_of(text);
    let parts = split_ranges(&v, '.');
    let major = dotted_number(&v, &parts, 0);
    let minor = dotted_number(&v, &parts, 1);
    let patch = dotted_number(&v, &parts, 2);
    match major {
        Err(e) => Err(e),
        Ok(a) => match minor {
            Err(e) => Err(e),
            Ok(b) => match patch {
                Err(e) => Err(e),
                Ok(c) => Ok((a, b, c)),
            },
        },
    }
}

/// The text `a.b.c` of three numbers.
pub open spec fn three_numbers_text(a: nat, b: nat, c: nat) -> Seq<char> {
    decimal(a) + seq!['.'] + decimal(b) + seq!['.'] + decimal(c)
}

/// The version the plugin hands to the app: the first three numbers of the
/// emulator's dotted version, written `major.minor.patch`.
pub fn normalized_version(text: &str) -> (r: Result<String, ParseIntError>)
    ensures
        match dotted_version_spec(text@) {
            Ok((a, b, c)) => r matches Ok(s) && s@ == three_numbers_text(a, b, c),
            Err(k) => r matches Err(e) && e.kind == k,
        },
{
    match dotted_version(text) {
        Err(e) => Err(e),
        Ok((a, b, c)) => {
            let mut s = String::new();
            push_decimal(&mut s, a);
            push_char(&mut s, '.');
            push_decimal(&mut s, b);
            push_char(&mut s, '.');
            push_decimal(&mut s, c);
            assert(s@ =~= three_numbers_text(a as nat, b as nat, c as nat));
            Ok(s)
        },
    }
}

/// The version of the latest BizHawk release, from the release's name.
pub fn bizhawk_release_version(name: &str) -> (r: Result<SemverVersion, ParseIntError>)
    ensures
        match dotted_version_spec(name@) {
            Ok((a, b, c)) => r == Ok::<SemverVersion, ParseIntError>(
                semver_new(a as u64, b as u64, c as u64),
            ),
            Err(k) => r matches Err(e) && e.kind == k,
        },
{
    match dotted_version(name) {
        Err(e) => Err(e),
        Ok((a, b, c)) => Ok(new_semver(a, b, c)),
    }
}

/// Appending text without a separator extends the last piece.
proof fn lemma_split_on_append(s: Seq<char>, t: Seq<char>, c: char)
    requires
        forall|i: int| 0 <= i < t.len() ==> t[i] != c,
    ensures
        split_on(s + t, c) == split_on(s, c).update(
            split_on(s, c).len() - 1,
            split_on(s, c).last() + t,
        ),
    decreases t.len(),
{
    lemma_split_on_nonempty(s, c);
    if t.len() == 0 {
        assert(s + t =~= s);
        assert(split_on(s, c).last() + t =~= split_on(s, c).last());
        assert(split_on(s, c).update(split_on(s, c).len() - 1, split_on(s, c).last())
            =~= split_on(s, c));
    } else {
        let u = t.drop_last();
        lemma_split_on_append(s, u, c);
        assert((s + t).drop_last() =~= s + u);
        assert((s + t).last() == t.last());
        let q = split_on(s, c);
        let p = split_on(s + u, c);
        assert(p.last() == q.last() + u);
        assert(p.last().push(t.last()) =~= q.last() + t);
        assert(p.update(p.len() - 1, p.last().push(t.last())) =~= q.update(q.len() - 1, q.last() + t));
    }
}

/// A separator at the end starts an empty piece.
proof fn lemma_split_on_separator(s: Seq<char>, c: char)
    ensures
        split_on(s.push(c), c) == split_on(s, c).push(Seq::empty()),
{
    assert(s.push(c).drop_last() =~= s);
}

proof fn lemma_decimal_has_no_dot(n: nat)
    ensures
        forall|i: int| 0 <= i < decimal(n).len() ==> decimal(n)[i] != '.',
{
    lemma_decimal_facts(n);
    assert forall|i: int| 0 <= i < decimal(n).len() implies decimal(n)[i] != '.' by {
        assert(is_ascii_digit(decimal(n)[i]));
    }
}

/// A version written as `major.minor.patch` reads back as the same three numbers.
pub proof fn lemma_normalized_version_reads_back(a: u64, b: u64, c: u64)
    ensures
        dotted_version_spec(three_numbers_text(a as nat, b as nat, c as nat)) == Ok::<
            (nat, nat, nat),
            IntErrorKind,
        >((a as nat, b as nat, c as nat)),
{
    let da = decimal(a as nat);
    let db = decimal(b as nat);
    let dc = decimal(c as nat);
    lemma_decimal_has_no_dot(a as nat);
    lemma_decimal_has_no_dot(b as nat);
    lemma_decimal_has_no_dot(c as nat);
    let e = Seq::<char>::empty();
    lemma_split_on_append(e, da, '.');
    assert(e + da =~= da);
    assert(split_on(e, '.') == seq![e]);
    assert(split_on(da, '.') =~= seq![da]) by {
        assert(seq![e].last() + da =~= da);
    }
    let s1 = da + seq!['.'];
    assert(s1 =~= da.push('.'));
    lemma_split_on_separator(da, '.');
    lemma_split_on_append(s1, db, '.');
    let s2 = s1 + db;
    assert(split_on(s2, '.') =~= seq![da, db]) by {
        assert(seq![da, e].last() + db =~= db);
    }
    let s3 = s2 + seq!['.'];
    assert(s3 =~= s2.push('.'));
    lemma_split_on_separator(s2, '.');
    lemma_split_on_append(s3, dc, '.');
    let s4 = s3 + dc;
    assert(split_on(s4, '.') =~= seq![da, db, dc]) by {
        assert(seq![da, db, e].last() + dc =~= dc);
    }
    assert(s4 =~= three_numbers_text(a as nat, b as nat, c as nat));
    lemma_parse_decimal(a as nat, 0xffff_ffff_ffff_ffff);
    lemma_parse_decimal(b as nat, 0xffff_ffff_ffff_ffff);
    lemma_parse_decimal(c as nat, 0xffff_ffff_ffff_ffff);
}

} // verus!
