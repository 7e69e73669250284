//! Character-level helpers shared by the parsers and formatters of this crate:
//! decimal integers as `str::parse` reads them, decimal formatting of integers,
//! and building `String`s.
use vstd::prelude::*;
use vstd::string::*;

verus! {

/// Why a decimal integer could not be read (the cases of `std::num::IntErrorKind`
/// that an unsigned or non-zero target can produce).
#[derive(Clone, Copy, Debug, PartialEq, Eq, Structural)]
pub enum IntErrorKind {
    Empty,
    InvalidDigit,
    PosOverflow,
    Zero,
}

/// A failed integer parse, as `str::parse` reports it.
#[derive(Clone, Copy, Debug, PartialEq, Eq, Structural)]
pub struct ParseIntError {
    pub kind: IntErrorKind,
}

pub open spec fn is_ascii_digit(c: char) -> bool {
    '0' <= c && c <= '9'
}

pub open spec fn digit_value(c: char) -> nat {
    (c as int - '0' as int) as nat
}

pub open spec fn digit_char(d: nat) -> char {
    (d + '0' as int) as char
}

/// The number that a string of decimal digits denotes.
pub open spec fn decimal_value(s: Seq<char>) -> nat
    decreases s.len(),
{
    if s.len() == 0 {
        0
    } else {
        decimal_value(s.drop_last()) * 10 + digit_value(s.last())
    }
}

pub open spec fn all_digits(s: Seq<char>) -> bool {
    forall|i: int| 0 <= i < s.len() ==> #[trigger] is_ascii_digit(s[i])
}

/// The length of the longest prefix of `s` made of decimal digits.
pub open spec fn digits_end(s: Seq<char>) -> nat
    decreases s.len(),
{
    if s.len() == 0 {
        0
    } else if is_ascii_digit(s[0]) {
        1 + digits_end(s.drop_first())
    } else {
        0
    }
}

/// Reading the decimal digits `d` into an integer of at most `max`:
/// digits are consumed from the left, so an overflow within the leading run of
/// digits is reported before a character that is not a digit.
pub open spec fn parse_digits(d: Seq<char>, max: nat) -> Result<nat, IntErrorKind> {
    if decimal_value(d.take(digits_end(d) as int)) > max {
        Err(IntErrorKind::PosOverflow)
    } else if digits_end(d) < d.len() {
        Err(IntErrorKind::InvalidDigit)
    } else {
        Ok(decimal_value(d))
    }
}

/// What `str::parse` gives for an unsigned integer type whose largest value is
/// `max`: an optional leading `+`, then one or more ASCII digits.
pub open spec fn parse_unsigned(s: Seq<char>, max: nat) -> Result<nat, IntErrorKind> {
    if s.len() == 0 {
        Err(IntErrorKind::Empty)
    } else if s[0] == '+' && s.len() == 1 {
        Err(IntErrorKind::InvalidDigit)
    } else if s[0] == '+' {
        parse_digits(s.skip(1), max)
    } else {
        parse_digits(s, max)
    }
}

/// What `str::parse` gives for a non-zero unsigned type (`NonZeroU8` and the like).
pub open spec fn parse_nonzero(s: Seq<char>, max: nat) -> Result<nat, IntErrorKind> {
    match parse_unsigned(s, max) {
        Ok(v) => if v == 0 { Err(IntErrorKind::Zero) } else { Ok(v) },
        Err(e) => Err(e),
    }
}

/// The decimal representation of `n`, without leading zeros.
pub open spec fn decimal(n: nat) -> Seq<char>
    decreases n,
{
    if n < 10 {
        seq![digit_char(n)]
    } else {
        decimal(n / 10).push(digit_char(n % 10))
    }
}

/// `digits_end` ends a run of digits: everything before it is a digit, and
/// what stands at it (if anything) is not.
pub proof fn lemma_digits_end_bounds(s: Seq<char>)
    ensures
        digits_end(s) <= s.len(),
        all_digits(s.take(digits_end(s) as int)),
        digits_end(s) < s.len() ==> !is_ascii_digit(s[digits_end(s) as int]),
    decreases s.len(),
{
    if s.len() > 0 && is_ascii_digit(s[0]) {
        lemma_digits_end_bounds(s.drop_first());
        let k = digits_end(s) as int;
        assert forall|i: int| 0 <= i < k implies #[trigger] is_ascii_digit(s.take(k)[i]) by {
            if i > 0 {
                assert(s.take(k)[i] == s.drop_first().take(k - 1)[i - 1]);
            }
        }
        if k < s.len() {
            assert(s[k] == s.drop_first()[k - 1]);
        }
    }
}

/// A run of digits followed by a non-digit (or the end) fixes `digits_end`.
pub proof fn lemma_digits_end_unique(s: Seq<char>, k: int)
    requires
        0 <= k <= s.len(),
        all_digits(s.take(k)),
        k < s.len() ==> !is_ascii_digit(s[k]),
    ensures
        digits_end(s) == k,
    decreases s.len(),
{
    if s.len() > 0 && k > 0 {
        assert(is_ascii_digit(s.take(k)[0]));
        let t = s.drop_first();
        assert forall|i: int| 0 <= i < k - 1 implies #[trigger] is_ascii_digit(t.take(k - 1)[i]) by {
            assert(t.take(k - 1)[i] == s.take(k)[i + 1]);
        }
        if k - 1 < t.len() {
            assert(t[k - 1] == s[k]);
        }
        lemma_digits_end_unique(t, k - 1);
    }
}

/// Appending digits never lowers the value.
pub proof fn lemma_decimal_value_prefix_mono(s: Seq<char>, i: int, j: int)
    requires
        0 <= i <= j <= s.len(),
    ensures
        decimal_value(s.take(i)) <= decimal_value(s.take(j)),
    decreases j - i,
{
    if i < j {
        lemma_decimal_value_prefix_mono(s, i, j - 1);
        assert(s.take(j).drop_last() =~= s.take(j - 1));
    }
}

/// Taking a whole sequence gives it back.
pub proof fn lemma_decimal_value_take_full(s: Seq<char>)
    ensures
        s.take(s.len() as int) =~= s,
{
}

/// The decimal digits of a number: at least one, all digits, no sign, one
/// exactly below ten, and they read back as the number.
pub proof fn lemma_decimal_facts(n: nat)
    ensures
        decimal(n).len() >= 1,
        all_digits(decimal(n)),
        decimal_value(decimal(n)) == n,
        digits_end(decimal(n)) == decimal(n).len(),
        decimal(n)[0] != '+',
        n < 10 ==> decimal(n).len() == 1,
        n >= 10 ==> decimal(n).len() >= 2,
    decreases n,
{
    assert(digit_value(digit_char(n % 10)) == n % 10);
    if n < 10 {
        assert(decimal(n).drop_last() =~= Seq::<char>::empty());
        assert(decimal_value(Seq::<char>::empty()) == 0);
    } else {
        lemma_decimal_facts(n / 10);
        let p = decimal(n / 10);
        assert(decimal(n).drop_last() =~= p);
        assert(decimal(n).last() == digit_char(n % 10));
        assert(decimal_value(decimal(n)) == decimal_value(p) * 10 + digit_value(digit_char(n % 10)));
        assert((n / 10) * 10 + n % 10 == n);
        assert forall|i: int| 0 <= i < decimal(n).len() implies #[trigger] is_ascii_digit(
            decimal(n)[i],
        ) by {
            if i < p.len() {
                assert(decimal(n)[i] == p[i]);
            }
        }
    }
    let d = decimal(n);
    lemma_decimal_value_take_full(d);
    lemma_digits_end_unique(d, d.len() as int);
}

/// Formatting a number and reading it back gives the number.
pub proof fn lemma_parse_decimal(n: nat, max: nat)
    requires
        n <= max,
    ensures
        parse_unsigned(decimal(n), max) == Ok::<nat, IntErrorKind>(n),
{
    lemma_decimal_facts(n);
    lemma_decimal_value_take_full(decimal(n));
}

/// The characters of `s`, one by one.
pub fn chars_of(s: &str) -> (v: Vec<char>)
    ensures
        v@ == s@,
{
    let n = s.unicode_len();
    let mut v: Vec<char> = Vec::new();
    let mut i: usize = 0;
    while i < n
        invariant
            n == s@.len(),
            i <= n,
            v@ == s@.take(i as int),
        decreases n - i,
    {
        let c = s.get_char(i);
        v.push(c);
        i = i + 1;
        assert(v@ =~= s@.take(i as int));
    }
    assert(v@ =~= s@);
    v
}

/// Appends one character to a `String` (`String::push`).
#[verifier::external_body]
pub(crate) fn push_char(s: &mut String, c: char)
    ensures
        final(s)@ == old(s)@.push(c),
{
    s.push(c)
}

/// Appends every character of `cs` to `s`.
pub fn push_chars(s: &mut String, cs: &Vec<char>)
    ensures
        final(s)@ == old(s)@ + cs@,
{
    let mut i: usize = 0;
    while i < cs.len()
        invariant
            i <= cs.len(),
            s@ == old(s)@ + cs@.take(i as int),
        decreases cs.len() - i,
    {
        push_char(s, cs[i]);
        i = i + 1;
        assert(s@ =~= old(s)@ + cs@.take(i as int));
    }
    assert(cs@.take(cs.len() as int) =~= cs@);
}

/// Appends every character of `t` to `s`.
pub fn push_str(s: &mut String, t: &str)
    ensures
        final(s)@ == old(s)@ + t@,
{
    let cs = chars_of(t);
    push_chars(s, &cs);
}

/// Appends the decimal representation of `n` to `s` (what `{}` prints for an integer).
pub fn push_decimal(s: &mut String, n: u64)
    ensures
        final(s)@ == old(s)@ + decimal(n as nat),
    decreases n,
{
    if n >= 10 {
        push_decimal(s, n / 10);
    }
    let d: u8 = (n % 10) as u8;
    let c: char = (d + 48u8) as char;
    assert(c == digit_char((n % 10) as nat));
    push_char(s, c);
    if n >= 10 {
        assert(decimal(n as nat) == decimal((n / 10) as nat).push(c));
        assert(s@ =~= old(s)@ + decimal(n as nat));
    } else {
        assert(s@ =~= old(s)@ + decimal(n as nat));
    }
}

/// The decimal representation of `n` as a `String`.
pub fn decimal_string(n: u64) -> (r: String)
    ensures
        r@ == decimal(n as nat),
{
    let mut s = String::new();
    push_decimal(&mut s, n);
    assert(s@ =~= decimal(n as nat));
    s
}

/// Reads the characters `s[start..end]` as an unsigned integer of at most `max`,
/// as `str::parse` does for an unsigned integer type whose largest value is `max`.
pub fn parse_unsigned_range(s: &Vec<char>, start: usize, end: usize, max: u64) -> (r: Result<
    u64,
    ParseIntError,
>)
    requires
        start <= end <= s.len(),
    ensures
        r matches Ok(v) ==> v <= max,
        match r {
            Ok(v) => parse_unsigned(s@.subrange(start as int, end as int), max as nat) == Ok::<
                nat,
                IntErrorKind,
            >(v as nat),
            Err(e) => parse_unsigned(s@.subrange(start as int, end as int), max as nat) == Err::<
                nat,
                IntErrorKind,
            >(e.kind),
        },
{
    let ghost whole = s@.subrange(start as int, end as int);
    if start == end {
        return Err(ParseIntError { kind: IntErrorKind::Empty });
    }
    let mut i: usize = start;
    if s[start] == '+' {
        if end - start == 1 {
            return Err(ParseIntError { kind: IntErrorKind::InvalidDigit });
        }
        i = start + 1;
    }
    let first = i;
    let ghost d = s@.subrange(first as int, end as int);
    assert(whole[0] == '+' ==> d =~= whole.skip(1));
    assert(whole[0] != '+' ==> d =~= whole);
    assert(parse_unsigned(whole, max as nat) == parse_digits(d, max as nat));
    let mut acc: u64 = 0;
    while i < end
        invariant
            first <= i <= end <= s.len(),
            d == s@.subrange(first as int, end as int),
            parse_unsigned(s@.subrange(start as int, end as int), max as nat) == parse_digits(
                d,
                max as nat,
            ),
            acc <= max,
            all_digits(d.take(i - first)),
            acc as nat == decimal_value(d.take(i - first)),
        decreases end - i,
    {
        let c = s[i];
        let ghost k: int = i - first;
        assert(d[k] == c);
        if !('0' <= c && c <= '9') {
            proof {
                lemma_digits_end_unique(d, k);
            }
            return Err(ParseIntError { kind: IntErrorKind::InvalidDigit });
        }
        let v: u64 = ((c as u32) - 48) as u64;
        assert(d.take(k + 1).drop_last() =~= d.take(k));
        assert(d.take(k + 1).last() == c);
        assert forall|j: int| 0 <= j < k + 1 implies #[trigger] is_ascii_digit(d.take(k + 1)[j]) by {
            if j < k {
                assert(d.take(k + 1)[j] == d.take(k)[j]);
            }
        }
        if v > max || acc > (max - v) / 10 {
            proof {
                assert(acc * 10 + v > max) by (nonlinear_arith)
                    requires
                        v > max || acc > (max - v) / 10,
                        acc >= 0,
                ;
                lemma_digits_end_bounds(d);
                let e = digits_end(d) as int;
                if e < k + 1 {
                    if e < k {
                        assert(is_ascii_digit(d.take(k)[e]));
                    } else {
                        assert(is_ascii_digit(d[k]));
                    }
                }
                lemma_decimal_value_prefix_mono(d, k + 1, e);
            }
            return Err(ParseIntError { kind: IntErrorKind::PosOverflow });
        }
        assert(acc * 10 + v <= max) by (nonlinear_arith)
            requires
                acc <= (max - v) / 10,
                v <= max,
        ;
        acc = acc * 10 + v;
        i = i + 1;
    }
    proof {
        assert(d.take(d.len() as int) =~= d);
        lemma_digits_end_unique(d, d.len() as int);
    }
    Ok(acc)
}

/// The characters `split_ascii_whitespace` splits at: space, tab, line feed,
/// form feed and carriage return.
pub open spec fn is_ascii_ws(c: char) -> bool {
    c == ' ' || c == '\t' || c == '\n' || c == '\x0C' || c == '\r'
}

/// The length of the longest prefix of `s` without ASCII whitespace.
pub open spec fn word_end(s: Seq<char>) -> nat
    decreases s.len(),
{
    if s.len() == 0 {
        0
    } else if is_ascii_ws(s[0]) {
        0
    } else {
        1 + word_end(s.drop_first())
    }
}

/// The words of `s`: its maximal runs of characters other than ASCII
/// whitespace, in order (`str::split_ascii_whitespace`).
pub open spec fn words(s: Seq<char>) -> Seq<Seq<char>>
    decreases s.len(),
{
    if s.len() == 0 {
        Seq::empty()
    } else if is_ascii_ws(s[0]) {
        words(s.drop_first())
    } else {
        let k = word_end(s) as int;
        proof {
            lemma_word_end_bounds(s);
        }
        seq![s.take(k)] + words(s.skip(k))
    }
}

/// `word_end` ends a word: nothing before it is whitespace, and what stands at
/// it (if anything) is.
pub proof fn lemma_word_end_bounds(s: Seq<char>)
    ensures
        word_end(s) <= s.len(),
        s.len() > 0 && !is_ascii_ws(s[0]) ==> word_end(s) >= 1,
        forall|i: int| 0 <= i < word_end(s) ==> !is_ascii_ws(#[trigger] s[i]),
        word_end(s) < s.len() ==> is_ascii_ws(s[word_end(s) as int]),
    decreases s.len(),
{
    if s.len() > 0 && !is_ascii_ws(s[0]) {
        lemma_word_end_bounds(s.drop_first());
        assert forall|i: int| 0 <= i < word_end(s) implies !is_ascii_ws(#[trigger] s[i]) by {
            if i > 0 {
                assert(s[i] == s.drop_first()[i - 1]);
            }
        }
    }
}

/// A run of characters other than whitespace followed by whitespace (or the
/// end) fixes `word_end`.
pub proof fn lemma_word_end_unique(s: Seq<char>, k: int)
    requires
        0 <= k <= s.len(),
        forall|i: int| 0 <= i < k ==> !is_ascii_ws(#[trigger] s[i]),
        k < s.len() ==> is_ascii_ws(s[k]),
    ensures
        word_end(s) == k,
    decreases s.len(),
{
    if s.len() > 0 && k > 0 {
        let t = s.drop_first();
        assert forall|i: int| 0 <= i < k - 1 implies !is_ascii_ws(#[trigger] t[i]) by {
            assert(t[i] == s[i + 1]);
        }
        lemma_word_end_unique(t, k - 1);
    }
}

/// A string without whitespace that is not empty is a single word; after a
/// space, the rest's words.
pub proof fn lemma_words_of_word_then(w: Seq<char>, rest: Seq<char>)
    requires
        w.len() > 0,
        forall|i: int| 0 <= i < w.len() ==> !is_ascii_ws(#[trigger] w[i]),
        rest.len() == 0 || is_ascii_ws(rest[0]),
    ensures
        words(w + rest) == seq![w] + words(rest),
{
    let s = w + rest;
    assert forall|i: int| 0 <= i < w.len() implies !is_ascii_ws(#[trigger] s[i]) by {
        assert(s[i] == w[i]);
    }
    if rest.len() > 0 {
        assert(s[w.len() as int] == rest[0]);
    }
    lemma_word_end_unique(s, w.len() as int);
    assert(s.take(w.len() as int) =~= w);
    assert(s.skip(w.len() as int) =~= rest);
}

/// A leading whitespace character is skipped.
pub proof fn lemma_words_skip_ws(c: char, rest: Seq<char>)
    requires
        is_ascii_ws(c),
    ensures
        words(seq![c] + rest) == words(rest),
{
    assert((seq![c] + rest).drop_first() =~= rest);
}

/// The words of a string that has no whitespace and is not empty.
pub proof fn lemma_words_single(w: Seq<char>)
    requires
        w.len() > 0,
        forall|i: int| 0 <= i < w.len() ==> !is_ascii_ws(#[trigger] w[i]),
    ensures
        words(w) == seq![w],
{
    lemma_words_of_word_then(w, Seq::empty());
    assert(w + Seq::<char>::empty() =~= w);
    assert(words(Seq::<char>::empty()) =~= Seq::<Seq<char>>::empty());
    assert(seq![w] + Seq::<Seq<char>>::empty() =~= seq![w]);
}

/// The (start, end) positions of the words of `s`, as `split_ascii_whitespace`
/// yields them.
pub fn word_ranges(s: &Vec<char>) -> (r: Vec<(usize, usize)>)
    ensures
        r@.len() == words(s@).len(),
        forall|i: int|
            0 <= i < r@.len() ==> (#[trigger] r@[i]).0 <= r@[i].1 <= s@.len() && s@.subrange(
                r@[i].0 as int,
                r@[i].1 as int,
            ) == words(s@)[i],
{
    let mut r: Vec<(usize, usize)> = Vec::new();
    let mut i: usize = 0;
    let n = s.len();
    proof {
        let f = |p: (usize, usize)| s@.subrange(p.0 as int, p.1 as int);
        assert(s@.skip(0) =~= s@);
        assert(r@.map_values(f) =~= Seq::<Seq<char>>::empty());
        assert(r@.map_values(f) + words(s@) =~= words(s@));
    }
    while i < n
        invariant
            n == s@.len(),
            i <= n,
            words(s@) == r@.map_values(|p: (usize, usize)| s@.subrange(p.0 as int, p.1 as int))
                + words(s@.skip(i as int)),
            forall|k: int| 0 <= k < r@.len() ==> (#[trigger] r@[k]).0 <= r@[k].1 <= i,
        decreases n - i,
    {
        let ghost rest = s@.skip(i as int);
        if s[i] == ' ' || s[i] == '\t' || s[i] == '\n' || s[i] == '\x0C' || s[i] == '\r' {
            assert(rest.drop_first() =~= s@.skip(i + 1));
            i = i + 1;
        } else {
            let start = i;
            while i < n && !(s[i] == ' ' || s[i] == '\t' || s[i] == '\n' || s[i] == '\x0C' || s[i] == '\r')
                invariant
                    n == s@.len(),
                    start <= i <= n,
                    forall|k: int| start <= k < i ==> !is_ascii_ws(#[trigger] s@[k]),
                decreases n - i,
            {
                i = i + 1;
            }
            proof {
                let w = s@.subrange(start as int, i as int);
                assert forall|k: int| 0 <= k < i - start implies !is_ascii_ws(#[trigger] rest[k]) by {
                    assert(rest[k] == s@[start + k]);
                }
                if i < n {
                    assert(rest[i - start] == s@[i as int]);
                }
                lemma_word_end_unique(rest, i - start);
                assert(rest.take(i - start) =~= w);
                assert(rest.skip(i - start) =~= s@.skip(i as int));
            }
            let ghost before = r@;
            r.push((start, i));
            proof {
                let f = |p: (usize, usize)| s@.subrange(p.0 as int, p.1 as int);
                assert(r@.map_values(f) =~= before.map_values(f).push(s@.subrange(start as int, i as int)));
                assert(before.map_values(f) + (seq![s@.subrange(start as int, i as int)] + words(s@.skip(i as int)))
                    =~= r@.map_values(f) + words(s@.skip(i as int)));
            }
        }
    }
    proof {
        let f = |p: (usize, usize)| s@.subrange(p.0 as int, p.1 as int);
        assert(s@.skip(n as int) =~= Seq::<char>::empty());
        assert(words(s@) =~= r@.map_values(f));
        assert forall|k: int| 0 <= k < r@.len() implies s@.subrange(
            (#[trigger] r@[k]).0 as int,
            r@[k].1 as int,
        ) == words(s@)[k] by {
            assert(r@.map_values(f)[k] == f(r@[k]));
        }
    }
    r
}

} // verus!
