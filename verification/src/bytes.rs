//! Big-endian integers in the byte packets exchanged with the game.
use vstd::prelude::*;

verus! {

/// The unsigned number that the bytes `s` denote, most significant byte first.
pub open spec fn be_value(s: Seq<u8>) -> nat
    decreases s.len(),
{
    if s.len() == 0 {
        0
    } else {
        be_value(s.drop_last()) * 256 + s.last() as nat
    }
}

pub open spec fn pow256(n: nat) -> nat
    decreases n,
{
    if n == 0 {
        1
    } else {
        256 * pow256((n - 1) as nat)
    }
}

/// The two bytes of `x`, most significant first (`u16::to_be_bytes`).
pub open spec fn be16(x: u16) -> Seq<u8> {
    seq![(x / 256) as u8, (x % 256) as u8]
}

/// The four bytes of `x`, most significant first (`u32::to_be_bytes`).
pub open spec fn be32(x: u32) -> Seq<u8> {
    seq![
        (x / 0x100_0000) as u8,
        ((x / 0x1_0000) % 256) as u8,
        ((x / 256) % 256) as u8,
        (x % 256) as u8,
    ]
}

/// A big-endian number of `n` bytes is below `256^n`.
pub proof fn lemma_be_value_bound(s: Seq<u8>)
    ensures
        be_value(s) < pow256(s.len()),
    decreases s.len(),
{
    if s.len() > 0 {
        lemma_be_value_bound(s.drop_last());
        let p = be_value(s.drop_last());
        let q = pow256((s.len() - 1) as nat);
        let b = s.last() as nat;
        assert(p * 256 + b < 256 * q) by (nonlinear_arith)
            requires
                p < q,
                b < 256,
        ;
    }
}

/// Eight bytes hold numbers below `2^64`.
pub proof fn lemma_pow256_8()
    ensures
        pow256(8) == 0x1_0000_0000_0000_0000,
{
    reveal_with_fuel(pow256, 9);
}

/// Reads `buf[start..start + len]` as a big-endian unsigned integer
/// (`u16::from_be_bytes`, `u64::from_be_bytes`).
pub fn read_be(buf: &[u8], start: usize, len: usize) -> (r: u64)
    requires
        len <= 8,
        start + len <= buf.len(),
    ensures
        r as nat == be_value(buf@.subrange(start as int, start + len)),
{
    let mut acc: u64 = 0;
    let mut i: usize = 0;
    let ghost s = buf@.subrange(start as int, start + len);
    while i < len
        invariant
            len <= 8,
            start + len <= buf.len(),
            s == buf@.subrange(start as int, start + len),
            i <= len,
            acc as nat == be_value(s.take(i as int)),
        decreases len - i,
    {
        proof {
            lemma_be_value_bound(s.take(i as int));
            lemma_be_value_bound(s.take(i + 1));
            lemma_pow256_8();
            assert(s.take(i + 1).drop_last() =~= s.take(i as int));
            assert(pow256((i + 1) as nat) <= pow256(8)) by {
                lemma_pow256_mono((i + 1) as nat, 8);
            }
        }
        let b = buf[start + i];
        assert(s.take(i + 1).last() == b);
        acc = acc * 256 + b as u64;
        i = i + 1;
    }
    assert(s.take(len as int) =~= s);
    acc
}

/// Reads `buf[start..start + 2]` as a big-endian `u16` (`u16::from_be_bytes`).
pub fn read_be16(buf: &[u8], start: usize) -> (r: u16)
    requires
        start + 2 <= buf.len(),
    ensures
        r as nat == be_value(buf@.subrange(start as int, start + 2)),
{
    let v = read_be(buf, start, 2);
    proof {
        lemma_be_value_bound(buf@.subrange(start as int, start + 2));
        reveal_with_fuel(pow256, 3);
    }
    v as u16
}

/// More bytes hold larger numbers.
pub proof fn lemma_pow256_mono(a: nat, b: nat)
    requires
        a <= b,
    ensures
        pow256(a) <= pow256(b),
    decreases b - a,
{
    if a < b {
        lemma_pow256_mono(a, (b - 1) as nat);
    }
}

/// Reading back the bytes of a `u16` gives the `u16`.
pub proof fn lemma_be16_roundtrip(x: u16)
    ensures
        be_value(be16(x)) == x,
{
    let s = be16(x);
    assert(s.drop_last().drop_last() =~= Seq::<u8>::empty());
    assert(be_value(Seq::<u8>::empty()) == 0);
    assert(be_value(s.drop_last()) == (x / 256) as nat);
}

/// Reading back the bytes of a `u32` gives the `u32`.
pub proof fn lemma_be32_roundtrip(x: u32)
    ensures
        be_value(be32(x)) == x,
{
    let s = be32(x);
    let s3 = s.drop_last();
    let s2 = s3.drop_last();
    let s1 = s2.drop_last();
    let v = x as int;
    assert(s1.drop_last() =~= Seq::<u8>::empty());
    assert(be_value(Seq::<u8>::empty()) == 0);
    assert(be_value(s1) == (x / 0x100_0000) as nat);
    assert((v / 0x100_0000) * 256 + (v / 0x1_0000) % 256 == v / 0x1_0000) by (nonlinear_arith)
        requires
            v >= 0,
    ;
    assert((v / 0x1_0000) * 256 + (v / 256) % 256 == v / 256) by (nonlinear_arith)
        requires
            v >= 0,
    ;
    assert((v / 256) * 256 + v % 256 == v) by (nonlinear_arith)
        requires
            v >= 0,
    ;
    assert(be_value(s2) == (x / 0x1_0000) as nat);
    assert(be_value(s3) == (x / 256) as nat);
}

/// The bytes of a `u16`, most significant first.
pub fn u16_to_be(x: u16) -> (r: [u8; 2])
    ensures
        r@ == be16(x),
{
    let r = [(x / 256) as u8, (x % 256) as u8];
    assert(r@ =~= be16(x));
    r
}

/// The bytes of a `u32`, most significant first.
pub fn u32_to_be(x: u32) -> (r: [u8; 4])
    ensures
        r@ == be32(x),
{
    let r = [(x / 0x100_0000) as u8, ((x / 0x1_0000) % 256) as u8, ((x / 256) % 256) as u8, (x % 256) as u8];
    assert(r@ =~= be32(x));
    r
}

/// Bytes are read most significant first: two bytes `a, b` are `256a + b`,
/// and four bytes `a, b, c, d` are `2^24 a + 2^16 b + 2^8 c + d`.
pub proof fn lemma_be_value_most_significant_first(a: u8, b: u8, c: u8, d: u8)
    ensures
        be_value(seq![a, b]) == a * 256 + b,
        be_value(seq![a, b, c, d]) == a * 0x100_0000 + b * 0x1_0000 + c * 256 + d,
{
    let s2 = seq![a, b];
    assert(s2.drop_last() =~= seq![a]);
    assert(seq![a].drop_last().len() == 0);
    assert(seq![a].drop_last() =~= Seq::<u8>::empty());
    assert(be_value(Seq::<u8>::empty()) == 0);
    assert(seq![a].last() == a);
    assert(be_value(seq![a]) == a);
    assert(s2.last() == b);
    assert(be_value(s2) == a * 256 + b);
    let s3 = seq![a, b, c];
    assert(s3.drop_last() =~= s2);
    assert(s3.last() == c);
    assert(be_value(s3) == (a * 256 + b) * 256 + c);
    let s4 = seq![a, b, c, d];
    assert(s4.drop_last() =~= s3);
    assert(s4.last() == d);
    assert(be_value(s4) == ((a * 256 + b) * 256 + c) * 256 + d);
    assert(((a * 256 + b) * 256 + c) * 256 + d == a * 0x100_0000 + b * 0x1_0000 + c * 256 + d) by (nonlinear_arith);
}

} // verus!
