//! Byte-string helpers: literal search and decimal rendering.

use vstd::prelude::*;
use vstd::string::StringSliceAdditionalSpecFns;

verus! {

/// `needle` stands in `hay` at offset `i`.
pub open spec fn occurs_at(hay: Seq<u8>, needle: Seq<u8>, i: int) -> bool {
    &&& 0 <= i
    &&& i + needle.len() <= hay.len()
    &&& hay.subrange(i, i + needle.len()) =~= needle
}

/// `needle` stands somewhere in `hay`.
pub open spec fn contains(hay: Seq<u8>, needle: Seq<u8>) -> bool {
    exists|i: int| occurs_at(hay, needle, i)
}

/// `i` is the leftmost offset at which `needle` stands in `hay`.
pub open spec fn is_first_occurrence(hay: Seq<u8>, needle: Seq<u8>, i: int) -> bool {
    &&& occurs_at(hay, needle, i)
    &&& forall|j: int| 0 <= j < i ==> !occurs_at(hay, needle, j)
}

/// The leftmost offset of `needle` in `hay`, if it occurs at all.
pub open spec fn first_occurrence(hay: Seq<u8>, needle: Seq<u8>) -> Option<int> {
    if exists|i: int| is_first_occurrence(hay, needle, i) {
        Some(choose|i: int| is_first_occurrence(hay, needle, i))
    } else {
        None
    }
}

/// A leftmost occurrence is the only leftmost occurrence.
pub proof fn lemma_first_occurrence_unique(hay: Seq<u8>, needle: Seq<u8>, i: int)
    requires
        is_first_occurrence(hay, needle, i),
    ensures
        first_occurrence(hay, needle) == Some(i),
{
    let c = choose|k: int| is_first_occurrence(hay, needle, k);
    assert(is_first_occurrence(hay, needle, c));
    if c < i {
        assert(!occurs_at(hay, needle, c));
    }
    if i < c {
        assert(!occurs_at(hay, needle, i));
    }
}

/// Where nothing occurs there is no leftmost occurrence, and the other way round.
pub proof fn lemma_first_occurrence_none(hay: Seq<u8>, needle: Seq<u8>)
    ensures
        first_occurrence(hay, needle) is None <==> !contains(hay, needle),
{
    if contains(hay, needle) {
        let w = choose|i: int| occurs_at(hay, needle, i);
        lemma_leftmost_exists(hay, needle, w);
    }
}

/// Below any occurrence there is a leftmost one.
proof fn lemma_leftmost_exists(hay: Seq<u8>, needle: Seq<u8>, w: int)
    requires
        occurs_at(hay, needle, w),
    ensures
        exists|i: int| is_first_occurrence(hay, needle, i),
    decreases w,
{
    if exists|j: int| 0 <= j < w && occurs_at(hay, needle, j) {
        let j = choose|j: int| 0 <= j < w && occurs_at(hay, needle, j);
        lemma_leftmost_exists(hay, needle, j);
    } else {
        assert(is_first_occurrence(hay, needle, w));
    }
}

/// Tells whether `needle` stands in `hay` at offset `at`.
pub fn matches_at(hay: &[u8], needle: &[u8], at: usize) -> (found: bool)
    requires
        at + needle@.len() <= hay@.len(),
    ensures
        found == occurs_at(hay@, needle@, at as int),
{
    let n: usize = needle.len();
    let h: usize = hay.len();
    let mut k: usize = 0;
    while k < n
        invariant
            n == needle@.len(),
            h == hay@.len(),
            at + n <= hay@.len(),
            k <= n,
            forall|j: int| 0 <= j < k ==> hay@[at + j] == needle@[j],
        decreases n - k,
    {
        if hay[at + k] != needle[k] {
            proof {
                assert(hay@.subrange(at as int, at + n)[k as int] == hay@[at + k]);
            }
            return false;
        }
        k += 1;
    }
    proof {
        assert(hay@.subrange(at as int, at + n) =~= needle@);
    }
    true
}

/// The leftmost offset at which `needle` stands in `hay`; an empty `needle`
/// stands at offset 0.
pub fn find(hay: &[u8], needle: &[u8]) -> (found: Option<usize>)
    ensures
        match found {
            Some(at) => first_occurrence(hay@, needle@) == Some(at as int) && at + needle@.len()
                <= hay@.len(),
            None => first_occurrence(hay@, needle@) is None,
        },
        found is Some <==> contains(hay@, needle@),
{
    proof {
        lemma_first_occurrence_none(hay@, needle@);
    }
    if needle.len() > hay.len() {
        return None;
    }
    let last: usize = hay.len() - needle.len();
    let mut i: usize = 0;
    loop
        invariant
            last + needle@.len() == hay@.len(),
            i <= last,
            forall|j: int| 0 <= j < i ==> !occurs_at(hay@, needle@, j),
        decreases last - i,
    {
        if matches_at(hay, needle, i) {
            proof {
                lemma_first_occurrence_unique(hay@, needle@, i as int);
            }
            return Some(i);
        }
        if i == last {
            return None;
        }
        i += 1;
    }
}

/// Tells whether two texts are the same, character for character.
pub fn same_text(left: &str, right: &str) -> (same: bool)
    ensures
        same == (left@ == right@),
{
    let a: &[u8] = left.as_bytes();
    let b: &[u8] = right.as_bytes();
    proof {
        broadcast use vstd::utf8::encode_utf8_decode_utf8;

        assert(vstd::utf8::decode_utf8(left.spec_bytes()) == left@);
        assert(vstd::utf8::decode_utf8(right.spec_bytes()) == right@);
    }
    if a.len() != b.len() {
        return false;
    }
    let same = matches_at(a, b, 0);
    proof {
        assert(a@.subrange(0, a@.len() as int) =~= a@);
    }
    same
}

/// The decimal digits of `n`, most significant first, as ASCII.
pub open spec fn digits(n: nat) -> Seq<u8>
    decreases n,
{
    if n < 10 {
        seq![(48 + n) as u8]
    } else {
        digits(n / 10).push((48 + n % 10) as u8)
    }
}

/// The decimal rendering of `v` as ASCII, with a leading `-` below zero.
pub open spec fn decimal(v: int) -> Seq<u8> {
    if v < 0 {
        seq![45u8] + digits((-v) as nat)
    } else {
        digits(v as nat)
    }
}

/// Appends the decimal digits of `n` to `out`.
pub fn push_digits(out: &mut Vec<u8>, n: u32)
    ensures
        final(out)@ == old(out)@ + digits(n as nat),
    decreases n,
{
    if n >= 10 {
        push_digits(out, n / 10);
    }
    let d: u8 = (n % 10) as u8;
    out.push(48 + d);
    proof {
        assert(out@ =~= old(out)@ + digits(n as nat));
    }
}

/// Appends the decimal rendering of `v` to `out`.
pub fn push_decimal(out: &mut Vec<u8>, v: i32)
    ensures
        final(out)@ == old(out)@ + decimal(v as int),
{
    if v < 0 {
        out.push(45);
        let wide: i64 = v as i64;
        let magnitude: u32 = (0 - wide) as u32;
        push_digits(out, magnitude);
        proof {
            assert(out@ =~= old(out)@ + decimal(v as int));
        }
    } else {
        push_digits(out, v as u32);
    }
}

/// Appends the bytes of `bytes` from offset `start` up to, not including,
/// offset `end` to `out`.
pub fn push_range(out: &mut Vec<u8>, bytes: &[u8], start: usize, end: usize)
    requires
        start <= end <= bytes@.len(),
    ensures
        final(out)@ == old(out)@ + bytes@.subrange(start as int, end as int),
{
    let mut i: usize = start;
    while i < end
        invariant
            start <= i <= end <= bytes@.len(),
            out@ =~= old(out)@ + bytes@.subrange(start as int, i as int),
        decreases end - i,
    {
        out.push(bytes[i]);
        i += 1;
    }
}

/// `text` with its leftmost occurrence of `from` replaced by `to`; `text`
/// itself where `from` does not occur.
pub open spec fn replaced_first(text: Seq<u8>, from: Seq<u8>, to: Seq<u8>) -> Seq<u8> {
    match first_occurrence(text, from) {
        Some(i) => text.subrange(0, i) + to + text.subrange(i + from.len(), text.len() as int),
        None => text,
    }
}

/// Copies `text`, replacing its leftmost occurrence of `from` by `to`.
pub fn replace_first(text: &[u8], from: &[u8], to: &[u8]) -> (out: Vec<u8>)
    ensures
        out@ == replaced_first(text@, from@, to@),
{
    let mut out: Vec<u8> = Vec::new();
    let total: usize = text.len();
    match find(text, from) {
        Some(at) => {
            push_range(&mut out, text, 0, at);
            push_range(&mut out, to, 0, to.len());
            push_range(&mut out, text, at + from.len(), total);
            proof {
                assert(to@.subrange(0, to@.len() as int) =~= to@);
                assert(out@ =~= replaced_first(text@, from@, to@));
            }
        },
        None => {
            push_range(&mut out, text, 0, total);
            proof {
                assert(text@.subrange(0, text@.len() as int) =~= text@);
                assert(out@ =~= text@);
            }
        },
    }
    out
}

} // verus!
