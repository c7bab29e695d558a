//! Byte-level text primitives: ASCII case folding, word boundaries,
//! substring search, and decimal rendering of counts.

use vstd::prelude::*;
use vstd::slice::slice_to_vec;
use vstd::utf8::encode_utf8;

verus! {

/// The UTF-8 bytes of a string literal, used to spell out keywords and
/// descriptions in specifications.
pub open spec fn text_of(s: &str) -> Seq<u8> {
    encode_utf8(s@)
}

/// The UTF-8 bytes of a string, as an owned byte vector.
pub fn bytes_of(s: &str) -> (r: Vec<u8>)
    ensures
        r@ == text_of(s),
{
    slice_to_vec(s.as_bytes())
}

/// ASCII lower-casing of a single byte: `A`..`Z` map to `a`..`z`,
/// every other byte is unchanged.
pub open spec fn lower_byte(b: u8) -> u8 {
    if 65 <= b <= 90 {
        (b + 32) as u8
    } else {
        b
    }
}

/// ASCII lower-casing of a whole byte sequence.
pub open spec fn lower_bytes(s: Seq<u8>) -> Seq<u8> {
    s.map_values(|b: u8| lower_byte(b))
}

/// Lower-case a byte string, folding only ASCII letters.
pub fn to_lower_bytes(s: &[u8]) -> (r: Vec<u8>)
    ensures
        r@ == lower_bytes(s@),
{
    let mut r: Vec<u8> = Vec::new();
    let mut i: usize = 0;
    while i < s.len()
        invariant
            i <= s.len(),
            r@ == lower_bytes(s@.take(i as int)),
        decreases s.len() - i,
    {
        let b = s[i];
        let lb = if 65 <= b && b <= 90 {
            b + 32
        } else {
            b
        };
        r.push(lb);
        proof {
            assert(r@ =~= lower_bytes(s@.take(i + 1 as int)));
        }
        i = i + 1;
    }
    proof {
        assert(s@.take(s@.len() as int) =~= s@);
    }
    r
}

/// A word byte in the sense of word boundaries: an ASCII letter, an ASCII
/// digit, or an underscore.
pub open spec fn is_word_byte(b: u8) -> bool {
    (48 <= b <= 57) || (65 <= b <= 90) || (97 <= b <= 122) || b == 95
}

/// Whether position `i` holds a word byte; positions outside the text count
/// as non-word.
pub open spec fn word_at(s: Seq<u8>, i: int) -> bool {
    0 <= i < s.len() && is_word_byte(s[i])
}

/// A word boundary before position `i`: exactly one of the neighbouring
/// positions `i - 1` and `i` holds a word byte.
pub open spec fn boundary_at(s: Seq<u8>, i: int) -> bool {
    word_at(s, i - 1) != word_at(s, i)
}

/// Decide whether a byte is a word byte.
pub fn is_word(b: u8) -> (r: bool)
    ensures
        r == is_word_byte(b),
{
    (48 <= b && b <= 57) || (65 <= b && b <= 90) || (97 <= b && b <= 122) || b == 95
}

/// Decide whether a word boundary lies before position `i`.
pub fn boundary(s: &[u8], i: usize) -> (r: bool)
    requires
        i <= s@.len(),
    ensures
        r == boundary_at(s@, i as int),
{
    let before = i > 0 && is_word(s[i - 1]);
    let here = i < s.len() && is_word(s[i]);
    before != here
}

/// `needle` occurs in `hay` starting at position `i`.
pub open spec fn matches_at(hay: Seq<u8>, needle: Seq<u8>, i: int) -> bool {
    &&& 0 <= i
    &&& i + needle.len() <= hay.len()
    &&& forall|j: int| 0 <= j < needle.len() ==> hay[i + j] == needle[j]
}

/// The first position at or after `from` where `needle` occurs in `hay`,
/// if any.
pub open spec fn spec_find(hay: Seq<u8>, needle: Seq<u8>, from: int) -> Option<int>
    decreases hay.len() - from,
{
    if from + needle.len() > hay.len() {
        None
    } else if matches_at(hay, needle, from) {
        Some(from)
    } else {
        spec_find(hay, needle, from + 1)
    }
}

/// Find the first occurrence of `needle` in `hay`.
pub fn find_sub(hay: &[u8], needle: &[u8]) -> (r: Option<usize>)
    ensures
        match r {
            Some(i) => spec_find(hay@, needle@, 0) == Some(i as int),
            None => spec_find(hay@, needle@, 0) is None,
        },
{
    if needle.len() > hay.len() {
        proof {
            assert(spec_find(hay@, needle@, 0) is None) by {
                lemma_find_none_beyond(hay@, needle@, 0);
            }
        }
        return None;
    }
    let mut i: usize = 0;
    while i <= hay.len() - needle.len()
        invariant
            needle@.len() <= hay@.len(),
            i <= hay@.len() - needle@.len() + 1,
            spec_find(hay@, needle@, 0) == spec_find(hay@, needle@, i as int),
        decreases hay.len() - i,
    {
        let hay_len = hay.len();
        let mut j: usize = 0;
        let mut all_eq = true;
        while j < needle.len()
            invariant
                hay_len == hay@.len(),
                i + needle@.len() <= hay_len,
                j <= needle@.len(),
                all_eq == forall|k: int| 0 <= k < j ==> hay@[i + k] == needle@[k],
            decreases needle.len() - j,
        {
            if hay[i + j] != needle[j] {
                all_eq = false;
            }
            j = j + 1;
        }
        if all_eq {
            assert(matches_at(hay@, needle@, i as int));
            return Some(i);
        }
        assert(!matches_at(hay@, needle@, i as int));
        i = i + 1;
    }
    proof {
        assert(spec_find(hay@, needle@, i as int) is None) by {
            lemma_find_none_beyond(hay@, needle@, i as int);
        }
    }
    None
}

proof fn lemma_find_none_beyond(hay: Seq<u8>, needle: Seq<u8>, from: int)
    requires
        from + needle.len() > hay.len(),
    ensures
        spec_find(hay, needle, from) is None,
{
}

/// Decide whether two byte strings are equal.
pub fn bytes_eq(a: &[u8], b: &[u8]) -> (r: bool)
    ensures
        r == (a@ == b@),
{
    if a.len() != b.len() {
        return false;
    }
    let mut i: usize = 0;
    while i < a.len()
        invariant
            a@.len() == b@.len(),
            i <= a@.len(),
            forall|k: int| 0 <= k < i ==> a@[k] == b@[k],
        decreases a.len() - i,
    {
        if a[i] != b[i] {
            return false;
        }
        i = i + 1;
    }
    proof {
        assert(a@ =~= b@);
    }
    true
}

/// The decimal digits of `n`, most significant first, as ASCII bytes.
pub open spec fn dec_digits(n: nat) -> Seq<u8>
    decreases n,
{
    if n < 10 {
        seq![(48 + n) as u8]
    } else {
        dec_digits(n / 10).push((48 + n % 10) as u8)
    }
}

/// Render a count in decimal.
pub fn dec_bytes(n: usize) -> (r: Vec<u8>)
    ensures
        r@ == dec_digits(n as nat),
    decreases n,
{
    if n < 10 {
        let mut r: Vec<u8> = Vec::new();
        r.push(48 + n as u8);
        proof {
            assert(r@ =~= dec_digits(n as nat));
        }
        r
    } else {
        let mut r = dec_bytes(n / 10);
        r.push(48 + (n % 10) as u8);
        r
    }
}

} // verus!
