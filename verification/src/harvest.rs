//! The Base64 harvester: collects the non-overlapping runs of at least 50
//! Base64-alphabet bytes bounded by word breaks, in order of appearance,
//! concatenated with no separator.

use vstd::prelude::*;
use vstd::slice::{slice_subrange, slice_to_vec};

use crate::text::{boundary, boundary_at};

verus! {

/// A byte of the Base64 alphabet as harvested: letters, digits, `+`, `/`,
/// and `=`.
pub open spec fn is_b64_byte(b: u8) -> bool {
    (65 <= b <= 90) || (97 <= b <= 122) || (48 <= b <= 57) || b == 43 || b == 47 || b == 61
}

/// The end of the maximal run of Base64-alphabet bytes starting at `p`.
pub open spec fn b64_run_end(t: Seq<u8>, p: int) -> int
    decreases t.len() - p,
{
    if p < t.len() && is_b64_byte(t[p]) {
        b64_run_end(t, p + 1)
    } else {
        p
    }
}

proof fn lemma_b64_run_end_bounds(t: Seq<u8>, p: int)
    requires
        0 <= p <= t.len(),
    ensures
        p <= b64_run_end(t, p) <= t.len(),
    decreases t.len() - p,
{
    if p < t.len() && is_b64_byte(t[p]) {
        lemma_b64_run_end_bounds(t, p + 1);
    }
}

/// The largest end position at most `j` that closes a run started at `i`:
/// at least 50 bytes long and ending on a word break. The run is consumed
/// greedily, backing off from its maximal end until a word break is found.
pub open spec fn b64_back_end(t: Seq<u8>, i: int, j: int) -> Option<int>
    decreases j - i,
{
    if j - i < 50 {
        None
    } else if boundary_at(t, j) {
        Some(j)
    } else {
        b64_back_end(t, i, j - 1)
    }
}

/// The length of the Base64 run matched at `i`, if any: a word break
/// before `i`, an alphabet byte at `i`, and the longest extent of at
/// least 50 alphabet bytes that ends on a word break.
pub open spec fn b64_match_at(t: Seq<u8>, i: int) -> Option<int> {
    if boundary_at(t, i) && 0 <= i < t.len() && is_b64_byte(t[i]) {
        match b64_back_end(t, i, b64_run_end(t, i)) {
            Some(j) => Some(j - i),
            None => None,
        }
    } else {
        None
    }
}

/// The concatenation of the Base64 runs found scanning left to right from
/// position `i`, taking the leftmost match and continuing after it.
pub open spec fn spec_harvest_from(t: Seq<u8>, i: int) -> Seq<u8>
    decreases t.len() - i,
{
    if i < 0 || i >= t.len() {
        Seq::empty()
    } else {
        match b64_match_at(t, i) {
            Some(k) => {
                let step = if k < 1 {
                    1
                } else if i + k > t.len() {
                    t.len() - i
                } else {
                    k
                };
                t.subrange(i, i + step) + spec_harvest_from(t, i + step)
            },
            None => spec_harvest_from(t, i + 1),
        }
    }
}

/// The concatenated Base64 runs of `t`.
pub open spec fn spec_harvest(t: Seq<u8>) -> Seq<u8> {
    spec_harvest_from(t, 0)
}

/// Decide whether a byte belongs to the harvested Base64 alphabet.
fn is_b64(b: u8) -> (r: bool)
    ensures
        r == is_b64_byte(b),
{
    (65 <= b && b <= 90) || (97 <= b && b <= 122) || (48 <= b && b <= 57) || b == 43 || b == 47
        || b == 61
}

/// Find the end of the maximal Base64-alphabet run starting at `p`.
fn b64_run_end_exec(t: &[u8], p: usize) -> (e: usize)
    requires
        p <= t@.len(),
    ensures
        e as int == b64_run_end(t@, p as int),
        p <= e <= t@.len(),
{
    let mut e = p;
    while e < t.len() && is_b64(t[e])
        invariant
            p <= e <= t@.len(),
            b64_run_end(t@, p as int) == b64_run_end(t@, e as int),
        decreases t@.len() - e,
    {
        e = e + 1;
    }
    e
}

/// Find the Base64 run starting at `i`, if any, returning its length.
fn b64_match_at_exec(t: &[u8], i: usize) -> (m: Option<usize>)
    requires
        i < t@.len(),
    ensures
        match m {
            Some(k) => b64_match_at(t@, i as int) == Some(k as int) && 50 <= k && i + k
                <= t@.len(),
            None => b64_match_at(t@, i as int) is None,
        },
{
    if !boundary(t, i) || !is_b64(t[i]) {
        return None;
    }
    let run_end = b64_run_end_exec(t, i);
    let mut j = run_end;
    while j - i >= 50
        invariant
            i < t@.len(),
            boundary_at(t@, i as int),
            is_b64_byte(t@[i as int]),
            i <= j <= t@.len(),
            run_end as int == b64_run_end(t@, i as int),
            b64_back_end(t@, i as int, run_end as int) == b64_back_end(t@, i as int, j as int),
        decreases j,
    {
        if boundary(t, j) {
            return Some(j - i);
        }
        j = j - 1;
    }
    None
}

/// Collect the Base64 runs of `content`, concatenated in order of
/// appearance with no separator.
pub fn encode_base64_text(content: &[u8]) -> (r: Vec<u8>)
    ensures
        r@ == spec_harvest(content@),
{
    let mut r: Vec<u8> = Vec::new();
    let mut i: usize = 0;
    while i < content.len()
        invariant
            i <= content@.len(),
            spec_harvest(content@) == r@ + spec_harvest_from(content@, i as int),
        decreases content@.len() - i,
    {
        match b64_match_at_exec(content, i) {
            Some(k) => {
                let mut piece = slice_to_vec(slice_subrange(content, i, i + k));
                r.append(&mut piece);
                i = i + k;
            },
            None => {
                i = i + 1;
            },
        }
    }
    proof {
        assert(r@ + spec_harvest_from(content@, content@.len() as int) =~= r@);
    }
    r
}

} // verus!
