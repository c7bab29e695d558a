//! The hex obfuscation detector: counts hexadecimal tokens — `0x`-prefixed
//! integers, `#`-prefixed six-digit colour codes, and bare eight-digit
//! tokens, each bounded by word breaks — and scores their volume as one
//! aggregate finding.

use vstd::prelude::*;

use crate::finding::{DetectedVulnerability, Finding, VulnerabilityType, findings_of};
use crate::text::{boundary, boundary_at, bytes_of, dec_bytes, dec_digits, text_of};

verus! {

/// An ASCII hexadecimal digit, either case.
pub open spec fn is_hex_digit(b: u8) -> bool {
    (48 <= b <= 57) || (97 <= b <= 102) || (65 <= b <= 70)
}

/// The end of the maximal run of hexadecimal digits starting at `p`.
pub open spec fn hex_run_end(t: Seq<u8>, p: int) -> int
    decreases t.len() - p,
{
    if p < t.len() && is_hex_digit(t[p]) {
        hex_run_end(t, p + 1)
    } else {
        p
    }
}

proof fn lemma_hex_run_end_bounds(t: Seq<u8>, p: int)
    requires
        0 <= p <= t.len(),
    ensures
        p <= hex_run_end(t, p) <= t.len(),
    decreases t.len() - p,
{
    if p < t.len() && is_hex_digit(t[p]) {
        lemma_hex_run_end_bounds(t, p + 1);
    }
}

/// Every byte in `t[a..b)` is a hexadecimal digit.
pub open spec fn all_hex(t: Seq<u8>, a: int, b: int) -> bool {
    forall|j: int| a <= j < b ==> is_hex_digit(t[j])
}

/// A `0x`-prefixed hexadecimal integer starting at `i`: a word break, `0x`
/// or `0X`, at least one digit, and a word break after the maximal digit
/// run. Yields the token's length.
pub open spec fn hex_alt_prefixed(t: Seq<u8>, i: int) -> Option<int> {
    if boundary_at(t, i) && i + 3 <= t.len() && t[i] == 48 && (t[i + 1] == 120 || t[i + 1] == 88)
        && is_hex_digit(t[i + 2]) && boundary_at(t, hex_run_end(t, i + 2)) {
        Some(hex_run_end(t, i + 2) - i)
    } else {
        None
    }
}

/// A colour code starting at `i`: a word break, `#`, exactly six
/// hexadecimal digits, and a word break after them.
pub open spec fn hex_alt_color(t: Seq<u8>, i: int) -> Option<int> {
    if boundary_at(t, i) && i + 7 <= t.len() && t[i] == 35 && all_hex(t, i + 1, i + 7)
        && boundary_at(t, i + 7) {
        Some(7)
    } else {
        None
    }
}

/// A bare token of exactly eight hexadecimal digits bounded by word breaks.
pub open spec fn hex_alt_bare(t: Seq<u8>, i: int) -> Option<int> {
    if boundary_at(t, i) && i + 8 <= t.len() && all_hex(t, i, i + 8) && boundary_at(t, i + 8) {
        Some(8)
    } else {
        None
    }
}

/// The hexadecimal token starting at `i`, if any, with the alternatives
/// tried in pattern order.
pub open spec fn hex_match_at(t: Seq<u8>, i: int) -> Option<int> {
    if hex_alt_prefixed(t, i) is Some {
        hex_alt_prefixed(t, i)
    } else if hex_alt_color(t, i) is Some {
        hex_alt_color(t, i)
    } else {
        hex_alt_bare(t, i)
    }
}

/// The number of hexadecimal tokens found scanning left to right from
/// position `i`, taking the leftmost match and continuing after it.
pub open spec fn spec_hex_count_from(t: Seq<u8>, i: int) -> nat
    decreases t.len() - i,
{
    if i < 0 || i >= t.len() {
        0
    } else {
        match hex_match_at(t, i) {
            Some(k) => {
                let step = if k < 1 {
                    1
                } else if i + k > t.len() {
                    t.len() - i
                } else {
                    k
                };
                1 + spec_hex_count_from(t, i + step)
            },
            None => spec_hex_count_from(t, i + 1),
        }
    }
}

/// The number of hexadecimal tokens in `t`.
pub open spec fn spec_hex_count(t: Seq<u8>) -> nat {
    spec_hex_count_from(t, 0)
}

/// Decide whether a byte is a hexadecimal digit.
fn is_hex(b: u8) -> (r: bool)
    ensures
        r == is_hex_digit(b),
{
    (48 <= b && b <= 57) || (97 <= b && b <= 102) || (65 <= b && b <= 70)
}

/// Find the end of the maximal hexadecimal-digit run starting at `p`.
fn hex_run_end_exec(t: &[u8], p: usize) -> (e: usize)
    requires
        p <= t@.len(),
    ensures
        e as int == hex_run_end(t@, p as int),
        p <= e <= t@.len(),
{
    let mut e = p;
    while e < t.len() && is_hex(t[e])
        invariant
            p <= e <= t@.len(),
            hex_run_end(t@, p as int) == hex_run_end(t@, e as int),
        decreases t@.len() - e,
    {
        e = e + 1;
    }
    e
}

/// Every byte in `t[a..b)` is a hexadecimal digit.
fn all_hex_exec(t: &[u8], a: usize, b: usize) -> (r: bool)
    requires
        a <= b <= t@.len(),
    ensures
        r == all_hex(t@, a as int, b as int),
{
    let mut j = a;
    while j < b
        invariant
            a <= j <= b <= t@.len(),
            forall|k: int| a <= k < j ==> is_hex_digit(t@[k]),
        decreases b - j,
    {
        if !is_hex(t[j]) {
            return false;
        }
        j = j + 1;
    }
    true
}

/// Find the hexadecimal token starting at `i`, if any.
fn hex_match_at_exec(t: &[u8], i: usize) -> (m: Option<usize>)
    requires
        i < t@.len(),
    ensures
        match m {
            Some(k) => hex_match_at(t@, i as int) == Some(k as int) && 1 <= k && i + k <= t@.len(),
            None => hex_match_at(t@, i as int) is None,
        },
{
    if !boundary(t, i) {
        return None;
    }
    if t.len() - i >= 3 && t[i] == 48 && (t[i + 1] == 120 || t[i + 1] == 88) && is_hex(t[i + 2]) {
        let e = hex_run_end_exec(t, i + 2);
        proof {
            lemma_hex_run_end_bounds(t@, i + 3);
        }
        if boundary(t, e) {
            return Some(e - i);
        }
    }
    if t.len() - i >= 7 && t[i] == 35 && all_hex_exec(t, i + 1, i + 7) && boundary(t, i + 7) {
        return Some(7);
    }
    if t.len() - i >= 8 && all_hex_exec(t, i, i + 8) && boundary(t, i + 8) {
        return Some(8);
    }
    None
}

/// Count the hexadecimal tokens in `content`, scanning left to right and
/// skipping over each token found.
pub fn count_hex_values(content: &[u8]) -> (n: usize)
    ensures
        n as nat == spec_hex_count(content@),
{
    let mut count: usize = 0;
    let mut i: usize = 0;
    while i < content.len()
        invariant
            i <= content@.len(),
            count <= i,
            count + spec_hex_count_from(content@, i as int) == spec_hex_count(content@),
        decreases content@.len() - i,
    {
        match hex_match_at_exec(content, i) {
            Some(k) => {
                count = count + 1;
                i = i + k;
            },
            None => {
                i = i + 1;
            },
        }
    }
    count
}

/// The aggregate hex finding on `t`: nothing when no token occurs, a
/// Warning citing the count below ten tokens, and an Alert noting heavy
/// obfuscation from ten tokens on.
pub open spec fn spec_hex_findings(t: Seq<u8>) -> Seq<Finding> {
    let n = spec_hex_count(t);
    if n == 0 {
        Seq::empty()
    } else {
        seq![
            Finding {
                keyword: text_of("0x"),
                keyword_index: 0,
                description: if n < 10 {
                    dec_digits(n) + text_of(" hexadecimal values")
                } else {
                    dec_digits(n) + text_of(
                        " hexadecimal values suggests heavy obfuscation what can hide malware",
                    )
                },
                vulnerability_type: if n < 10 {
                    VulnerabilityType::Warning
                } else {
                    VulnerabilityType::Alert
                },
            },
        ]
    }
}

/// Score the volume of hexadecimal tokens in `content` as zero or one
/// aggregate finding.
pub fn find_suspicious_hex_obfuscation(content: &[u8]) -> (r: Vec<DetectedVulnerability>)
    ensures
        findings_of(r@) == spec_hex_findings(content@),
{
    let hex_counter = count_hex_values(content);
    let mut r: Vec<DetectedVulnerability> = Vec::new();
    if hex_counter > 0 {
        let mut description = dec_bytes(hex_counter);
        let mut suffix = if hex_counter < 10 {
            bytes_of(" hexadecimal values")
        } else {
            bytes_of(" hexadecimal values suggests heavy obfuscation what can hide malware")
        };
        description.append(&mut suffix);
        let vulnerability_type = if hex_counter < 10 {
            VulnerabilityType::Warning
        } else {
            VulnerabilityType::Alert
        };
        r.push(
            DetectedVulnerability {
                keyword: bytes_of("0x"),
                keyword_index: 0,
                description,
                vulnerability_type,
            },
        );
    }
    proof {
        assert(findings_of(r@) =~= spec_hex_findings(content@));
    }
    r
}

} // verus!
