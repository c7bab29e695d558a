//! The recursive scan driver: one pass runs the keyword matcher, the hex
//! detector, and the Base64 harvester, rescans successfully decoded
//! Base64 text as a decoded layer, and finally correlates the accumulated
//! findings. A fixed depth cap bounds the recursion through nested
//! encodings.

use vstd::prelude::*;
use vstd::slice::slice_to_vec;
use vstd::utf8::{encode_utf8, valid_utf8};

use crate::correlate::{find_possible_remote_code_execution, spec_correlate};
use crate::decode::{decode_base64_no_pad, is_valid_utf8, spec_b64_decode};
use crate::finding::{DetectedVulnerability, Finding, VulnerabilityType, findings_of};
use crate::harvest::{encode_base64_text, spec_harvest};
use crate::hex::{find_suspicious_hex_obfuscation, spec_hex_findings};
use crate::matcher::{find_vulnerabilities_by_rules, spec_rule_findings};
use crate::text::{bytes_of, text_of};

verus! {

/// How many nested decoded layers a scan will enter. Beyond it, a Base64
/// run is still reported, but its decoded text is not rescanned.
pub const MAX_DECODE_DEPTH: u32 = 8;

/// The Warning emitted whenever any Base64 run was harvested, whether or
/// not it decodes.
pub open spec fn b64_warning() -> Finding {
    Finding {
        keyword: text_of("base64"),
        keyword_index: 0,
        description: text_of("Found base64 encoded text what may suggest hiding some information"),
        vulnerability_type: VulnerabilityType::Warning,
    }
}

/// The findings of the Base64 stage on `t` with `depth` decode layers
/// left: nothing without a harvested run; otherwise the Base64 Warning,
/// followed — when depth remains and the harvest decodes to UTF-8 text —
/// by the findings of a full decoded-layer scan of that text.
///
/// The decoded-layer escalation and annotation apply to keyword findings
/// only: a decoded layer's own hex aggregate, Base64 Warning, and
/// correlation finding keep their usual severities and descriptions.
pub open spec fn spec_b64_findings(t: Seq<u8>, depth: nat) -> Seq<Finding>
    decreases depth, 0int,
{
    let harvested = spec_harvest(t);
    if harvested.len() == 0 {
        Seq::empty()
    } else {
        seq![b64_warning()] + (if depth > 0 {
            match spec_b64_decode(harvested) {
                Some(decoded) => if valid_utf8(decoded) {
                    spec_scan(decoded, true, (depth - 1) as nat)
                } else {
                    Seq::empty()
                },
                None => Seq::empty(),
            }
        } else {
            Seq::empty()
        })
    }
}

/// One full scan pass over `t`: keyword findings, then the hex aggregate,
/// then the Base64 stage with everything it produced recursively, then
/// the correlation over all of them.
pub open spec fn spec_scan(t: Seq<u8>, decoded: bool, depth: nat) -> Seq<Finding>
    decreases depth, 1int,
{
    let base = spec_rule_findings(t, decoded) + spec_hex_findings(t) + spec_b64_findings(t, depth);
    base + spec_correlate(base)
}

/// Scan a byte buffer with `depth` decode layers left.
pub fn scan(code: &[u8], is_base64_decoded: bool, depth: u32) -> (r: Vec<DetectedVulnerability>)
    ensures
        findings_of(r@) == spec_scan(code@, is_base64_decoded, depth as nat),
    decreases depth, 1int,
{
    let mut vulnerabilities = find_vulnerabilities_by_rules(code, is_base64_decoded);
    let mut hex_findings = find_suspicious_hex_obfuscation(code);
    vulnerabilities.append(&mut hex_findings);
    let mut b64_findings = find_vulnerabilities_in_base64_text(code, depth);
    vulnerabilities.append(&mut b64_findings);
    proof {
        assert(findings_of(vulnerabilities@) =~= spec_rule_findings(code@, is_base64_decoded)
            + spec_hex_findings(code@) + spec_b64_findings(code@, depth as nat));
    }
    let mut correlation = find_possible_remote_code_execution(&vulnerabilities);
    vulnerabilities.append(&mut correlation);
    proof {
        assert(findings_of(vulnerabilities@) =~= spec_scan(
            code@,
            is_base64_decoded,
            depth as nat,
        ));
    }
    vulnerabilities
}

/// Run the Base64 stage on `content` with `depth` decode layers left:
/// harvest the runs, report them, and — when the concatenation decodes to
/// UTF-8 text — scan that text as a decoded layer. A failed decode keeps
/// the Warning and skips the rescan.
pub fn find_vulnerabilities_in_base64_text(content: &[u8], depth: u32) -> (r: Vec<
    DetectedVulnerability,
>)
    ensures
        findings_of(r@) == spec_b64_findings(content@, depth as nat),
    decreases depth, 0int,
{
    let harvested = encode_base64_text(content);
    let mut out: Vec<DetectedVulnerability> = Vec::new();
    if harvested.len() > 0 {
        out.push(
            DetectedVulnerability {
                keyword: bytes_of("base64"),
                keyword_index: 0,
                description: bytes_of(
                    "Found base64 encoded text what may suggest hiding some information",
                ),
                vulnerability_type: VulnerabilityType::Warning,
            },
        );
        if depth > 0 {
            match decode_base64_no_pad(harvested.as_slice()) {
                Some(decoded) => {
                    if is_valid_utf8(decoded.as_slice()) {
                        let mut nested = scan(decoded.as_slice(), true, depth - 1);
                        out.append(&mut nested);
                    }
                },
                None => {},
            }
        }
    }
    proof {
        assert(findings_of(out@) =~= spec_b64_findings(content@, depth as nat));
    }
    out
}

/// Scan a piece of source text for suspected malicious behaviors. The
/// result is deterministic in the text: it models exactly
/// [`spec_scan`] over the text's UTF-8 bytes, at the standard depth cap.
pub fn find_vulnerabilities_in_the_javascript_code(code: String, is_base64_decoded: bool) -> (r:
    Vec<DetectedVulnerability>)
    ensures
        findings_of(r@) == spec_scan(
            encode_utf8(code@),
            is_base64_decoded,
            MAX_DECODE_DEPTH as nat,
        ),
{
    let bytes = slice_to_vec(code.as_str().as_bytes());
    scan(bytes.as_slice(), is_base64_decoded, MAX_DECODE_DEPTH)
}

} // verus!
