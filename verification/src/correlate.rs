//! The correlation analyzer: from the offsets already recorded in a
//! finding list, detect remote response text flowing into a code
//! execution sink within close range.
//!
//! Offsets from findings of decoded layers are relative to their own
//! decoded buffer, not to the original text; a correlation across layers
//! therefore compares offsets from different coordinate spaces. This is a
//! known heuristic trade-off of the finding model, kept as designed.

use vstd::prelude::*;

use crate::finding::{DetectedVulnerability, Finding, VulnerabilityType, findings_of};
use crate::text::{bytes_eq, bytes_of, text_of};

verus! {

/// The keyword whose offset marks a read of remote response text.
pub open spec fn tag_response() -> Seq<u8> {
    text_of("xmlhttpreq.responsetext")
}

/// The keyword whose offset marks an `eval` sink.
pub open spec fn tag_eval() -> Seq<u8> {
    text_of("eval")
}

/// The keyword whose offset marks an `execScript` sink.
pub open spec fn tag_exec_script() -> Seq<u8> {
    text_of("execscript")
}

/// The synthetic keyword of the correlation finding.
pub open spec fn rce_keyword() -> Seq<u8> {
    text_of("eval/execscript(xmlhttpreq.responsetext)")
}

/// The description of the correlation finding.
pub open spec fn rce_description() -> Seq<u8> {
    text_of("Possible execution of the malicious code from the remote server")
}

/// The offset recorded by the last finding whose keyword is `kw`, or 0
/// when no finding carries it.
pub open spec fn last_index_of(fs: Seq<Finding>, kw: Seq<u8>) -> nat
    decreases fs.len(),
{
    if fs.len() == 0 {
        0
    } else if fs.last().keyword == kw {
        fs.last().keyword_index
    } else {
        last_index_of(fs.drop_last(), kw)
    }
}

/// The correlation over a finding list: at most one Alert, emitted when a
/// response read (at non-zero offset) is followed, within 100 bytes, by an
/// `eval` or an `execScript` sink (at non-zero offset). A sink before the
/// response read is out of range. The reported offset is the last `eval`
/// offset recorded, zero when no finding carries that keyword.
pub open spec fn spec_correlate(fs: Seq<Finding>) -> Seq<Finding> {
    let response_index = last_index_of(fs, tag_response());
    let eval_index = last_index_of(fs, tag_eval());
    let exec_index = last_index_of(fs, tag_exec_script());
    let eval_fires = response_index > 0 && eval_index > 0 && response_index <= eval_index
        && eval_index - response_index < 100;
    let exec_fires = response_index > 0 && exec_index > 0 && response_index <= exec_index
        && exec_index - response_index < 100;
    if eval_fires || exec_fires {
        seq![
            Finding {
                keyword: rce_keyword(),
                keyword_index: eval_index,
                description: rce_description(),
                vulnerability_type: VulnerabilityType::Alert,
            },
        ]
    } else {
        Seq::empty()
    }
}

/// Post-process a finding list for the remote-code-execution signature,
/// per [`spec_correlate`].
pub fn find_possible_remote_code_execution(vulnerabilities: &Vec<DetectedVulnerability>) -> (r:
    Vec<DetectedVulnerability>)
    ensures
        findings_of(r@) == spec_correlate(findings_of(vulnerabilities@)),
{
    let ghost fs = findings_of(vulnerabilities@);
    let tag_resp = bytes_of("xmlhttpreq.responsetext");
    let tag_ev = bytes_of("eval");
    let tag_ex = bytes_of("execscript");
    let mut response_text_index: usize = 0;
    let mut eval_index: usize = 0;
    let mut exec_script_index: usize = 0;
    let mut i: usize = 0;
    while i < vulnerabilities.len()
        invariant
            fs == findings_of(vulnerabilities@),
            tag_resp@ == tag_response(),
            tag_ev@ == tag_eval(),
            tag_ex@ == tag_exec_script(),
            i <= fs.len(),
            response_text_index as nat == last_index_of(fs.take(i as int), tag_response()),
            eval_index as nat == last_index_of(fs.take(i as int), tag_eval()),
            exec_script_index as nat == last_index_of(fs.take(i as int), tag_exec_script()),
        decreases fs.len() - i,
    {
        proof {
            assert(fs.take(i + 1 as int).drop_last() =~= fs.take(i as int));
            assert(fs.take(i + 1 as int).last() == fs[i as int]);
        }
        let v = &vulnerabilities[i];
        if bytes_eq(v.keyword.as_slice(), tag_resp.as_slice()) {
            response_text_index = v.keyword_index;
        }
        if bytes_eq(v.keyword.as_slice(), tag_ev.as_slice()) {
            eval_index = v.keyword_index;
        }
        if bytes_eq(v.keyword.as_slice(), tag_ex.as_slice()) {
            exec_script_index = v.keyword_index;
        }
        i = i + 1;
    }
    proof {
        assert(fs.take(fs.len() as int) =~= fs);
    }
    let eval_fires = response_text_index > 0 && eval_index > 0 && response_text_index <= eval_index
        && eval_index - response_text_index < 100;
    let exec_fires = response_text_index > 0 && exec_script_index > 0 && response_text_index
        <= exec_script_index && exec_script_index - response_text_index < 100;
    let mut r: Vec<DetectedVulnerability> = Vec::new();
    if eval_fires || exec_fires {
        r.push(
            DetectedVulnerability {
                keyword: bytes_of("eval/execscript(xmlhttpreq.responsetext)"),
                keyword_index: eval_index,
                description: bytes_of(
                    "Possible execution of the malicious code from the remote server",
                ),
                vulnerability_type: VulnerabilityType::Alert,
            },
        );
    }
    proof {
        assert(findings_of(r@) =~= spec_correlate(fs));
    }
    r
}

} // verus!
