//! The keyword matcher: one finding per (rule, keyword) pair whose keyword
//! occurs in the lower-cased text.

use vstd::prelude::*;
use vstd::slice::slice_to_vec;

use crate::finding::{DetectedVulnerability, Finding, Rule, VulnerabilityType, findings_of};
use crate::rules::{get_vulnerability_rules, spec_rules};
use crate::text::{bytes_of, find_sub, lower_bytes, spec_find, text_of, to_lower_bytes};

verus! {

/// The marker appended to a finding's description when it was produced
/// inside a decoded Base64 layer.
pub open spec fn decoded_note() -> Seq<u8> {
    text_of(" (BASE64 decoded)")
}

/// The finding produced when keyword `kw` of rule `rule` first occurs at
/// offset `idx`. A decoded layer escalates the severity to Alert and
/// annotates the description.
pub open spec fn finding_for(rule: Rule, kw: Seq<u8>, idx: nat, decoded: bool) -> Finding {
    Finding {
        keyword: kw,
        keyword_index: idx,
        description: if decoded {
            rule.description + decoded_note()
        } else {
            rule.description
        },
        vulnerability_type: if rule.vulnerability_type == VulnerabilityType::Alert || decoded {
            VulnerabilityType::Alert
        } else {
            VulnerabilityType::Warning
        },
    }
}

/// What a decoded layer does to a keyword finding: the severity becomes
/// Alert and the description carries the decoded-layer marker.
pub open spec fn escalate(f: Finding) -> Finding {
    Finding {
        keyword: f.keyword,
        keyword_index: f.keyword_index,
        description: f.description + decoded_note(),
        vulnerability_type: VulnerabilityType::Alert,
    }
}

/// The findings of rule `rule` on `text`, for its keywords from position
/// `j` on, in declaration order.
pub open spec fn kw_findings_from(text: Seq<u8>, rule: Rule, decoded: bool, j: int) -> Seq<Finding>
    decreases rule.keywords.len() - j,
{
    if j < 0 || j >= rule.keywords.len() {
        Seq::empty()
    } else {
        (match spec_find(lower_bytes(text), rule.keywords[j], 0) {
            Some(i) => seq![finding_for(rule, rule.keywords[j], i as nat, decoded)],
            None => Seq::empty(),
        }) + kw_findings_from(text, rule, decoded, j + 1)
    }
}

/// The findings of the rules from table position `i` on.
pub open spec fn rule_findings_from(text: Seq<u8>, decoded: bool, i: int) -> Seq<Finding>
    decreases spec_rules().len() - i,
{
    if i < 0 || i >= spec_rules().len() {
        Seq::empty()
    } else {
        kw_findings_from(text, spec_rules()[i], decoded, 0) + rule_findings_from(
            text,
            decoded,
            i + 1,
        )
    }
}

/// All keyword findings on `text`: rules in table order, keywords in
/// declaration order within a rule.
pub open spec fn spec_rule_findings(text: Seq<u8>, decoded: bool) -> Seq<Finding> {
    rule_findings_from(text, decoded, 0)
}

/// Match every rule of the table against `file_content`. The text is
/// lower-cased once (ASCII folding); each keyword that occurs as a
/// substring yields one finding carrying the byte offset of its first
/// occurrence. Nothing is deduplicated across rules.
pub fn find_vulnerabilities_by_rules(file_content: &[u8], is_base64_decoded: bool) -> (r: Vec<
    DetectedVulnerability,
>)
    ensures
        findings_of(r@) == spec_rule_findings(file_content@, is_base64_decoded),
{
    let ghost text = file_content@;
    let lowered = to_lower_bytes(file_content);
    let rules = get_vulnerability_rules();
    let mut out: Vec<DetectedVulnerability> = Vec::new();
    let mut i: usize = 0;
    while i < rules.len()
        invariant
            rules@.map_values(|x: crate::finding::VulnerabilityRule| x@) == spec_rules(),
            lowered@ == lower_bytes(text),
            i <= rules@.len(),
            spec_rule_findings(text, is_base64_decoded) == findings_of(out@) + rule_findings_from(
                text,
                is_base64_decoded,
                i as int,
            ),
        decreases rules@.len() - i,
    {
        let ghost rule = spec_rules()[i as int];
        let n_keywords = rules[i].keywords.len();
        let mut j: usize = 0;
        while j < n_keywords
            invariant
                rules@.map_values(|x: crate::finding::VulnerabilityRule| x@) == spec_rules(),
                lowered@ == lower_bytes(text),
                i < rules@.len(),
                rule == spec_rules()[i as int],
                n_keywords == rule.keywords.len(),
                j <= n_keywords,
                spec_rule_findings(text, is_base64_decoded) == findings_of(out@)
                    + kw_findings_from(text, rule, is_base64_decoded, j as int)
                    + rule_findings_from(text, is_base64_decoded, i as int + 1),
            decreases n_keywords - j,
        {
            let keyword = &rules[i].keywords[j];
            assert(keyword@ == rule.keywords[j as int]);
            match find_sub(lowered.as_slice(), keyword.as_slice()) {
                Some(index) => {
                    let description = if is_base64_decoded {
                        let mut d = slice_to_vec(rules[i].description.as_slice());
                        let mut note = bytes_of(" (BASE64 decoded)");
                        d.append(&mut note);
                        d
                    } else {
                        slice_to_vec(rules[i].description.as_slice())
                    };
                    let vulnerability_type = if matches!(
                        rules[i].vulnerability_type,
                        VulnerabilityType::Alert,
                    ) {
                        VulnerabilityType::Alert
                    } else if is_base64_decoded {
                        VulnerabilityType::Alert
                    } else {
                        VulnerabilityType::Warning
                    };
                    let found = DetectedVulnerability {
                        keyword: slice_to_vec(keyword.as_slice()),
                        keyword_index: index,
                        description,
                        vulnerability_type,
                    };
                    assert(found@ == finding_for(
                        rule,
                        rule.keywords[j as int],
                        index as nat,
                        is_base64_decoded,
                    ));
                    out.push(found);
                    proof {
                        assert(findings_of(out@) =~= findings_of(out@.drop_last()) + seq![
                            finding_for(
                                rule,
                                rule.keywords[j as int],
                                index as nat,
                                is_base64_decoded,
                            ),
                        ]);
                        assert(findings_of(out@) + kw_findings_from(
                            text,
                            rule,
                            is_base64_decoded,
                            j as int + 1,
                        ) =~= findings_of(out@.drop_last()) + kw_findings_from(
                            text,
                            rule,
                            is_base64_decoded,
                            j as int,
                        ));
                    }
                },
                None => {
                    proof {
                        assert(kw_findings_from(text, rule, is_base64_decoded, j as int)
                            =~= kw_findings_from(text, rule, is_base64_decoded, j as int + 1));
                    }
                },
            }
            j = j + 1;
        }
        proof {
            assert(kw_findings_from(text, rule, is_base64_decoded, n_keywords as int)
                =~= Seq::<Finding>::empty());
            assert(findings_of(out@) + kw_findings_from(
                text,
                rule,
                is_base64_decoded,
                n_keywords as int,
            ) =~= findings_of(out@));
        }
        i = i + 1;
    }
    proof {
        assert(rule_findings_from(text, is_base64_decoded, rules@.len() as int)
            =~= Seq::<Finding>::empty());
        assert(findings_of(out@) + Seq::<Finding>::empty() =~= findings_of(out@));
    }
    out
}

} // verus!
