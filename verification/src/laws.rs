//! Laws of the engine, proved over its specification functions: what a
//! clean text yields, what a lone keyword yields, how decoded layers
//! escalate findings, that scanning is deterministic, and that a decoded
//! layer's findings are carried whole into the outer scan.

use vstd::prelude::*;
use vstd::utf8::{is_ascii_chars, is_ascii_chars_encode_utf8, valid_utf8};

use crate::correlate::{last_index_of, spec_correlate, tag_response};
use crate::decode::spec_b64_decode;
use crate::finding::{Finding, VulnerabilityType};
use crate::harvest::spec_harvest;
use crate::hex::{spec_hex_count, spec_hex_findings};
use crate::matcher::{
    escalate, finding_for, kw_findings_from, rule_findings_from, spec_rule_findings,
};
use crate::rules::spec_rules;
use crate::scan::{b64_warning, spec_b64_findings, spec_scan};
use crate::text::{lower_bytes, spec_find, text_of};

verus! {

proof fn lemma_kw_escalate(t: Seq<u8>, rule: crate::finding::Rule, j: int)
    ensures
        kw_findings_from(t, rule, true, j) == kw_findings_from(t, rule, false, j).map_values(
            |f: Finding| escalate(f),
        ),
    decreases rule.keywords.len() - j,
{
    if j < 0 || j >= rule.keywords.len() {
        assert(kw_findings_from(t, rule, true, j) =~= kw_findings_from(
            t,
            rule,
            false,
            j,
        ).map_values(|f: Finding| escalate(f)));
    } else {
        lemma_kw_escalate(t, rule, j + 1);
        match spec_find(lower_bytes(t), rule.keywords[j], 0) {
            Some(i) => {
                assert(finding_for(rule, rule.keywords[j], i as nat, true) == escalate(
                    finding_for(rule, rule.keywords[j], i as nat, false),
                ));
            },
            None => {},
        }
        assert(kw_findings_from(t, rule, true, j) =~= kw_findings_from(
            t,
            rule,
            false,
            j,
        ).map_values(|f: Finding| escalate(f)));
    }
}

proof fn lemma_rule_escalate(t: Seq<u8>, i: int)
    ensures
        rule_findings_from(t, true, i) == rule_findings_from(t, false, i).map_values(
            |f: Finding| escalate(f),
        ),
    decreases spec_rules().len() - i,
{
    if i < 0 || i >= spec_rules().len() {
        assert(rule_findings_from(t, true, i) =~= rule_findings_from(t, false, i).map_values(
            |f: Finding| escalate(f),
        ));
    } else {
        lemma_rule_escalate(t, i + 1);
        lemma_kw_escalate(t, spec_rules()[i], 0);
        assert(rule_findings_from(t, true, i) =~= rule_findings_from(t, false, i).map_values(
            |f: Finding| escalate(f),
        ));
    }
}

/// Decoded-layer escalation: the keyword findings of a decoded layer are,
/// one for one, the keyword findings of a plain pass over the same text,
/// each reported as Alert and annotated as decoded.
pub proof fn lemma_decoded_layer_escalation(t: Seq<u8>)
    ensures
        spec_rule_findings(t, true) == spec_rule_findings(t, false).map_values(
            |f: Finding| escalate(f),
        ),
        spec_rule_findings(t, true).len() == spec_rule_findings(t, false).len(),
        forall|j: int|
            0 <= j < spec_rule_findings(t, false).len() ==> #[trigger] spec_rule_findings(
                t,
                true,
            )[j] == escalate(spec_rule_findings(t, false)[j]),
{
    lemma_rule_escalate(t, 0);
}

proof fn lemma_kw_findings_none(t: Seq<u8>, r: int, decoded: bool, j: int)
    requires
        0 <= r < spec_rules().len(),
        forall|k: int|
            j <= k < spec_rules()[r].keywords.len() ==> spec_find(
                lower_bytes(t),
                #[trigger] spec_rules()[r].keywords[k],
                0,
            ) is None,
    ensures
        kw_findings_from(t, spec_rules()[r], decoded, j) == Seq::<Finding>::empty(),
    decreases spec_rules()[r].keywords.len() - j,
{
    if 0 <= j < spec_rules()[r].keywords.len() {
        lemma_kw_findings_none(t, r, decoded, j + 1);
        assert(kw_findings_from(t, spec_rules()[r], decoded, j) =~= Seq::<Finding>::empty());
    }
}

proof fn lemma_rule_findings_none(t: Seq<u8>, decoded: bool, i: int)
    requires
        forall|r: int, k: int|
            i <= r < spec_rules().len() && 0 <= k < spec_rules()[r].keywords.len() ==> spec_find(
                lower_bytes(t),
                #[trigger] spec_rules()[r].keywords[k],
                0,
            ) is None,
    ensures
        rule_findings_from(t, decoded, i) == Seq::<Finding>::empty(),
    decreases spec_rules().len() - i,
{
    if 0 <= i < spec_rules().len() {
        lemma_rule_findings_none(t, decoded, i + 1);
        lemma_kw_findings_none(t, i, decoded, 0);
        assert(rule_findings_from(t, decoded, i) =~= Seq::<Finding>::empty());
    }
}

/// On text with no recognized keyword, no hexadecimal token, and no
/// harvestable Base64 run, a scan reports nothing.
pub proof fn lemma_clean_text_scans_empty(t: Seq<u8>, depth: nat)
    requires
        forall|r: int, k: int|
            0 <= r < spec_rules().len() && 0 <= k < spec_rules()[r].keywords.len() ==> spec_find(
                lower_bytes(t),
                #[trigger] spec_rules()[r].keywords[k],
                0,
            ) is None,
        spec_hex_count(t) == 0,
        spec_harvest(t).len() == 0,
    ensures
        spec_scan(t, false, depth) == Seq::<Finding>::empty(),
{
    lemma_rule_findings_none(t, false, 0);
    let base = spec_rule_findings(t, false) + spec_hex_findings(t) + spec_b64_findings(t, depth);
    assert(base =~= Seq::<Finding>::empty());
    assert(spec_scan(t, false, depth) =~= Seq::<Finding>::empty());
}

proof fn lemma_ascii_literal(s: &str)
    requires
        is_ascii_chars(s@),
    ensures
        text_of(s).len() == s@.len(),
{
    is_ascii_chars_encode_utf8(s@);
}

proof fn lemma_eval_is_not_response_tag()
    ensures
        text_of("eval") != tag_response(),
{
    reveal_strlit("eval");
    reveal_strlit("xmlhttpreq.responsetext");
    assert(is_ascii_chars("eval"@));
    assert(is_ascii_chars("xmlhttpreq.responsetext"@));
    lemma_ascii_literal("eval");
    lemma_ascii_literal("xmlhttpreq.responsetext");
}

/// On text containing the keyword `eval` and no other keyword of the
/// table, the keyword matcher reports exactly one finding: an Alert at
/// the keyword's first offset, describing possible XSS.
pub proof fn lemma_eval_alone_one_alert(t: Seq<u8>)
    requires
        spec_find(lower_bytes(t), text_of("eval"), 0) is Some,
        forall|r: int, k: int|
            0 <= r < spec_rules().len() && 0 <= k < spec_rules()[r].keywords.len() && !(r == 0 && k
                == 0) ==> spec_find(
                lower_bytes(t),
                #[trigger] spec_rules()[r].keywords[k],
                0,
            ) is None,
    ensures
        spec_rule_findings(t, false).len() == 1,
        spec_rule_findings(t, false)[0].keyword == text_of("eval"),
        spec_rule_findings(t, false)[0].description == text_of("Possible XSS"),
        spec_rule_findings(t, false)[0].vulnerability_type == VulnerabilityType::Alert,
{
    assert(spec_rules()[0].keywords[0] == text_of("eval"));
    lemma_kw_findings_none(t, 0, false, 1);
    lemma_rule_findings_none(t, false, 1);
    match spec_find(lower_bytes(t), text_of("eval"), 0) {
        Some(i) => {
            assert(spec_rule_findings(t, false) =~= seq![
                finding_for(spec_rules()[0], text_of("eval"), i as nat, false),
            ]);
        },
        None => {},
    }
}

proof fn lemma_correlate_eval_singleton(f: Finding)
    requires
        f.keyword == text_of("eval"),
    ensures
        spec_correlate(seq![f]) == Seq::<Finding>::empty(),
{
    lemma_eval_is_not_response_tag();
    let fs = seq![f];
    assert(fs.last() == f);
    assert(fs.drop_last() =~= Seq::<Finding>::empty());
    assert(last_index_of(Seq::<Finding>::empty(), tag_response()) == 0);
    assert(last_index_of(fs, tag_response()) == 0);
    assert(spec_correlate(fs) =~= Seq::<Finding>::empty());
}

/// On text containing the keyword `eval`, no other keyword, no
/// hexadecimal token, and no Base64 run, the whole scan reports exactly
/// that one Alert: in particular, no correlation fires without a response
/// read.
pub proof fn lemma_eval_alone_scan(t: Seq<u8>, depth: nat)
    requires
        spec_find(lower_bytes(t), text_of("eval"), 0) is Some,
        forall|r: int, k: int|
            0 <= r < spec_rules().len() && 0 <= k < spec_rules()[r].keywords.len() && !(r == 0 && k
                == 0) ==> spec_find(
                lower_bytes(t),
                #[trigger] spec_rules()[r].keywords[k],
                0,
            ) is None,
        spec_hex_count(t) == 0,
        spec_harvest(t).len() == 0,
    ensures
        spec_scan(t, false, depth) == spec_rule_findings(t, false),
        spec_scan(t, false, depth).len() == 1,
        spec_scan(t, false, depth)[0].description == text_of("Possible XSS"),
        spec_scan(t, false, depth)[0].vulnerability_type == VulnerabilityType::Alert,
{
    lemma_eval_alone_one_alert(t);
    let rf = spec_rule_findings(t, false);
    let base = rf + spec_hex_findings(t) + spec_b64_findings(t, depth);
    assert(spec_hex_findings(t) =~= Seq::<Finding>::empty());
    assert(spec_b64_findings(t, depth) =~= Seq::<Finding>::empty());
    assert(base =~= rf);
    assert(rf =~= seq![rf[0]]);
    lemma_correlate_eval_singleton(rf[0]);
    assert(spec_scan(t, false, depth) =~= rf);
}

/// Scanning is deterministic: the model of a scan's result is a function
/// of the text, the layer flag, and the depth alone, so two scans of
/// identical input yield identical output.
pub proof fn lemma_scan_deterministic(
    t: Seq<u8>,
    decoded: bool,
    depth: nat,
    r1: Seq<Finding>,
    r2: Seq<Finding>,
)
    requires
        r1 == spec_scan(t, decoded, depth),
        r2 == spec_scan(t, decoded, depth),
    ensures
        r1 == r2,
{
}

/// When the harvested Base64 of a text decodes to UTF-8 text and depth
/// remains, the scan of the text contains, contiguously after the keyword
/// findings, the hex aggregate, and the Base64 Warning, every finding of
/// a decoded-layer scan of the recovered text. Within that decoded-layer
/// scan, the keyword findings are the escalated, annotated ones (see
/// [`lemma_decoded_layer_escalation`]); its aggregate and correlation
/// findings keep their usual severities.
pub proof fn lemma_decoded_pass_included(t: Seq<u8>, d: Seq<u8>, depth: nat)
    requires
        spec_harvest(t).len() > 0,
        spec_b64_decode(spec_harvest(t)) == Some(d),
        valid_utf8(d),
        depth > 0,
    ensures
        spec_scan(t, false, depth).len() >= spec_rule_findings(t, false).len()
            + spec_hex_findings(t).len() + 1 + spec_scan(d, true, (depth - 1) as nat).len(),
        spec_scan(t, false, depth).subrange(
            (spec_rule_findings(t, false).len() + spec_hex_findings(t).len() + 1) as int,
            spec_rule_findings(t, false).len() + spec_hex_findings(t).len() + 1 + spec_scan(
                d,
                true,
                (depth - 1) as nat,
            ).len() as int,
        ) == spec_scan(d, true, (depth - 1) as nat),
{
    let nested = spec_scan(d, true, (depth - 1) as nat);
    assert(spec_b64_findings(t, depth) =~= seq![b64_warning()] + nested);
    let base = spec_rule_findings(t, false) + spec_hex_findings(t) + spec_b64_findings(t, depth);
    let o = spec_rule_findings(t, false).len() + spec_hex_findings(t).len() + 1;
    assert(spec_scan(t, false, depth).subrange(o as int, o + nested.len() as int) =~= nested);
}

proof fn lemma_last_index_zero(fs: Seq<Finding>, kw: Seq<u8>)
    requires
        forall|i: int| 0 <= i < fs.len() ==> fs[i].keyword != kw,
    ensures
        last_index_of(fs, kw) == 0,
    decreases fs.len(),
{
    if fs.len() > 0 {
        assert(fs.last() == fs[fs.len() - 1]);
        assert(forall|i: int| 0 <= i < fs.drop_last().len() ==> fs.drop_last()[i] == fs[i]);
        lemma_last_index_zero(fs.drop_last(), kw);
    }
}

/// The round trip through one decoded layer, in full: when the harvested
/// Base64 of a text decodes to a UTF-8 snippet that itself holds no
/// hexadecimal token, no harvestable Base64 run, and no finding keyed on
/// the response-read tag, the outer scan contains, contiguously, exactly
/// the keyword findings a direct scan of the snippet would produce, each
/// escalated to Alert and annotated as decoded.
pub proof fn lemma_round_trip_escalated_findings(t: Seq<u8>, d: Seq<u8>, depth: nat)
    requires
        spec_harvest(t).len() > 0,
        spec_b64_decode(spec_harvest(t)) == Some(d),
        valid_utf8(d),
        depth > 0,
        spec_hex_count(d) == 0,
        spec_harvest(d).len() == 0,
        forall|i: int|
            0 <= i < spec_rule_findings(d, false).len() ==> #[trigger] spec_rule_findings(
                d,
                false,
            )[i].keyword != tag_response(),
    ensures
        spec_scan(t, false, depth).subrange(
            (spec_rule_findings(t, false).len() + spec_hex_findings(t).len() + 1) as int,
            spec_rule_findings(t, false).len() + spec_hex_findings(t).len() + 1
                + spec_rule_findings(d, false).len() as int,
        ) == spec_rule_findings(d, false).map_values(|f: Finding| escalate(f)),
{
    lemma_decoded_pass_included(t, d, depth);
    lemma_decoded_layer_escalation(d);
    let dm1 = (depth - 1) as nat;
    let rf_true = spec_rule_findings(d, true);
    let rf_false = spec_rule_findings(d, false);
    assert(forall|i: int| 0 <= i < rf_true.len() ==> #[trigger] rf_true[i].keyword
        != tag_response()) by {
        assert(forall|i: int|
            0 <= i < rf_true.len() ==> #[trigger] rf_true[i] == escalate(rf_false[i]));
    }
    let base = rf_true + spec_hex_findings(d) + spec_b64_findings(d, dm1);
    assert(base =~= rf_true);
    lemma_last_index_zero(rf_true, tag_response());
    assert(spec_correlate(base) =~= Seq::<Finding>::empty());
    assert(spec_scan(d, true, dm1) =~= rf_true);
}

} // verus!
