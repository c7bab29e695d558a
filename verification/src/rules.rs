//! The fixed rule table: an ordered list of keyword groups, each with a
//! description and a base severity.

use vstd::prelude::*;

use crate::finding::{Rule, VulnerabilityRule, VulnerabilityType};
use crate::text::{bytes_of, text_of};

verus! {

/// The rule table, in evaluation order. Every keyword is a lowercase
/// pattern, matched as a substring of the lower-cased text.
pub open spec fn spec_rules() -> Seq<Rule> {
    seq![
        Rule {
            keywords: seq![
                text_of("eval"),
                text_of("execscript"),
                text_of("document.write"),
                text_of("document.createelement(\"script\")"),
            ],
            description: text_of("Possible XSS"),
            vulnerability_type: VulnerabilityType::Alert,
        },
        Rule {
            keywords: seq![
                text_of("xmlhttprequest"),
                text_of("xhr.open"),
                text_of("xmlhttpreq.responsetext"),
                text_of("fetch"),
                text_of("https://"),
            ],
            description: text_of("Possible insecure API call"),
            vulnerability_type: VulnerabilityType::Warning,
        },
        Rule {
            keywords: seq![text_of("atob"), text_of("btoa")],
            description: text_of("Suspicious Base64 encoding or decoding"),
            vulnerability_type: VulnerabilityType::Warning,
        },
        Rule {
            keywords: seq![
                text_of("addeventlistener(\"keydown\""),
                text_of("addeventlistener(\"keyup\""),
                text_of("addeventlistener(\"keypress\""),
            ],
            description: text_of("Possible keylogger"),
            vulnerability_type: VulnerabilityType::Alert,
        },
        Rule {
            keywords: seq![
                text_of("addeventlistener"),
                text_of("addeventlistener(\"submit\""),
                text_of("addeventlistener(\"load\""),
                text_of("addeventlistener(\"unload\""),
                text_of("addeventlistener(\"beforeunload\""),
            ],
            description: text_of("Triggering actions on event"),
            vulnerability_type: VulnerabilityType::Alert,
        },
        Rule {
            keywords: seq![
                text_of("document.queryselectorall"),
                text_of("formdata()"),
                text_of("innertext"),
            ],
            description: text_of("Possible user data exfiltration"),
            vulnerability_type: VulnerabilityType::Alert,
        },
        Rule {
            keywords: seq![text_of("preventdefault()")],
            description: text_of("Changing app behavior by preventing default actions"),
            vulnerability_type: VulnerabilityType::Alert,
        },
        Rule {
            keywords: seq![
                text_of("localstorage"),
                text_of("sessionstorage"),
                text_of("getitem"),
            ],
            description: text_of("Reading local storage or session storage capabilities"),
            vulnerability_type: VulnerabilityType::Warning,
        },
        Rule {
            keywords: seq![text_of("setitem"), text_of("removeitem")],
            description: text_of("local storage or session storage manipulation"),
            vulnerability_type: VulnerabilityType::Alert,
        },
        Rule {
            keywords: seq![text_of("createlement"), text_of("appendchild")],
            description: text_of("DOM manipulation"),
            vulnerability_type: VulnerabilityType::Warning,
        },
        Rule {
            keywords: seq![text_of("document.createelement(\"iframe\")")],
            description: text_of("IFrame injection with possible clickjacking"),
            vulnerability_type: VulnerabilityType::Alert,
        },
        Rule {
            keywords: seq![text_of("iframe")],
            description: text_of("IFrame found, what can enable hidden tracking"),
            vulnerability_type: VulnerabilityType::Warning,
        },
        Rule {
            keywords: seq![text_of(".js")],
            description: text_of("External script usage"),
            vulnerability_type: VulnerabilityType::Warning,
        },
        Rule {
            keywords: seq![text_of("http://")],
            description: text_of("Insecure API Call without SSL"),
            vulnerability_type: VulnerabilityType::Alert,
        },
        Rule {
            keywords: seq![
                text_of("window.location.assign"),
                text_of("window.location.reload"),
            ],
            description: text_of("Possible session hijacking"),
            vulnerability_type: VulnerabilityType::Alert,
        },
        Rule {
            keywords: seq![
                text_of("customerdata"),
                text_of("input-firstname"),
                text_of("input-lastname"),
                text_of("email"),
                text_of("telephone"),
                text_of("phone"),
                text_of("address"),
                text_of("city"),
                text_of("postcode"),
                text_of("zip"),
                text_of("zone"),
                text_of("country"),
            ],
            description: text_of("Possible user data exfiltration with specified fields"),
            vulnerability_type: VulnerabilityType::Alert,
        },
        Rule {
            keywords: seq![
                text_of("input-payment"),
                text_of("input-payment-firstname"),
                text_of("input-payment-lastname"),
                text_of("input-payment-email"),
                text_of("input-payment-telephone"),
                text_of("input-payment-city"),
                text_of("input-payment-postcode"),
                text_of("input-cc-owner"),
                text_of("input-cc-number"),
                text_of("input-cc-expire-date"),
                text_of("input-cc-cvv2"),
                text_of("holder"),
                text_of("cvv"),
                text_of("ccv"),
                text_of("cc_expire_date_year"),
            ],
            description: text_of("Possible user payment data exfiltration and money stealing"),
            vulnerability_type: VulnerabilityType::Alert,
        },
    ]
}

/// Append one keyword pattern, given as a string literal, to a keyword list.
fn push_kw(ks: &mut Vec<Vec<u8>>, s: &str)
    ensures
        final(ks)@.map_values(|k: Vec<u8>| k@) == old(ks)@.map_values(|k: Vec<u8>| k@).push(
            text_of(s),
        ),
{
    ks.push(bytes_of(s));
    proof {
        assert(ks@.map_values(|k: Vec<u8>| k@) =~= old(ks)@.map_values(|k: Vec<u8>| k@).push(
            text_of(s),
        ));
    }
}

fn rule_xss() -> (r: VulnerabilityRule)
    ensures
        r@ == spec_rules()[0],
{
    let mut ks: Vec<Vec<u8>> = Vec::new();
    push_kw(&mut ks, "eval");
    push_kw(&mut ks, "execscript");
    push_kw(&mut ks, "document.write");
    push_kw(&mut ks, "document.createelement(\"script\")");
    let r = VulnerabilityRule {
        keywords: ks,
        description: bytes_of("Possible XSS"),
        vulnerability_type: VulnerabilityType::Alert,
    };
    proof {
        assert(r@.keywords =~= spec_rules()[0].keywords);
    }
    r
}

fn rule_insecure_api() -> (r: VulnerabilityRule)
    ensures
        r@ == spec_rules()[1],
{
    let mut ks: Vec<Vec<u8>> = Vec::new();
    push_kw(&mut ks, "xmlhttprequest");
    push_kw(&mut ks, "xhr.open");
    push_kw(&mut ks, "xmlhttpreq.responsetext");
    push_kw(&mut ks, "fetch");
    push_kw(&mut ks, "https://");
    let r = VulnerabilityRule {
        keywords: ks,
        description: bytes_of("Possible insecure API call"),
        vulnerability_type: VulnerabilityType::Warning,
    };
    proof {
        assert(r@.keywords =~= spec_rules()[1].keywords);
    }
    r
}

fn rule_base64_markers() -> (r: VulnerabilityRule)
    ensures
        r@ == spec_rules()[2],
{
    let mut ks: Vec<Vec<u8>> = Vec::new();
    push_kw(&mut ks, "atob");
    push_kw(&mut ks, "btoa");
    let r = VulnerabilityRule {
        keywords: ks,
        description: bytes_of("Suspicious Base64 encoding or decoding"),
        vulnerability_type: VulnerabilityType::Warning,
    };
    proof {
        assert(r@.keywords =~= spec_rules()[2].keywords);
    }
    r
}

fn rule_keylogger() -> (r: VulnerabilityRule)
    ensures
        r@ == spec_rules()[3],
{
    let mut ks: Vec<Vec<u8>> = Vec::new();
    push_kw(&mut ks, "addeventlistener(\"keydown\"");
    push_kw(&mut ks, "addeventlistener(\"keyup\"");
    push_kw(&mut ks, "addeventlistener(\"keypress\"");
    let r = VulnerabilityRule {
        keywords: ks,
        description: bytes_of("Possible keylogger"),
        vulnerability_type: VulnerabilityType::Alert,
    };
    proof {
        assert(r@.keywords =~= spec_rules()[3].keywords);
    }
    r
}

fn rule_event_triggers() -> (r: VulnerabilityRule)
    ensures
        r@ == spec_rules()[4],
{
    let mut ks: Vec<Vec<u8>> = Vec::new();
    push_kw(&mut ks, "addeventlistener");
    push_kw(&mut ks, "addeventlistener(\"submit\"");
    push_kw(&mut ks, "addeventlistener(\"load\"");
    push_kw(&mut ks, "addeventlistener(\"unload\"");
    push_kw(&mut ks, "addeventlistener(\"beforeunload\"");
    let r = VulnerabilityRule {
        keywords: ks,
        description: bytes_of("Triggering actions on event"),
        vulnerability_type: VulnerabilityType::Alert,
    };
    proof {
        assert(r@.keywords =~= spec_rules()[4].keywords);
    }
    r
}

fn rule_data_exfiltration() -> (r: VulnerabilityRule)
    ensures
        r@ == spec_rules()[5],
{
    let mut ks: Vec<Vec<u8>> = Vec::new();
    push_kw(&mut ks, "document.queryselectorall");
    push_kw(&mut ks, "formdata()");
    push_kw(&mut ks, "innertext");
    let r = VulnerabilityRule {
        keywords: ks,
        description: bytes_of("Possible user data exfiltration"),
        vulnerability_type: VulnerabilityType::Alert,
    };
    proof {
        assert(r@.keywords =~= spec_rules()[5].keywords);
    }
    r
}

fn rule_prevent_default() -> (r: VulnerabilityRule)
    ensures
        r@ == spec_rules()[6],
{
    let mut ks: Vec<Vec<u8>> = Vec::new();
    push_kw(&mut ks, "preventdefault()");
    let r = VulnerabilityRule {
        keywords: ks,
        description: bytes_of("Changing app behavior by preventing default actions"),
        vulnerability_type: VulnerabilityType::Alert,
    };
    proof {
        assert(r@.keywords =~= spec_rules()[6].keywords);
    }
    r
}

fn rule_storage_read() -> (r: VulnerabilityRule)
    ensures
        r@ == spec_rules()[7],
{
    let mut ks: Vec<Vec<u8>> = Vec::new();
    push_kw(&mut ks, "localstorage");
    push_kw(&mut ks, "sessionstorage");
    push_kw(&mut ks, "getitem");
    let r = VulnerabilityRule {
        keywords: ks,
        description: bytes_of("Reading local storage or session storage capabilities"),
        vulnerability_type: VulnerabilityType::Warning,
    };
    proof {
        assert(r@.keywords =~= spec_rules()[7].keywords);
    }
    r
}

fn rule_storage_write() -> (r: VulnerabilityRule)
    ensures
        r@ == spec_rules()[8],
{
    let mut ks: Vec<Vec<u8>> = Vec::new();
    push_kw(&mut ks, "setitem");
    push_kw(&mut ks, "removeitem");
    let r = VulnerabilityRule {
        keywords: ks,
        description: bytes_of("local storage or session storage manipulation"),
        vulnerability_type: VulnerabilityType::Alert,
    };
    proof {
        assert(r@.keywords =~= spec_rules()[8].keywords);
    }
    r
}

fn rule_dom_manipulation() -> (r: VulnerabilityRule)
    ensures
        r@ == spec_rules()[9],
{
    let mut ks: Vec<Vec<u8>> = Vec::new();
    push_kw(&mut ks, "createlement");
    push_kw(&mut ks, "appendchild");
    let r = VulnerabilityRule {
        keywords: ks,
        description: bytes_of("DOM manipulation"),
        vulnerability_type: VulnerabilityType::Warning,
    };
    proof {
        assert(r@.keywords =~= spec_rules()[9].keywords);
    }
    r
}

fn rule_iframe_injection() -> (r: VulnerabilityRule)
    ensures
        r@ == spec_rules()[10],
{
    let mut ks: Vec<Vec<u8>> = Vec::new();
    push_kw(&mut ks, "document.createelement(\"iframe\")");
    let r = VulnerabilityRule {
        keywords: ks,
        description: bytes_of("IFrame injection with possible clickjacking"),
        vulnerability_type: VulnerabilityType::Alert,
    };
    proof {
        assert(r@.keywords =~= spec_rules()[10].keywords);
    }
    r
}

fn rule_iframe_presence() -> (r: VulnerabilityRule)
    ensures
        r@ == spec_rules()[11],
{
    let mut ks: Vec<Vec<u8>> = Vec::new();
    push_kw(&mut ks, "iframe");
    let r = VulnerabilityRule {
        keywords: ks,
        description: bytes_of("IFrame found, what can enable hidden tracking"),
        vulnerability_type: VulnerabilityType::Warning,
    };
    proof {
        assert(r@.keywords =~= spec_rules()[11].keywords);
    }
    r
}

fn rule_external_script() -> (r: VulnerabilityRule)
    ensures
        r@ == spec_rules()[12],
{
    let mut ks: Vec<Vec<u8>> = Vec::new();
    push_kw(&mut ks, ".js");
    let r = VulnerabilityRule {
        keywords: ks,
        description: bytes_of("External script usage"),
        vulnerability_type: VulnerabilityType::Warning,
    };
    proof {
        assert(r@.keywords =~= spec_rules()[12].keywords);
    }
    r
}

fn rule_insecure_http() -> (r: VulnerabilityRule)
    ensures
        r@ == spec_rules()[13],
{
    let mut ks: Vec<Vec<u8>> = Vec::new();
    push_kw(&mut ks, "http://");
    let r = VulnerabilityRule {
        keywords: ks,
        description: bytes_of("Insecure API Call without SSL"),
        vulnerability_type: VulnerabilityType::Alert,
    };
    proof {
        assert(r@.keywords =~= spec_rules()[13].keywords);
    }
    r
}

fn rule_session_hijacking() -> (r: VulnerabilityRule)
    ensures
        r@ == spec_rules()[14],
{
    let mut ks: Vec<Vec<u8>> = Vec::new();
    push_kw(&mut ks, "window.location.assign");
    push_kw(&mut ks, "window.location.reload");
    let r = VulnerabilityRule {
        keywords: ks,
        description: bytes_of("Possible session hijacking"),
        vulnerability_type: VulnerabilityType::Alert,
    };
    proof {
        assert(r@.keywords =~= spec_rules()[14].keywords);
    }
    r
}

fn rule_personal_fields() -> (r: VulnerabilityRule)
    ensures
        r@ == spec_rules()[15],
{
    let mut ks: Vec<Vec<u8>> = Vec::new();
    push_kw(&mut ks, "customerdata");
    push_kw(&mut ks, "input-firstname");
    push_kw(&mut ks, "input-lastname");
    push_kw(&mut ks, "email");
    push_kw(&mut ks, "telephone");
    push_kw(&mut ks, "phone");
    push_kw(&mut ks, "address");
    push_kw(&mut ks, "city");
    push_kw(&mut ks, "postcode");
    push_kw(&mut ks, "zip");
    push_kw(&mut ks, "zone");
    push_kw(&mut ks, "country");
    let r = VulnerabilityRule {
        keywords: ks,
        description: bytes_of("Possible user data exfiltration with specified fields"),
        vulnerability_type: VulnerabilityType::Alert,
    };
    proof {
        assert(r@.keywords =~= spec_rules()[15].keywords);
    }
    r
}

fn rule_payment_fields() -> (r: VulnerabilityRule)
    ensures
        r@ == spec_rules()[16],
{
    let mut ks: Vec<Vec<u8>> = Vec::new();
    push_kw(&mut ks, "input-payment");
    push_kw(&mut ks, "input-payment-firstname");
    push_kw(&mut ks, "input-payment-lastname");
    push_kw(&mut ks, "input-payment-email");
    push_kw(&mut ks, "input-payment-telephone");
    push_kw(&mut ks, "input-payment-city");
    push_kw(&mut ks, "input-payment-postcode");
    push_kw(&mut ks, "input-cc-owner");
    push_kw(&mut ks, "input-cc-number");
    push_kw(&mut ks, "input-cc-expire-date");
    push_kw(&mut ks, "input-cc-cvv2");
    push_kw(&mut ks, "holder");
    push_kw(&mut ks, "cvv");
    push_kw(&mut ks, "ccv");
    push_kw(&mut ks, "cc_expire_date_year");
    let r = VulnerabilityRule {
        keywords: ks,
        description: bytes_of("Possible user payment data exfiltration and money stealing"),
        vulnerability_type: VulnerabilityType::Alert,
    };
    proof {
        assert(r@.keywords =~= spec_rules()[16].keywords);
    }
    r
}

/// Build the rule table. The result models exactly [`spec_rules`].
pub fn get_vulnerability_rules() -> (r: Vec<VulnerabilityRule>)
    ensures
        r@.map_values(|x: VulnerabilityRule| x@) == spec_rules(),
{
    let mut rules: Vec<VulnerabilityRule> = Vec::new();
    rules.push(rule_xss());
    rules.push(rule_insecure_api());
    rules.push(rule_base64_markers());
    rules.push(rule_keylogger());
    rules.push(rule_event_triggers());
    rules.push(rule_data_exfiltration());
    rules.push(rule_prevent_default());
    rules.push(rule_storage_read());
    rules.push(rule_storage_write());
    rules.push(rule_dom_manipulation());
    rules.push(rule_iframe_injection());
    rules.push(rule_iframe_presence());
    rules.push(rule_external_script());
    rules.push(rule_insecure_http());
    rules.push(rule_session_hijacking());
    rules.push(rule_personal_fields());
    rules.push(rule_payment_fields());
    proof {
        assert(rules@.map_values(|x: VulnerabilityRule| x@) =~= spec_rules());
    }
    rules
}

} // verus!
