//! A static heuristic scanner for script-like source text.
//!
//! The engine works over raw bytes: it matches a fixed table of keyword
//! rules, scores hexadecimal-literal volume, harvests long Base64 runs and
//! rescans their decoded contents, and correlates findings that together
//! suggest execution of remotely fetched code.

pub mod correlate;
pub mod decode;
pub mod finding;
pub mod harvest;
pub mod hex;
pub mod laws;
pub mod matcher;
pub mod rules;
pub mod scan;
pub mod text;

pub use correlate::{find_possible_remote_code_execution, spec_correlate};
pub use decode::{decode_base64_no_pad, is_valid_utf8, spec_b64_decode};
pub use harvest::{encode_base64_text, spec_harvest};
pub use hex::{count_hex_values, find_suspicious_hex_obfuscation, spec_hex_count, spec_hex_findings};
pub use finding::{DetectedVulnerability, Finding, Rule, VulnerabilityRule, VulnerabilityType};
pub use laws::{lemma_clean_text_scans_empty, lemma_decoded_layer_escalation, lemma_decoded_pass_included, lemma_eval_alone_one_alert, lemma_eval_alone_scan, lemma_round_trip_escalated_findings, lemma_scan_deterministic};
pub use matcher::{escalate, find_vulnerabilities_by_rules, spec_rule_findings};
pub use scan::{MAX_DECODE_DEPTH, find_vulnerabilities_in_base64_text, find_vulnerabilities_in_the_javascript_code, scan, spec_b64_findings, spec_scan};
pub use rules::{get_vulnerability_rules, spec_rules};
