//! The data model: severity levels, detection rules, and findings.

use vstd::prelude::*;

verus! {

/// Severity of a rule or of a finding.
#[derive(Clone, Copy, Debug, PartialEq, Eq, Structural)]
pub enum VulnerabilityType {
    Warning,
    Alert,
}

/// A detection rule: a group of keyword patterns sharing one description
/// and one base severity.
pub struct VulnerabilityRule {
    pub keywords: Vec<Vec<u8>>,
    pub description: Vec<u8>,
    pub vulnerability_type: VulnerabilityType,
}

/// The mathematical model of a rule.
pub struct Rule {
    pub keywords: Seq<Seq<u8>>,
    pub description: Seq<u8>,
    pub vulnerability_type: VulnerabilityType,
}

impl View for VulnerabilityRule {
    type V = Rule;

    open spec fn view(&self) -> Rule {
        Rule {
            keywords: self.keywords@.map_values(|k: Vec<u8>| k@),
            description: self.description@,
            vulnerability_type: self.vulnerability_type,
        }
    }
}

/// One detection result: the keyword (or synthetic tag) that fired, the
/// byte offset of its first occurrence, a description, and a severity.
pub struct DetectedVulnerability {
    pub keyword: Vec<u8>,
    pub keyword_index: usize,
    pub description: Vec<u8>,
    pub vulnerability_type: VulnerabilityType,
}

/// The mathematical model of a finding.
pub struct Finding {
    pub keyword: Seq<u8>,
    pub keyword_index: nat,
    pub description: Seq<u8>,
    pub vulnerability_type: VulnerabilityType,
}

impl View for DetectedVulnerability {
    type V = Finding;

    open spec fn view(&self) -> Finding {
        Finding {
            keyword: self.keyword@,
            keyword_index: self.keyword_index as nat,
            description: self.description@,
            vulnerability_type: self.vulnerability_type,
        }
    }
}

/// The models of a sequence of findings.
pub open spec fn findings_of(s: Seq<DetectedVulnerability>) -> Seq<Finding> {
    s.map_values(|d: DetectedVulnerability| d@)
}

} // verus!
