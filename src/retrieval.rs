use vstd::prelude::*;

verus! {

#[derive(Clone, Copy, Debug, PartialEq, Eq, Structural)]
pub enum RetrievalDomain {
    DcmHciDesign,
    XrGridPolicy,
    NeurorightsPolicy,
    RustWiring,
    DidRegistry,
}

#[derive(Clone, Copy, Debug, PartialEq, Eq, Structural)]
pub enum RetrievalKind {
    RetrieveKnowledge,
    ThreatScan,
    RetrievePolicy,
    RetrieveDcmHci,
    NeuralRopeResearch,
}

#[derive(Clone, Copy, Debug, PartialEq, Eq, Structural)]
pub enum SourceClass {
    StandardsSpec,
    ClinicalGuideline,
    GovernmentPolicy,
    RustCrateDocs,
    SovereignRegistryDoc,
}

#[derive(Clone, Copy, Debug, PartialEq, Eq, Structural)]
pub struct RetrievalLimits {
    pub max_recursion_depth: u8,
    pub max_parallel_queries: u8,
}

#[derive(Debug)]
pub struct XrZoneRef {
    /// For example "XR-ZONE-AZ-PHX-1".
    pub zone_id: String,
    /// For example "US-AZ".
    pub jurisdiction: String,
}

/// Knowledge, social impact and risk of harm, each a byte (0xFF is 1.0).
#[derive(Clone, Copy, Debug, PartialEq, Eq, Structural)]
pub struct KsrBand {
    pub k: u8,
    pub s: u8,
    pub r: u8,
}

#[derive(Clone, Copy, Debug, PartialEq, Eq, Structural)]
pub struct AllowedCodeActions {
    pub may_emit_rust_literals: bool,
    pub may_emit_manifests: bool,
    pub may_emit_policies: bool,
    pub may_touch_ffi: bool,
    pub may_touch_io: bool,
}

#[derive(Debug)]
pub struct PromptEnvelope {
    pub id: uuid::Uuid,
    pub kind: RetrievalKind,
    pub domain: RetrievalDomain,
    pub xrzone: XrZoneRef,
    pub source_classes: Vec<SourceClass>,
    pub limits: RetrievalLimits,
    pub ksrestimate: KsrBand,
    pub allowed_code_actions: AllowedCodeActions,
}

impl XrZoneRef {
    /// A field-by-field copy.
    pub fn duplicate(&self) -> (r: XrZoneRef)
        ensures
            r == *self,
    {
        XrZoneRef { zone_id: self.zone_id.clone(), jurisdiction: self.jurisdiction.clone() }
    }
}

/// Whether two envelopes hold the same values.
pub open spec fn same_envelope(a: PromptEnvelope, b: PromptEnvelope) -> bool {
    &&& a.id == b.id
    &&& a.kind == b.kind
    &&& a.domain == b.domain
    &&& a.xrzone == b.xrzone
    &&& a.source_classes@ == b.source_classes@
    &&& a.limits == b.limits
    &&& a.ksrestimate == b.ksrestimate
    &&& a.allowed_code_actions == b.allowed_code_actions
}

impl PromptEnvelope {
    /// A field-by-field copy.
    pub fn duplicate(&self) -> (r: PromptEnvelope)
        ensures
            same_envelope(r, *self),
    {
        let mut classes: Vec<SourceClass> = Vec::new();
        let mut i: usize = 0;
        while i < self.source_classes.len()
            invariant
                i <= self.source_classes@.len(),
                classes@ == self.source_classes@.take(i as int),
            decreases self.source_classes@.len() - i,
        {
            classes.push(self.source_classes[i]);
            proof {
                assert(self.source_classes@.take(i as int + 1) =~= self.source_classes@.take(
                    i as int,
                ).push(self.source_classes@[i as int]));
            }
            i = i + 1;
        }
        proof {
            assert(self.source_classes@.take(i as int) =~= self.source_classes@);
        }
        PromptEnvelope {
            id: self.id.clone(),
            kind: self.kind,
            domain: self.domain,
            xrzone: self.xrzone.duplicate(),
            source_classes: classes,
            limits: self.limits,
            ksrestimate: self.ksrestimate,
            allowed_code_actions: self.allowed_code_actions,
        }
    }
}

#[derive(Clone, Copy, Debug, PartialEq, Eq, Structural)]
pub enum CyberCookbookDomain {
    DcmHciDesign,
    XrGridPolicy,
    RustWiring,
    DidRegistry,
    NeurorightsPolicy,
}

pub open spec fn cookbook_domain(d: RetrievalDomain) -> CyberCookbookDomain {
    match d {
        RetrievalDomain::DcmHciDesign => CyberCookbookDomain::DcmHciDesign,
        RetrievalDomain::XrGridPolicy => CyberCookbookDomain::XrGridPolicy,
        RetrievalDomain::RustWiring => CyberCookbookDomain::RustWiring,
        RetrievalDomain::DidRegistry => CyberCookbookDomain::DidRegistry,
        RetrievalDomain::NeurorightsPolicy => CyberCookbookDomain::NeurorightsPolicy,
    }
}

/// The cookbook domain an envelope's retrieval domain files under.
pub fn map_domain(envelope: &PromptEnvelope) -> (r: CyberCookbookDomain)
    ensures
        r == cookbook_domain(envelope.domain),
{
    match envelope.domain {
        RetrievalDomain::DcmHciDesign => CyberCookbookDomain::DcmHciDesign,
        RetrievalDomain::XrGridPolicy => CyberCookbookDomain::XrGridPolicy,
        RetrievalDomain::RustWiring => CyberCookbookDomain::RustWiring,
        RetrievalDomain::DidRegistry => CyberCookbookDomain::DidRegistry,
        RetrievalDomain::NeurorightsPolicy => CyberCookbookDomain::NeurorightsPolicy,
    }
}

} // verus!
