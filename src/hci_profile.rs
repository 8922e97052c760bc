use vstd::prelude::*;

use crate::dcm::{DeviceCapabilityManifest, Jurisdiction, PrivacyLevel};
use crate::error::CyconeticsBciError;
use crate::site::shares_jurisdiction;

verus! {

/// An XR-grid zone where HCI exports are valid.
pub struct XrZoneRef {
    /// For example "XR-ZONE-CA-LAB-1".
    pub zone_id: String,
    pub description: Option<String>,
}

/// Categories of derived BCI state that HCI tools may consume.
#[derive(Clone, Copy, Debug, PartialEq, Eq, Structural)]
pub enum HciStateKind {
    CoarseCognitiveState,
    DiscreteIntent,
    EngagementFlag,
    SignalQualityFlag,
}

/// How often a state may be emitted.
#[derive(Clone, Copy, Debug, PartialEq, Eq, Structural)]
pub struct HciRateLimit {
    /// Maximum updates per second, in thousandths.
    pub max_millihz: u32,
}

/// Risk rating of an exported state or of a task.
#[derive(Clone, Copy, Debug, PartialEq, Eq, Structural)]
pub enum HciRiskLevel {
    Low,
    Medium,
    High,
}

/// How a state is exposed on the internal bus.
pub struct HciExportChannel {
    /// For example "bci.hci.workload".
    pub topic: String,
    /// Whether values are de-identified and aggregated.
    pub anonymized: bool,
    pub notes: Option<String>,
}

/// One allowed export of a BCI-derived state.
pub struct HciExportRule {
    pub id: uuid::Uuid,
    pub kind: HciStateKind,
    pub label: String,
    pub jurisdictions: Vec<Jurisdiction>,
    pub xr_zones: Vec<XrZoneRef>,
    pub risk_level: HciRiskLevel,
    pub rate_limit: HciRateLimit,
    pub export: HciExportChannel,
    pub requires_explicit_consent: bool,
    /// If set, the export may never drive actuation or a closed loop.
    pub no_closed_loop_use: bool,
}

/// The exports allowed for one device manifest.
pub struct HciExportProfile {
    pub id: uuid::Uuid,
    pub name: String,
    pub version: String,
    pub device_manifest_id: uuid::Uuid,
    /// Creation time in milliseconds since the Unix epoch.
    pub created_at_ms: i64,
    pub rules: Vec<HciExportRule>,
}

/// The checks of `validate_against`, in the order they are made.
pub enum HciCheck {
    ManifestMismatch,
    NoRules,
    HighRiskOnHighPrivacy,
    NoJurisdictionOverlap,
}

/// Whether some jurisdiction of `rule` is one of `dcm`.
pub open spec fn rule_overlaps(rule: HciExportRule, dcm: DeviceCapabilityManifest) -> bool {
    exists|i: int|
        0 <= i < rule.jurisdictions@.len() && dcm.jurisdictions@.contains(
            #[trigger] rule.jurisdictions@[i],
        )
}

/// The first check a profile fails against a manifest, if any.
pub open spec fn hci_failed_check(p: HciExportProfile, dcm: DeviceCapabilityManifest) -> Option<HciCheck> {
    if p.device_manifest_id != dcm.id {
        Some(HciCheck::ManifestMismatch)
    } else if p.rules@.len() == 0 {
        Some(HciCheck::NoRules)
    } else if dcm.privacy == PrivacyLevel::High && exists|i: int|
        0 <= i < p.rules@.len() && (#[trigger] p.rules@[i]).risk_level == HciRiskLevel::High {
        Some(HciCheck::HighRiskOnHighPrivacy)
    } else if exists|i: int| 0 <= i < p.rules@.len() && !rule_overlaps(#[trigger] p.rules@[i], dcm) {
        Some(HciCheck::NoJurisdictionOverlap)
    } else {
        None
    }
}

pub open spec fn hci_message(c: HciCheck) -> Seq<char> {
    match c {
        HciCheck::ManifestMismatch => "HCI profile device_manifest_id mismatch"@,
        HciCheck::NoRules => "HCI profile must define at least one export rule"@,
        HciCheck::HighRiskOnHighPrivacy =>
            "High-privacy DCM cannot have High-risk HCI export rules"@,
        HciCheck::NoJurisdictionOverlap => "HCI rule has no jurisdiction overlap with DCM"@,
    }
}

fn violation(msg: &str) -> (r: Result<(), CyconeticsBciError>)
    ensures
        r matches Err(CyconeticsBciError::ManifestViolation(m)) && m@ == msg@,
{
    Err(CyconeticsBciError::ManifestViolation(msg.to_owned()))
}

impl HciExportProfile {
    /// Succeeds exactly when the profile was written for `dcm`, has rules, exports no
    /// high-risk state from a high-privacy device, and every rule shares a
    /// jurisdiction with the device; otherwise reports the first failing check.
    pub fn validate_against(&self, dcm: &DeviceCapabilityManifest) -> (r: Result<(), CyconeticsBciError>)
        ensures
            hci_failed_check(*self, *dcm) is None ==> r is Ok,
            hci_failed_check(*self, *dcm) matches Some(c) ==> (r matches Err(
                CyconeticsBciError::ManifestViolation(m),
            ) && m@ == hci_message(c)),
    {
        proof {
            reveal_strlit("HCI profile device_manifest_id mismatch");
            reveal_strlit("HCI profile must define at least one export rule");
            reveal_strlit("High-privacy DCM cannot have High-risk HCI export rules");
            reveal_strlit("HCI rule has no jurisdiction overlap with DCM");
        }
        if self.device_manifest_id != dcm.id {
            return violation("HCI profile device_manifest_id mismatch");
        }
        if self.rules.len() == 0 {
            return violation("HCI profile must define at least one export rule");
        }
        if dcm.privacy == PrivacyLevel::High {
            let mut i: usize = 0;
            while i < self.rules.len()
                invariant
                    i <= self.rules@.len(),
                    self.device_manifest_id == dcm.id,
                    self.rules@.len() > 0,
                    dcm.privacy == PrivacyLevel::High,
                    forall|k: int| 0 <= k < i ==> (#[trigger] self.rules@[k]).risk_level != HciRiskLevel::High,
                decreases self.rules@.len() - i,
            {
                if self.rules[i].risk_level == HciRiskLevel::High {
                    assert((self.rules@[i as int]).risk_level == HciRiskLevel::High);
                    return violation("High-privacy DCM cannot have High-risk HCI export rules");
                }
                i = i + 1;
            }
        }
        let mut j: usize = 0;
        while j < self.rules.len()
            invariant
                j <= self.rules@.len(),
                hci_failed_check(*self, *dcm) is None || hci_failed_check(*self, *dcm) == Some(
                    HciCheck::NoJurisdictionOverlap,
                ),
                forall|k: int| 0 <= k < j ==> rule_overlaps(#[trigger] self.rules@[k], *dcm),
            decreases self.rules@.len() - j,
        {
            if !shares_jurisdiction(&self.rules[j].jurisdictions, &dcm.jurisdictions) {
                assert(!rule_overlaps(self.rules@[j as int], *dcm));
                return violation("HCI rule has no jurisdiction overlap with DCM");
            }
            j = j + 1;
        }
        Ok(())
    }
}

} // verus!
