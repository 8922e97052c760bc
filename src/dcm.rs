use vstd::prelude::*;

use crate::error::CyconeticsBciError;
use crate::text::same_text;

verus! {

/// Jurisdiction tags of lab grids.
#[derive(Clone, Copy, Debug, PartialEq, Eq, Structural)]
pub enum Jurisdiction {
    UsCa,
    UsAz,
    Other,
}

#[derive(Clone, Copy, Debug, PartialEq, Eq, Structural)]
pub enum PrivacyLevel {
    Low,
    Medium,
    High,
}

#[derive(Clone, Copy, Debug, PartialEq, Eq, Structural)]
pub struct SamplingConstraints {
    pub min_hz: u32,
    pub max_hz: u32,
    pub default_hz: u32,
}

#[derive(Clone, Copy, Debug, PartialEq, Eq, Structural)]
pub struct SessionConstraints {
    pub max_duration_secs: u32,
    pub min_rest_secs: u32,
}

pub struct ChannelSpec {
    pub index: u16,
    pub label: String,
    pub unit: String,
    pub closed_loop_safe: bool,
}

#[derive(Clone, Copy, Debug, PartialEq, Eq, Structural)]
pub enum BackendKind {
    BrainFlow,
    LslSource,
    VendorC,
}

/// XR-grid zoning of a device.
pub struct XrGridBinding {
    pub allowed_zones: Vec<String>,
    pub min_hazard_level: u8,
    pub max_hazard_level: u8,
}

#[derive(Clone, Copy, Debug, PartialEq, Eq, Structural)]
pub enum CybostateSchemaVersion {
    V1,
    V2,
}

/// The risk byte from which a device's risk score breaks the ceiling: 0x4C is the
/// last byte at or under 0.30 of 0xFF.
pub const MAX_CEILING_RISK_BYTE: u8 = 0x4C;

/// K/S/R risk score of a device, each a byte.
pub struct RiskScore {
    pub k_usefulness: u8,
    pub s_social_impact: u8,
    pub r_risk_of_harm: u8,
    /// "low", "medium", "high" or "extreme", derived from the risk byte.
    pub risk_band: String,
}

/// The band label of a risk byte.
pub open spec fn band_label(r: u8) -> Seq<char> {
    if r <= 0x40 {
        "low"@
    } else if r <= 0x80 {
        "medium"@
    } else if r <= 0xC0 {
        "high"@
    } else {
        "extreme"@
    }
}

/// Whether a string is one of the four band labels.
pub open spec fn is_band_label(b: Seq<char>) -> bool {
    b == "low"@ || b == "medium"@ || b == "high"@ || b == "extreme"@
}

impl RiskScore {
    /// A score with the band derived from `r`.
    pub fn from_components(k: u8, s: u8, r: u8) -> (score: RiskScore)
        ensures
            score.k_usefulness == k,
            score.s_social_impact == s,
            score.r_risk_of_harm == r,
            score.risk_band@ == band_label(r),
    {
        proof {
            reveal_strlit("low");
            reveal_strlit("medium");
            reveal_strlit("high");
            reveal_strlit("extreme");
        }
        let risk_band = if r <= 0x40 {
            "low".to_owned()
        } else if r <= 0x80 {
            "medium".to_owned()
        } else if r <= 0xC0 {
            "high".to_owned()
        } else {
            "extreme".to_owned()
        };
        RiskScore { k_usefulness: k, s_social_impact: s, r_risk_of_harm: r, risk_band }
    }

    /// Whether the risk byte respects the 0.30 ceiling.
    pub fn respects_roh_ceiling(&self) -> (r: bool)
        ensures
            r == (self.r_risk_of_harm <= MAX_CEILING_RISK_BYTE),
    {
        self.r_risk_of_harm <= MAX_CEILING_RISK_BYTE
    }
}

pub struct BackendConfig {
    pub kind: BackendKind,
    pub identifier: String,
}

#[derive(Clone, Copy, Debug, PartialEq, Eq, Structural)]
pub struct SafetyFlags {
    pub can_stimulate: bool,
    pub medical_isolation_rated: bool,
}

/// Device capability manifest.
pub struct DeviceCapabilityManifest {
    pub id: uuid::Uuid,
    pub name: String,
    pub version: String,
    pub backend: BackendConfig,
    pub channels: Vec<ChannelSpec>,
    pub sampling: SamplingConstraints,
    pub session: SessionConstraints,
    pub jurisdictions: Vec<Jurisdiction>,
    pub privacy: PrivacyLevel,
    pub safety: SafetyFlags,
    pub xr_grid: XrGridBinding,
    pub risk_score: RiskScore,
    pub cfschema_version: CybostateSchemaVersion,
    pub tags: Vec<String>,
    /// Creation time in milliseconds since the Unix epoch.
    pub created_at_ms: i64,
}

/// The checks of `validate`, in the order they are made; the first that fails
/// names the error.
pub enum ManifestCheck {
    NoChannels,
    InvalidSampling,
    DefaultRateOutOfBounds,
    ZeroSessionDuration,
    NoAllowedZones,
    InconsistentHazardLevels,
    UnknownRiskBand,
    RiskAboveCeiling,
}

/// The first check a manifest fails, if any.
pub open spec fn first_failed_check(m: DeviceCapabilityManifest) -> Option<ManifestCheck> {
    if m.channels@.len() == 0 {
        Some(ManifestCheck::NoChannels)
    } else if m.sampling.min_hz == 0 || m.sampling.max_hz == 0 || m.sampling.min_hz
        > m.sampling.max_hz {
        Some(ManifestCheck::InvalidSampling)
    } else if m.sampling.default_hz < m.sampling.min_hz || m.sampling.default_hz
        > m.sampling.max_hz {
        Some(ManifestCheck::DefaultRateOutOfBounds)
    } else if m.session.max_duration_secs == 0 {
        Some(ManifestCheck::ZeroSessionDuration)
    } else if m.xr_grid.allowed_zones@.len() == 0 {
        Some(ManifestCheck::NoAllowedZones)
    } else if m.xr_grid.min_hazard_level > m.xr_grid.max_hazard_level {
        Some(ManifestCheck::InconsistentHazardLevels)
    } else if !is_band_label(m.risk_score.risk_band@) {
        Some(ManifestCheck::UnknownRiskBand)
    } else if m.risk_score.r_risk_of_harm > MAX_CEILING_RISK_BYTE {
        Some(ManifestCheck::RiskAboveCeiling)
    } else {
        None
    }
}

/// The message a failed check reports.
pub open spec fn check_message(c: ManifestCheck) -> Seq<char> {
    match c {
        ManifestCheck::NoChannels => "DCM must declare at least one channel"@,
        ManifestCheck::InvalidSampling => "Invalid sampling constraints"@,
        ManifestCheck::DefaultRateOutOfBounds => "Default sampling rate out of bounds"@,
        ManifestCheck::ZeroSessionDuration => "Session max_duration_secs must be > 0"@,
        ManifestCheck::NoAllowedZones =>
            "XR-grid configuration must declare at least one allowed zone"@,
        ManifestCheck::InconsistentHazardLevels => "XR-grid hazard levels are inconsistent"@,
        ManifestCheck::UnknownRiskBand =>
            "risk_score.risk_band must be one of: low, medium, high, extreme"@,
        ManifestCheck::RiskAboveCeiling =>
            "risk_score.r_risk_of_harm exceeds RoH 0.3 ceiling for this grid"@,
    }
}

/// A manifest violation carrying `msg`.
fn violation(msg: &str) -> (r: Result<(), CyconeticsBciError>)
    ensures
        r matches Err(CyconeticsBciError::ManifestViolation(m)) && m@ == msg@,
{
    Err(CyconeticsBciError::ManifestViolation(msg.to_owned()))
}

/// Whether `band` is one of the four band labels.
pub fn is_known_band(band: &str) -> (r: bool)
    ensures
        r == is_band_label(band@),
{
    same_text(band, "low") || same_text(band, "medium") || same_text(band, "high")
        || same_text(band, "extreme")
}

impl DeviceCapabilityManifest {
    /// Succeeds exactly when every structural check passes; otherwise reports the
    /// first failing check.
    pub fn validate(&self) -> (r: Result<(), CyconeticsBciError>)
        ensures
            first_failed_check(*self) is None ==> r is Ok,
            first_failed_check(*self) matches Some(c) ==> (r matches Err(
                CyconeticsBciError::ManifestViolation(m),
            ) && m@ == check_message(c)),
    {
        proof {
            reveal_strlit("DCM must declare at least one channel");
            reveal_strlit("Invalid sampling constraints");
            reveal_strlit("Default sampling rate out of bounds");
            reveal_strlit("Session max_duration_secs must be > 0");
            reveal_strlit("XR-grid configuration must declare at least one allowed zone");
            reveal_strlit("XR-grid hazard levels are inconsistent");
            reveal_strlit("risk_score.risk_band must be one of: low, medium, high, extreme");
            reveal_strlit("risk_score.r_risk_of_harm exceeds RoH 0.3 ceiling for this grid");
        }
        if self.channels.len() == 0 {
            return violation("DCM must declare at least one channel");
        }
        if self.sampling.min_hz == 0 || self.sampling.max_hz == 0 || self.sampling.min_hz
            > self.sampling.max_hz {
            return violation("Invalid sampling constraints");
        }
        if self.sampling.default_hz < self.sampling.min_hz || self.sampling.default_hz
            > self.sampling.max_hz {
            return violation("Default sampling rate out of bounds");
        }
        if self.session.max_duration_secs == 0 {
            return violation("Session max_duration_secs must be > 0");
        }
        if self.xr_grid.allowed_zones.len() == 0 {
            return violation("XR-grid configuration must declare at least one allowed zone");
        }
        if self.xr_grid.min_hazard_level > self.xr_grid.max_hazard_level {
            return violation("XR-grid hazard levels are inconsistent");
        }
        if !is_known_band(self.risk_score.risk_band.as_str()) {
            return violation("risk_score.risk_band must be one of: low, medium, high, extreme");
        }
        if !self.risk_score.respects_roh_ceiling() {
            return violation("risk_score.r_risk_of_harm exceeds RoH 0.3 ceiling for this grid");
        }
        Ok(())
    }
}

} // verus!
