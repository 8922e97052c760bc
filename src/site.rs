use vstd::prelude::*;
use vstd::string::StringExecFns;

use crate::dcm::{DeviceCapabilityManifest, Jurisdiction};
use crate::error::CyconeticsBciError;
use crate::text::{decimal, is_prefix, push_decimal, same_text, starts_with};

verus! {

/// Rank of a risk band label; an unknown label ranks as the worst.
pub open spec fn band_rank_of(b: Seq<char>) -> u8 {
    if b == "low"@ {
        0
    } else if b == "medium"@ {
        1
    } else if b == "high"@ {
        2
    } else if b == "extreme"@ {
        3
    } else {
        4
    }
}

/// The window of risk bands a site allows, both ends inclusive.
pub struct RiskBandPolicy {
    /// For example "low".
    pub min_band: String,
    /// For example "high".
    pub max_band: String,
}

pub open spec fn policy_allows(min_band: Seq<char>, max_band: Seq<char>, band: Seq<char>) -> bool {
    band_rank_of(min_band) <= band_rank_of(band) <= band_rank_of(max_band)
}

impl RiskBandPolicy {
    pub fn band_rank(band: &str) -> (r: u8)
        ensures
            r == band_rank_of(band@),
    {
        proof {
            reveal_strlit("low");
            reveal_strlit("medium");
            reveal_strlit("high");
            reveal_strlit("extreme");
        }
        if same_text(band, "low") {
            0
        } else if same_text(band, "medium") {
            1
        } else if same_text(band, "high") {
            2
        } else if same_text(band, "extreme") {
            3
        } else {
            4
        }
    }

    /// Whether a device band falls in the window.
    pub fn allows(&self, device_band: &str) -> (r: bool)
        ensures
            r == policy_allows(self.min_band@, self.max_band@, device_band@),
    {
        let d = RiskBandPolicy::band_rank(device_band);
        let min = RiskBandPolicy::band_rank(self.min_band.as_str());
        let max = RiskBandPolicy::band_rank(self.max_band.as_str());
        d >= min && d <= max
    }
}

/// A site (lab grid) and what it admits.
pub struct SiteProfile {
    pub id: String,
    pub label: String,
    pub jurisdictions: Vec<Jurisdiction>,
    pub max_hazard_level: u8,
    pub allowed_zone_prefixes: Vec<String>,
    pub risk_policy: RiskBandPolicy,
}

/// The checks of `can_use_device_in_zone`, in the order they are made.
pub enum SiteCheck {
    HazardAboveSite,
    ZoneNotRecognized,
    NoJurisdictionOverlap,
    HazardOutsideDevice,
    ZoneNotAllowed,
    RiskBandNotAllowed,
}

/// The first check a device, zone and hazard level fail at a site, if any.
pub open spec fn site_failed_check(
    site: SiteProfile,
    m: DeviceCapabilityManifest,
    zone: Seq<char>,
    hazard: u8,
) -> Option<SiteCheck> {
    if hazard > site.max_hazard_level {
        Some(SiteCheck::HazardAboveSite)
    } else if !(exists|i: int|
        0 <= i < site.allowed_zone_prefixes@.len() && is_prefix(
            #[trigger] site.allowed_zone_prefixes@[i]@,
            zone,
        )) {
        Some(SiteCheck::ZoneNotRecognized)
    } else if !(exists|i: int|
        0 <= i < m.jurisdictions@.len() && site.jurisdictions@.contains(
            #[trigger] m.jurisdictions@[i],
        )) {
        Some(SiteCheck::NoJurisdictionOverlap)
    } else if hazard < m.xr_grid.min_hazard_level || hazard > m.xr_grid.max_hazard_level {
        Some(SiteCheck::HazardOutsideDevice)
    } else if !(exists|i: int|
        0 <= i < m.xr_grid.allowed_zones@.len() && #[trigger] m.xr_grid.allowed_zones@[i]@
            == zone) {
        Some(SiteCheck::ZoneNotAllowed)
    } else if !policy_allows(
        site.risk_policy.min_band@,
        site.risk_policy.max_band@,
        m.risk_score.risk_band@,
    ) {
        Some(SiteCheck::RiskBandNotAllowed)
    } else {
        None
    }
}

/// The message a failed site check reports.
pub open spec fn site_message(
    c: SiteCheck,
    site: SiteProfile,
    m: DeviceCapabilityManifest,
    zone: Seq<char>,
    hazard: u8,
) -> Seq<char> {
    match c {
        SiteCheck::HazardAboveSite => "Requested hazard_level "@ + decimal(hazard as nat)
            + " exceeds site max "@ + decimal(site.max_hazard_level as nat),
        SiteCheck::ZoneNotRecognized => "Zone '"@ + zone + "' is not recognized for site '"@
            + site.id@ + "'"@,
        SiteCheck::NoJurisdictionOverlap => "Device jurisdictions incompatible with site profile"@,
        SiteCheck::HazardOutsideDevice => "Hazard level "@ + decimal(hazard as nat)
            + " outside device range ["@ + decimal(m.xr_grid.min_hazard_level as nat) + ", "@
            + decimal(m.xr_grid.max_hazard_level as nat) + "]"@,
        SiteCheck::ZoneNotAllowed => "Zone '"@ + zone + "' not listed in device allowed_zones"@,
        SiteCheck::RiskBandNotAllowed => "Device risk band '"@ + m.risk_score.risk_band@
            + "' not allowed at site '"@ + site.id@ + "' (allowed: "@ + site.risk_policy.min_band@
            + "..="@ + site.risk_policy.max_band@ + ")"@,
    }
}

fn has_jurisdiction(v: &Vec<Jurisdiction>, j: Jurisdiction) -> (r: bool)
    ensures
        r == v@.contains(j),
{
    let mut i: usize = 0;
    while i < v.len()
        invariant
            i <= v@.len(),
            forall|k: int| 0 <= k < i ==> v@[k] != j,
        decreases v@.len() - i,
    {
        if v[i] == j {
            assert(v@[i as int] == j);
            return true;
        }
        i = i + 1;
    }
    false
}

/// Whether one of `prefixes` begins `zone`.
fn any_prefix_of(prefixes: &Vec<String>, zone: &str) -> (r: bool)
    ensures
        r == exists|i: int| 0 <= i < prefixes@.len() && is_prefix(#[trigger] prefixes@[i]@, zone@),
{
    let mut i: usize = 0;
    while i < prefixes.len()
        invariant
            i <= prefixes@.len(),
            forall|k: int| 0 <= k < i ==> !is_prefix(#[trigger] prefixes@[k]@, zone@),
        decreases prefixes@.len() - i,
    {
        if starts_with(zone, prefixes[i].as_str()) {
            return true;
        }
        i = i + 1;
    }
    false
}

/// Whether some jurisdiction of `device` is one of `site`.
pub(crate) fn shares_jurisdiction(device: &Vec<Jurisdiction>, site: &Vec<Jurisdiction>) -> (r: bool)
    ensures
        r == exists|i: int| 0 <= i < device@.len() && site@.contains(#[trigger] device@[i]),
{
    let mut i: usize = 0;
    while i < device.len()
        invariant
            i <= device@.len(),
            forall|k: int| 0 <= k < i ==> !site@.contains(#[trigger] device@[k]),
        decreases device@.len() - i,
    {
        if has_jurisdiction(site, device[i]) {
            return true;
        }
        i = i + 1;
    }
    false
}

/// Whether `zones` lists `zone`.
fn lists_zone(zones: &Vec<String>, zone: &str) -> (r: bool)
    ensures
        r == exists|i: int| 0 <= i < zones@.len() && #[trigger] zones@[i]@ == zone@,
{
    let mut i: usize = 0;
    while i < zones.len()
        invariant
            i <= zones@.len(),
            forall|k: int| 0 <= k < i ==> #[trigger] zones@[k]@ != zone@,
        decreases zones@.len() - i,
    {
        if same_text(zones[i].as_str(), zone) {
            return true;
        }
        i = i + 1;
    }
    false
}

impl SiteProfile {
    /// Succeeds exactly when the device may be used in `zone_id` at `hazard_level` on
    /// this site; otherwise reports the first failing check.
    pub fn can_use_device_in_zone(
        &self,
        manifest: &DeviceCapabilityManifest,
        zone_id: &str,
        hazard_level: u8,
    ) -> (r: Result<(), CyconeticsBciError>)
        ensures
            site_failed_check(*self, *manifest, zone_id@, hazard_level) is None ==> r is Ok,
            site_failed_check(*self, *manifest, zone_id@, hazard_level) matches Some(c) ==> (r matches Err(
                CyconeticsBciError::ManifestViolation(msg),
            ) && msg@ == site_message(c, *self, *manifest, zone_id@, hazard_level)),
    {
        if hazard_level > self.max_hazard_level {
            let mut msg = String::new();
            msg.append("Requested hazard_level ");
            push_decimal(&mut msg, hazard_level);
            msg.append(" exceeds site max ");
            push_decimal(&mut msg, self.max_hazard_level);
            proof {
                reveal_strlit("Requested hazard_level ");
                reveal_strlit(" exceeds site max ");
                assert(msg@ =~= site_message(
                    SiteCheck::HazardAboveSite,
                    *self,
                    *manifest,
                    zone_id@,
                    hazard_level,
                ));
            }
            return Err(CyconeticsBciError::ManifestViolation(msg));
        }
        let prefix_ok = any_prefix_of(&self.allowed_zone_prefixes, zone_id);
        if !prefix_ok {
            let mut msg = String::new();
            msg.append("Zone '");
            msg.append(zone_id);
            msg.append("' is not recognized for site '");
            msg.append(self.id.as_str());
            msg.append("'");
            proof {
                reveal_strlit("Zone '");
                reveal_strlit("' is not recognized for site '");
                reveal_strlit("'");
                assert(msg@ =~= site_message(
                    SiteCheck::ZoneNotRecognized,
                    *self,
                    *manifest,
                    zone_id@,
                    hazard_level,
                ));
            }
            return Err(CyconeticsBciError::ManifestViolation(msg));
        }
        let overlap = shares_jurisdiction(&manifest.jurisdictions, &self.jurisdictions);
        if !overlap {
            proof {
                reveal_strlit("Device jurisdictions incompatible with site profile");
            }
            return Err(
                CyconeticsBciError::ManifestViolation(
                    "Device jurisdictions incompatible with site profile".to_owned(),
                ),
            );
        }
        if hazard_level < manifest.xr_grid.min_hazard_level || hazard_level
            > manifest.xr_grid.max_hazard_level {
            let mut msg = String::new();
            msg.append("Hazard level ");
            push_decimal(&mut msg, hazard_level);
            msg.append(" outside device range [");
            push_decimal(&mut msg, manifest.xr_grid.min_hazard_level);
            msg.append(", ");
            push_decimal(&mut msg, manifest.xr_grid.max_hazard_level);
            msg.append("]");
            proof {
                reveal_strlit("Hazard level ");
                reveal_strlit(" outside device range [");
                reveal_strlit(", ");
                reveal_strlit("]");
                assert(msg@ =~= site_message(
                    SiteCheck::HazardOutsideDevice,
                    *self,
                    *manifest,
                    zone_id@,
                    hazard_level,
                ));
            }
            return Err(CyconeticsBciError::ManifestViolation(msg));
        }
        let listed = lists_zone(&manifest.xr_grid.allowed_zones, zone_id);
        if !listed {
            let mut msg = String::new();
            msg.append("Zone '");
            msg.append(zone_id);
            msg.append("' not listed in device allowed_zones");
            proof {
                reveal_strlit("Zone '");
                reveal_strlit("' not listed in device allowed_zones");
                assert(msg@ =~= site_message(
                    SiteCheck::ZoneNotAllowed,
                    *self,
                    *manifest,
                    zone_id@,
                    hazard_level,
                ));
            }
            return Err(CyconeticsBciError::ManifestViolation(msg));
        }
        if !self.risk_policy.allows(manifest.risk_score.risk_band.as_str()) {
            let mut msg = String::new();
            msg.append("Device risk band '");
            msg.append(manifest.risk_score.risk_band.as_str());
            msg.append("' not allowed at site '");
            msg.append(self.id.as_str());
            msg.append("' (allowed: ");
            msg.append(self.risk_policy.min_band.as_str());
            msg.append("..=");
            msg.append(self.risk_policy.max_band.as_str());
            msg.append(")");
            proof {
                reveal_strlit("Device risk band '");
                reveal_strlit("' not allowed at site '");
                reveal_strlit("' (allowed: ");
                reveal_strlit("..=");
                reveal_strlit(")");
                assert(msg@ =~= site_message(
                    SiteCheck::RiskBandNotAllowed,
                    *self,
                    *manifest,
                    zone_id@,
                    hazard_level,
                ));
            }
            return Err(CyconeticsBciError::ManifestViolation(msg));
        }
        Ok(())
    }
}

/// California site: low and medium risk devices in CA zones.
pub fn site_profile_california() -> (r: SiteProfile)
    ensures
        r.id@ == "US-CA-XRGRID-1"@,
        r.jurisdictions@ == seq![Jurisdiction::UsCa],
        r.max_hazard_level == 3,
        r.allowed_zone_prefixes@.len() == 3,
        r.allowed_zone_prefixes@[0]@ == "CA-"@,
        r.allowed_zone_prefixes@[1]@ == "CA-LA-"@,
        r.allowed_zone_prefixes@[2]@ == "CA-SF-"@,
        r.risk_policy.min_band@ == "low"@,
        r.risk_policy.max_band@ == "medium"@,
{
    let mut prefixes: Vec<String> = Vec::new();
    prefixes.push("CA-".to_owned());
    prefixes.push("CA-LA-".to_owned());
    prefixes.push("CA-SF-".to_owned());
    let mut jurisdictions: Vec<Jurisdiction> = Vec::new();
    jurisdictions.push(Jurisdiction::UsCa);
    proof {
        assert(jurisdictions@ =~= seq![Jurisdiction::UsCa]);
    }
    SiteProfile {
        id: "US-CA-XRGRID-1".to_owned(),
        label: "California XR Grid".to_owned(),
        jurisdictions,
        max_hazard_level: 3,
        allowed_zone_prefixes: prefixes,
        risk_policy: RiskBandPolicy { min_band: "low".to_owned(), max_band: "medium".to_owned() },
    }
}

/// Arizona (Phoenix) site: up to high risk devices in AZ zones.
pub fn site_profile_arizona() -> (r: SiteProfile)
    ensures
        r.id@ == "US-AZ-XRGRID-1"@,
        r.jurisdictions@ == seq![Jurisdiction::UsAz],
        r.max_hazard_level == 3,
        r.allowed_zone_prefixes@.len() == 2,
        r.allowed_zone_prefixes@[0]@ == "AZ-PHX-"@,
        r.allowed_zone_prefixes@[1]@ == "AZ-"@,
        r.risk_policy.min_band@ == "low"@,
        r.risk_policy.max_band@ == "high"@,
{
    let mut prefixes: Vec<String> = Vec::new();
    prefixes.push("AZ-PHX-".to_owned());
    prefixes.push("AZ-".to_owned());
    let mut jurisdictions: Vec<Jurisdiction> = Vec::new();
    jurisdictions.push(Jurisdiction::UsAz);
    proof {
        assert(jurisdictions@ =~= seq![Jurisdiction::UsAz]);
    }
    SiteProfile {
        id: "US-AZ-XRGRID-1".to_owned(),
        label: "Arizona XR Grid".to_owned(),
        jurisdictions,
        max_hazard_level: 3,
        allowed_zone_prefixes: prefixes,
        risk_policy: RiskBandPolicy { min_band: "low".to_owned(), max_band: "high".to_owned() },
    }
}

} // verus!
