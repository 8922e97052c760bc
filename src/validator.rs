use vstd::prelude::*;

use crate::text::{contains_text, occurs_in};

verus! {

/// Lab-grid jurisdictions of the zone policy.
#[derive(Clone, Copy, Debug, PartialEq, Eq, Structural)]
pub enum JurisdictionCode {
    /// Phoenix, Arizona lab grid.
    UsAzPhx,
    /// San Jolla, California lab grid.
    UsCaSjo,
    /// Global ecological sustainability grid.
    GlobalEco,
}

/// Zone checks of the site policy.
pub struct SiteValidator;

/// Whether a zone only reads: its id names "READ_ONLY" or "GLOBAL_ECO".
pub open spec fn read_only_zone(zone_id: Seq<char>) -> bool {
    occurs_in("READ_ONLY"@, zone_id) || occurs_in("GLOBAL_ECO"@, zone_id)
}

impl SiteValidator {
    pub fn is_read_only_zone(zone_id: &str) -> (r: bool)
        ensures
            r == read_only_zone(zone_id@),
    {
        contains_text(zone_id, "READ_ONLY") || contains_text(zone_id, "GLOBAL_ECO")
    }
}

} // verus!
