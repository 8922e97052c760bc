use vstd::prelude::*;

verus! {

/// Errors of the device-manifest and site checks.
pub enum CyconeticsBciError {
    ManifestViolation(String),
    DeviceError(String),
    ArtifactError(String),
    SigningError(String),
    ConfigError(String),
}

} // verus!
