//! Risk-bounded decision governance: evidence-based risk prediction, ceiling-bound
//! tokens, role deciders with a host veto, an append-only decision ledger with a
//! sidecar guard, a risk-band scheduler policy and a per-session risk accumulator,
//! together with the device-manifest and site checks that feed them.
//!
//! Risk values are fixed-point integers, so that every comparison against the 0.30
//! ceiling is exact: predicted risk in millionths (`types::RISK_SCALE` is 1.0),
//! session exposure in thousandths of a risk byte, device risk as a byte.

// Evidence, prediction, tokens and decision records.
pub mod types;
// Role deciders and the unanimity-with-veto combination.
pub mod roles;
// Append-only decision ledger and the sidecar guard.
pub mod ledger;
// Risk-guarded host state and the host/zone scheduler policy.
pub mod roh_guard;
// The Phoenix to San Jolla upgrade flow, end to end.
pub mod phx_flow;
// Risk bands and the scheduler decision table.
pub mod scheduler;
// Retrieval envelopes and the session risk accumulator.
pub mod retrieval;
pub mod session;
// Device manifests, HCI export profiles and site policies.
pub mod error;
pub mod dcm;
pub mod hci_profile;
pub mod site;
pub mod validator;
// Identifiers and text helpers.
pub mod ids;
pub mod text;
