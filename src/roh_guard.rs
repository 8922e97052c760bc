use vstd::prelude::*;

use crate::types::{
    can_bind, predicted_risk, roh_from_biokarma, EvidenceBundle, EvidenceError, RoHBound,
    MIN_BIOKARMA_SAMPLES, RISK_SCALE, ROH_CEILING,
};

verus! {

/// High-level outcome for an upgrade.
#[derive(Clone, Copy, Debug, PartialEq, Eq, Structural)]
pub enum UpgradeDecision {
    Approved,
    Denied,
}

/// Risk-guarded state of a host and a candidate upgrade.
pub struct RoHGuardedHostState {
    pub host_did: String,
    pub upgrade_id: String,
    pub evolution_id: String,
    /// Last observed risk, in millionths.
    pub last_observed_roh: u32,
    /// Predicted risk, in millionths.
    pub predicted_roh: u32,
    pub roh_token: Option<RoHBound>,
}

pub enum RoHPredictError {
    Evidence(EvidenceError),
}

/// Approval is strict: a risk equal to the ceiling is denied.
pub open spec fn upgrade_verdict(roh: int) -> UpgradeDecision {
    if roh < ROH_CEILING {
        UpgradeDecision::Approved
    } else {
        UpgradeDecision::Denied
    }
}

/// The state and decision that `predict_roh` derives from valid evidence.
pub open spec fn predicted_state(
    s: RoHGuardedHostState,
    d: UpgradeDecision,
    host_did: Seq<char>,
    upgrade_id: Seq<char>,
    evolution_id: Seq<char>,
    samples: Seq<i32>,
) -> bool {
    let roh = predicted_risk(samples);
    &&& s.host_did@ == host_did
    &&& s.upgrade_id@ == upgrade_id
    &&& s.evolution_id@ == evolution_id
    &&& s.last_observed_roh == roh
    &&& s.predicted_roh == roh
    &&& (s.roh_token is Some <==> can_bind(roh as u32, ROH_CEILING))
    &&& (s.roh_token matches Some(t) ==> t.roh() == roh && t.bound() == ROH_CEILING)
    &&& d == upgrade_verdict(roh)
}

impl RoHGuardedHostState {
    /// Validates the evidence, predicts the risk, binds a token when the risk is at or
    /// under the ceiling, and approves when it is strictly under.
    pub fn predict_roh(
        host_did: &str,
        upgrade_id: &str,
        evolution_id: &str,
        evidence: &EvidenceBundle,
    ) -> (r: Result<(RoHGuardedHostState, UpgradeDecision), RoHPredictError>)
        requires
            evidence.biokarma@.len() <= u32::MAX,
        ensures
            evidence.biokarma@.len() < MIN_BIOKARMA_SAMPLES ==> r == Err::<
                (RoHGuardedHostState, UpgradeDecision),
                RoHPredictError,
            >(
                RoHPredictError::Evidence(
                    EvidenceError::TooFewBiokarma { len: evidence.biokarma@.len() as usize },
                ),
            ),
            evidence.biokarma@.len() >= MIN_BIOKARMA_SAMPLES ==> (r matches Ok((s, d))
                && predicted_state(s, d, host_did@, upgrade_id@, evolution_id@, evidence.biokarma@)),
    {
        match evidence.validate() {
            Ok(()) => {},
            Err(e) => {
                return Err(RoHPredictError::Evidence(e));
            },
        }
        let roh = roh_from_biokarma(evidence);
        let token = RoHBound::new(roh);
        let decision = if roh < ROH_CEILING {
            UpgradeDecision::Approved
        } else {
            UpgradeDecision::Denied
        };
        Ok(
            (
                RoHGuardedHostState {
                    host_did: host_did.to_owned(),
                    upgrade_id: upgrade_id.to_owned(),
                    evolution_id: evolution_id.to_owned(),
                    last_observed_roh: roh,
                    predicted_roh: roh,
                    roh_token: token,
                },
                decision,
            ),
        )
    }
}

/// Host/zone scheduler policy for the Phoenix to San Jolla path: authorizes only
/// with a bound token and a predicted risk strictly under the ceiling.
pub struct PhoenixToSanJollaPolicy;

impl PhoenixToSanJollaPolicy {
    pub fn can_authorize(&self, state: &RoHGuardedHostState) -> (r: bool)
        ensures
            r == (state.predicted_roh < ROH_CEILING && state.roh_token is Some),
    {
        state.predicted_roh < ROH_CEILING && state.roh_token.is_some()
    }

    pub fn decide(&self, state: &RoHGuardedHostState) -> (r: UpgradeDecision)
        ensures
            r == (if state.predicted_roh < ROH_CEILING && state.roh_token is Some {
                UpgradeDecision::Approved
            } else {
                UpgradeDecision::Denied
            }),
    {
        if self.can_authorize(state) {
            UpgradeDecision::Approved
        } else {
            UpgradeDecision::Denied
        }
    }
}

/// The Phoenix host's DID.
pub open spec fn phx_host_did() -> Seq<char> {
    "did:bostrom:phx-host-001"@
}

/// State of the Phoenix host before any upgrade is attached.
pub fn mk_phx_host_state(current_roh: u32) -> (r: RoHGuardedHostState)
    ensures
        r.host_did@ == phx_host_did(),
        r.upgrade_id@ == Seq::<char>::empty(),
        r.evolution_id@ == Seq::<char>::empty(),
        r.last_observed_roh == current_roh,
        r.predicted_roh == current_roh,
        r.roh_token is None,
{
    proof {
        reveal_strlit("did:bostrom:phx-host-001");
    }
    RoHGuardedHostState {
        host_did: "did:bostrom:phx-host-001".to_owned(),
        upgrade_id: String::new(),
        evolution_id: String::new(),
        last_observed_roh: current_roh,
        predicted_roh: current_roh,
        roh_token: None,
    }
}

/// Predicted risk after a task: the last observation plus the task's cost, capped
/// at 1.0.
pub open spec fn task_risk(last_observed: int, roh_delta: int) -> int {
    if last_observed + roh_delta > RISK_SCALE {
        RISK_SCALE as int
    } else {
        last_observed + roh_delta
    }
}

/// Predicts the risk of a task and tries to bind it under the system ceiling.
pub fn predict_roh_for_task(state: &RoHGuardedHostState, roh_delta: u32) -> (r: (
    u32,
    Option<RoHBound>,
))
    ensures
        r.0 == task_risk(state.last_observed_roh as int, roh_delta as int),
        r.1 is Some <==> can_bind(r.0, ROH_CEILING),
        r.1 matches Some(t) ==> t.roh() == r.0 && t.bound() == ROH_CEILING,
{
    let sum = state.last_observed_roh as u64 + roh_delta as u64;
    let predicted: u32 = if sum > RISK_SCALE as u64 {
        RISK_SCALE
    } else {
        sum as u32
    };
    let token = RoHBound::new(predicted);
    (predicted, token)
}

} // verus!
