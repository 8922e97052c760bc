use vstd::prelude::*;

use crate::types::{
    can_bind, lemma_constant_evidence_has_zero_risk, predicted_risk, DecisionKind, DecisionRecord,
    RoHBound, ROH_CEILING,
};

verus! {

/// Relies on chrono's `Utc::now().timestamp_millis()`: the current time in
/// milliseconds since the Unix epoch. Nothing is stated of its value.
#[verifier::external_body]
pub(crate) fn now_millis() -> (r: i64) {
    chrono::Utc::now().timestamp_millis()
}

/// Identity of a host.
pub struct HostIdentity {
    pub host_did: String,
    pub aln: String,
    pub bostrom: String,
}

/// The action a decision is about.
pub struct UpgradeContext {
    pub upgrade_id: String,
    pub evolution_id: String,
    pub zone_id: String,
    pub scheduler_id: String,
}

/// The verdict of a score-driven role: approval needs a bound token and a risk
/// strictly under the ceiling.
pub open spec fn score_verdict(roh: u32, token_present: bool) -> DecisionKind {
    if roh < ROH_CEILING && token_present {
        DecisionKind::Approved
    } else {
        DecisionKind::Escalated
    }
}

/// What every record a role renders states about its inputs.
pub open spec fn records_inputs(
    r: DecisionRecord,
    host: HostIdentity,
    ctx: UpgradeContext,
    roh: u32,
    roh_token: Option<RoHBound>,
) -> bool {
    &&& r.host_did@ == host.host_did@
    &&& r.upgrade_id@ == ctx.upgrade_id@
    &&& r.evolution_id@ == ctx.evolution_id@
    &&& r.decided_by_did@ == host.host_did@
    &&& r.predicted_roh == roh
    &&& r.roh_token == roh_token
}

/// A record for `host` and `ctx`, decided by the host's own DID, stamped now.
fn make_record(
    host: &HostIdentity,
    ctx: &UpgradeContext,
    kind: DecisionKind,
    role: &str,
    roh: u32,
    roh_token: Option<RoHBound>,
    evidence_hash: &str,
) -> (r: DecisionRecord)
    ensures
        records_inputs(r, *host, *ctx, roh, roh_token),
        r.kind == kind,
        r.decided_by_role@ == role@,
        r.evidence_hash@ == evidence_hash@,
{
    DecisionRecord {
        host_did: host.host_did.clone(),
        upgrade_id: ctx.upgrade_id.clone(),
        evolution_id: ctx.evolution_id.clone(),
        kind,
        decided_by_role: role.to_owned(),
        decided_by_did: host.host_did.clone(),
        predicted_roh: roh,
        roh_token,
        timestamp_ms: now_millis(),
        evidence_hash: evidence_hash.to_owned(),
    }
}

pub trait NeurorightsDecider {
    fn decide_neurorights(
        &self,
        host: &HostIdentity,
        ctx: &UpgradeContext,
        roh: u32,
        roh_token: Option<RoHBound>,
    ) -> (r: DecisionRecord)
        ensures
            records_inputs(r, *host, *ctx, roh, roh_token),
            r.kind == score_verdict(roh, roh_token is Some),
            r.decided_by_role@ == "NeurorightsDecider"@,
            r.evidence_hash@ == "0xROLE_DECISION"@,
    ;
}

pub trait SafetyDecider {
    fn decide_safety(
        &self,
        host: &HostIdentity,
        ctx: &UpgradeContext,
        roh: u32,
        roh_token: Option<RoHBound>,
    ) -> (r: DecisionRecord)
        ensures
            records_inputs(r, *host, *ctx, roh, roh_token),
            r.kind == score_verdict(roh, roh_token is Some),
            r.decided_by_role@ == "SafetyDecider"@,
            r.evidence_hash@ == "0xROLE_DECISION"@,
    ;
}

/// The host's own voice. Every implementation vetoes: softening the veto takes a
/// change of this contract, not a runtime setting.
pub trait HostSelfDecider {
    fn decide_host_self(
        &self,
        host: &HostIdentity,
        ctx: &UpgradeContext,
        roh: u32,
        roh_token: Option<RoHBound>,
    ) -> (r: DecisionRecord)
        ensures
            records_inputs(r, *host, *ctx, roh, roh_token),
            r.kind == DecisionKind::Rejected,
            r.decided_by_role@ == "HostSelf"@,
            r.evidence_hash@ == "0xHOST_VETO"@,
    ;
}

/// The neurorights role.
pub struct NeurorightsRole;

/// The safety role.
pub struct SafetyRole;

/// The host-self role, which always vetoes.
pub struct HostSelf;

impl NeurorightsDecider for NeurorightsRole {
    fn decide_neurorights(
        &self,
        host: &HostIdentity,
        ctx: &UpgradeContext,
        roh: u32,
        roh_token: Option<RoHBound>,
    ) -> (r: DecisionRecord) {
        let kind = if roh < ROH_CEILING && roh_token.is_some() {
            DecisionKind::Approved
        } else {
            DecisionKind::Escalated
        };
        make_record(host, ctx, kind, "NeurorightsDecider", roh, roh_token, "0xROLE_DECISION")
    }
}

impl SafetyDecider for SafetyRole {
    fn decide_safety(
        &self,
        host: &HostIdentity,
        ctx: &UpgradeContext,
        roh: u32,
        roh_token: Option<RoHBound>,
    ) -> (r: DecisionRecord) {
        let kind = if roh < ROH_CEILING && roh_token.is_some() {
            DecisionKind::Approved
        } else {
            DecisionKind::Escalated
        };
        make_record(host, ctx, kind, "SafetyDecider", roh, roh_token, "0xROLE_DECISION")
    }
}

impl HostSelfDecider for HostSelf {
    fn decide_host_self(
        &self,
        host: &HostIdentity,
        ctx: &UpgradeContext,
        roh: u32,
        roh_token: Option<RoHBound>,
    ) -> (r: DecisionRecord) {
        make_record(host, ctx, DecisionKind::Rejected, "HostSelf", roh, roh_token, "0xHOST_VETO")
    }
}

/// Whether a host-self verdict stops the action.
pub open spec fn is_veto(kind: DecisionKind) -> bool {
    kind == DecisionKind::Rejected || kind == DecisionKind::Deferred
}

/// Unanimity with veto: a host veto rejects; otherwise a missing token or any
/// scoring role that did not approve escalates; otherwise the action is approved.
pub open spec fn combined_kind(
    token_present: bool,
    scoring: Seq<DecisionKind>,
    host_self: DecisionKind,
) -> DecisionKind {
    if is_veto(host_self) {
        DecisionKind::Rejected
    } else if !token_present || exists|i: int|
        0 <= i < scoring.len() && scoring[i] != DecisionKind::Approved {
        DecisionKind::Escalated
    } else {
        DecisionKind::Approved
    }
}

/// Combines the verdicts of the scoring roles and of the host-self role.
pub fn combine_decisions(
    token_present: bool,
    scoring: &Vec<DecisionKind>,
    host_self: DecisionKind,
) -> (r: DecisionKind)
    ensures
        r == combined_kind(token_present, scoring@, host_self),
{
    if host_self == DecisionKind::Rejected || host_self == DecisionKind::Deferred {
        return DecisionKind::Rejected;
    }
    if !token_present {
        return DecisionKind::Escalated;
    }
    let mut i: usize = 0;
    while i < scoring.len()
        invariant
            i <= scoring@.len(),
            token_present,
            !is_veto(host_self),
            forall|j: int| 0 <= j < i ==> scoring@[j] == DecisionKind::Approved,
        decreases scoring@.len() - i,
    {
        if scoring[i] != DecisionKind::Approved {
            assert(scoring@[i as int] != DecisionKind::Approved);
            return DecisionKind::Escalated;
        }
        i = i + 1;
    }
    DecisionKind::Approved
}

/// Consults the neurorights, safety and host-self roles on one action and combines
/// their verdicts. The host-self role always vetoes, so the outcome is `Rejected`.
pub fn decide_upgrade(
    host: &HostIdentity,
    ctx: &UpgradeContext,
    roh: u32,
    roh_token: Option<RoHBound>,
) -> (r: DecisionKind)
    ensures
        r == combined_kind(
            roh_token is Some,
            seq![score_verdict(roh, roh_token is Some), score_verdict(roh, roh_token is Some)],
            DecisionKind::Rejected,
        ),
        r == DecisionKind::Rejected,
{
    let neuro = NeurorightsRole.decide_neurorights(host, ctx, roh, roh_token);
    let safety = SafetyRole.decide_safety(host, ctx, roh, roh_token);
    let host_self = HostSelf.decide_host_self(host, ctx, roh, roh_token);
    let scoring = vec![neuro.kind, safety.kind];
    proof {
        assert(scoring@ =~= seq![neuro.kind, safety.kind]);
    }
    combine_decisions(roh_token.is_some(), &scoring, host_self.kind)
}

/// A host veto wins over any verdicts of the scoring roles, token or not.
pub proof fn lemma_veto_wins(token_present: bool, scoring: Seq<DecisionKind>, host_self: DecisionKind)
    requires
        is_veto(host_self),
    ensures
        combined_kind(token_present, scoring, host_self) == DecisionKind::Rejected,
{
}

/// Approval needs the token, every scoring role's approval and no veto.
pub proof fn lemma_approval_is_unanimous(
    token_present: bool,
    scoring: Seq<DecisionKind>,
    host_self: DecisionKind,
)
    requires
        combined_kind(token_present, scoring, host_self) == DecisionKind::Approved,
    ensures
        token_present,
        !is_veto(host_self),
        forall|i: int| 0 <= i < scoring.len() ==> scoring[i] == DecisionKind::Approved,
{
}

/// End to end: evidence whose samples are all zero predicts zero risk, which binds
/// under the ceiling, both scoring roles approve it, and still the host-self veto
/// makes the combined outcome `Rejected`.
pub proof fn lemma_zero_evidence_still_vetoed(samples: Seq<i32>)
    requires
        forall|i: int| 0 <= i < samples.len() ==> samples[i] == 0,
    ensures
        predicted_risk(samples) == 0,
        can_bind(0, ROH_CEILING),
        score_verdict(0, true) == DecisionKind::Approved,
        combined_kind(
            true,
            seq![score_verdict(0, true), score_verdict(0, true)],
            DecisionKind::Rejected,
        ) == DecisionKind::Rejected,
{
    lemma_constant_evidence_has_zero_risk(samples, 0);
}

} // verus!
