use vstd::prelude::*;

use crate::ledger::MemoryDecisionLedger;
use crate::roh_guard::{
    mk_phx_host_state, predict_roh_for_task, PhoenixToSanJollaPolicy, UpgradeDecision,
};
use crate::roles::{now_millis, HostIdentity, HostSelf, HostSelfDecider, UpgradeContext};
use crate::types::{
    DecisionKind, DecisionLedgerEntry, EvidenceBundle, EvidenceError, EvolutionAuditRecord,
    ROH_CEILING,
};
use crate::ledger::SidecarError;

verus! {

/// Risk the Phoenix host starts from, 0.18.
pub const PHX_START_ROH: u32 = 180_000;

/// Risk cost of the San Jolla upgrade per session, 0.05.
pub const PHX_SJO_ROH_DELTA: u32 = 50_000;

/// Descriptor of the Phoenix to San Jolla upgrade.
pub struct PhoenixToSanJollaUpgrade {
    pub upgrade_id: uuid::Uuid,
    pub evolution_id: uuid::Uuid,
    pub description: String,
    /// Risk cost per session, in millionths.
    pub roh_delta: u32,
}

impl PhoenixToSanJollaUpgrade {
    /// A descriptor with fresh random identifiers.
    pub fn new(description: &str, roh_delta: u32) -> (r: PhoenixToSanJollaUpgrade)
        ensures
            r.description@ == description@,
            r.roh_delta == roh_delta,
    {
        PhoenixToSanJollaUpgrade {
            upgrade_id: uuid::Uuid::new_v4(),
            evolution_id: uuid::Uuid::new_v4(),
            description: description.to_owned(),
            roh_delta,
        }
    }
}

/// Why the upgrade flow stopped.
pub enum UpgradeFlowError {
    /// The predicted risk reaches the ceiling or could not be bound.
    CeilingExceeded { predicted_roh: u32 },
    /// The host/zone scheduler policy denied the upgrade.
    PolicyDenied { predicted_roh: u32 },
    /// The host-self role vetoed with the given verdict.
    HostVeto(DecisionKind),
    Evidence(EvidenceError),
    Guard(SidecarError),
}

/// The Phoenix to San Jolla upgrade, end to end: predict the risk, bind a token,
/// apply the scheduler policy, consult the host-self role, then record the decision
/// in a ledger, check it through the sidecar guard and extend the audit trail.
///
/// The start risk 0.18 plus the cost 0.05 stays under the ceiling and the policy
/// approves, so the host-self veto is what stops the flow.
pub fn run_phx_sjo_upgrade_flow() -> (r: Result<(), UpgradeFlowError>)
    ensures
        r == Err::<(), UpgradeFlowError>(UpgradeFlowError::HostVeto(DecisionKind::Rejected)),
{
    let mut host_state = mk_phx_host_state(PHX_START_ROH);
    let upgrade = PhoenixToSanJollaUpgrade::new(
        "Enable San Jolla CA-mode lab-grid profile for host.",
        PHX_SJO_ROH_DELTA,
    );
    host_state.upgrade_id = upgrade.upgrade_id.to_string();
    host_state.evolution_id = upgrade.evolution_id.to_string();

    let (predicted_roh, roh_token) = predict_roh_for_task(&host_state, upgrade.roh_delta);
    host_state.predicted_roh = predicted_roh;
    host_state.roh_token = roh_token;
    if predicted_roh >= ROH_CEILING || host_state.roh_token.is_none() {
        return Err(UpgradeFlowError::CeilingExceeded { predicted_roh });
    }

    let policy = PhoenixToSanJollaPolicy;
    if policy.decide(&host_state) != UpgradeDecision::Approved {
        return Err(UpgradeFlowError::PolicyDenied { predicted_roh });
    }

    let host_identity = HostIdentity {
        host_did: host_state.host_did.clone(),
        aln: "aln:phoenix-grid".to_owned(),
        bostrom: "bostrom18sd2ujv24ual9c9pshtxys6j8knh6xaead9ye7".to_owned(),
    };
    let ctx = UpgradeContext {
        upgrade_id: host_state.upgrade_id.clone(),
        evolution_id: host_state.evolution_id.clone(),
        zone_id: "XR-ZONE-CA-SJO".to_owned(),
        scheduler_id: "PHX-SJO-ROUTER-01".to_owned(),
    };
    let host_record = HostSelf.decide_host_self(
        &host_identity,
        &ctx,
        predicted_roh,
        host_state.roh_token,
    );
    if host_record.kind == DecisionKind::Rejected || host_record.kind == DecisionKind::Deferred {
        return Err(UpgradeFlowError::HostVeto(host_record.kind));
    }

    let evidence = EvidenceBundle { biokarma: vec![0i32; 10], observables: vec![0i32; 10] };
    if let Err(e) = evidence.validate() {
        return Err(UpgradeFlowError::Evidence(e));
    }
    let created_at_ms = now_millis();
    let entry = DecisionLedgerEntry {
        host_did: host_state.host_did.clone(),
        upgrade_id: host_state.upgrade_id.clone(),
        evolution_id: host_state.evolution_id.clone(),
        decision_kind: DecisionKind::Approved,
        decision_record_hash: "0xCYC0-PHX-SJO-ROH30".to_owned(),
        decided_by_did: host_state.host_did.clone(),
        decided_by_role: "PhoenixToSanJollaPolicy+HostSelf".to_owned(),
        zone_id: ctx.zone_id.clone(),
        scheduler_id: ctx.scheduler_id.clone(),
        roh_at_decision: predicted_roh,
        roh_delta: upgrade.roh_delta as i32,
        biokarma_snapshot_id: "BK-SNAPSHOT-PHX-SJO-001".to_owned(),
        biomarker_envelope_id: "BIO-ENV-PHX-SJO-001".to_owned(),
        created_at_ms,
        hexstamp: "0xCYC0-PHX-SJO-ROH30-LEDGER-COOKBOOK-v1".to_owned(),
    };
    let mut ledger = MemoryDecisionLedger::new();
    ledger.append(entry);
    if let Err(e) = ledger.ensure_transition_has_ledger_entry(
        host_state.host_did.as_str(),
        host_state.upgrade_id.as_str(),
        host_state.evolution_id.as_str(),
        DecisionKind::Approved,
        host_state.host_did.as_str(),
    ) {
        return Err(UpgradeFlowError::Guard(e));
    }

    let mut audit = EvolutionAuditRecord {
        host_did: host_state.host_did.clone(),
        upgrade_id: host_state.upgrade_id.clone(),
        evolution_id: host_state.evolution_id.clone(),
        active: true,
        roh_history: vec![host_state.last_observed_roh],
        decision_record_hashes: Vec::new(),
    };
    audit.append_roh(predicted_roh);
    audit.append_decision_hash("0xCYC0-PHX-SJO-ROH30".to_owned());
    Ok(())
}

} // verus!
