use cyconetics::ledger::{MemoryDecisionLedger, SidecarError, SidecarGuard, DecisionLedger};
use cyconetics::roh_guard::{
    mk_phx_host_state, predict_roh_for_task, PhoenixToSanJollaPolicy, RoHGuardedHostState,
    RoHPredictError, UpgradeDecision,
};
use cyconetics::roles::{
    combine_decisions, decide_upgrade, HostIdentity, HostSelf, HostSelfDecider,
    NeurorightsDecider, NeurorightsRole, SafetyDecider, SafetyRole, UpgradeContext,
};
use cyconetics::phx_flow::{run_phx_sjo_upgrade_flow, PhoenixToSanJollaUpgrade, UpgradeFlowError};
use cyconetics::types::{
    is_legal_transition, roh_from_biokarma, DecisionKind, DecisionLedgerEntry, EvidenceBundle, EvidenceError,
    EvolutionAuditRecord, RoHBound, ROH_CEILING,
};

fn bundle(samples: Vec<i32>) -> EvidenceBundle {
    EvidenceBundle { biokarma: samples, observables: vec![] }
}

fn host(did: &str) -> HostIdentity {
    HostIdentity {
        host_did: did.to_string(),
        aln: "aln:test".to_string(),
        bostrom: "bostrom1test".to_string(),
    }
}

fn ctx() -> UpgradeContext {
    UpgradeContext {
        upgrade_id: "up-1".to_string(),
        evolution_id: "evo-1".to_string(),
        zone_id: "XR-ZONE-AZ-PHX-1".to_string(),
        scheduler_id: "SCHED-1".to_string(),
    }
}

fn entry(host_did: &str, upgrade: &str, evolution: &str, kind: DecisionKind, by: &str) -> DecisionLedgerEntry {
    DecisionLedgerEntry {
        host_did: host_did.to_string(),
        upgrade_id: upgrade.to_string(),
        evolution_id: evolution.to_string(),
        decision_kind: kind,
        decision_record_hash: "0xHASH".to_string(),
        decided_by_did: by.to_string(),
        decided_by_role: "SafetyDecider".to_string(),
        zone_id: "XR-ZONE-1".to_string(),
        scheduler_id: "SCHED-1".to_string(),
        roh_at_decision: 100_000,
        roh_delta: 5_000,
        biokarma_snapshot_id: "BK-1".to_string(),
        biomarker_envelope_id: "BIO-1".to_string(),
        created_at_ms: 1_700_000_000_000,
        hexstamp: "0xSTAMP".to_string(),
    }
}

#[test]
fn validate_rejects_fewer_than_ten_samples() {
    for n in 0..10usize {
        let b = bundle(vec![0; n]);
        match b.validate() {
            Err(EvidenceError::TooFewBiokarma { len }) => assert_eq!(len, n),
            Ok(()) => panic!("bundle of {} samples must be rejected", n),
        }
    }
}

#[test]
fn validate_accepts_ten_or_more_samples() {
    for n in [10usize, 11, 50] {
        assert!(bundle(vec![5_000; n]).validate().is_ok());
    }
    // out-of-range samples are kept, not rejected
    assert!(bundle(vec![90_000; 10]).validate().is_ok());
}

#[test]
fn prediction_of_constant_evidence_is_zero() {
    assert_eq!(roh_from_biokarma(&bundle(vec![0; 10])), 0);
    assert_eq!(roh_from_biokarma(&bundle(vec![7_000; 12])), 0);
}

#[test]
fn prediction_is_variance_over_ten() {
    // samples +1.0 / -1.0: variance 1.0, risk 0.1
    let alternating: Vec<i32> = (0..10).map(|i| if i % 2 == 0 { 10_000 } else { -10_000 }).collect();
    assert_eq!(roh_from_biokarma(&bundle(alternating)), 100_000);
    // five at 1.0 and five at 0.0: variance 0.25, risk 0.025
    let half: Vec<i32> = (0..10).map(|i| if i < 5 { 10_000 } else { 0 }).collect();
    assert_eq!(roh_from_biokarma(&bundle(half)), 25_000);
}

#[test]
fn prediction_is_clamped_to_one() {
    let wild: Vec<i32> = (0..10).map(|i| if i % 2 == 0 { 200_000 } else { -200_000 }).collect();
    assert_eq!(roh_from_biokarma(&bundle(wild)), 1_000_000);
}

#[test]
fn try_bind_present_iff_within_ceiling() {
    for c in [0u32, 150_000, 300_000] {
        for r in [0u32, 1, 149_999, 150_000, 150_001, 299_999, 300_000, 300_001, 1_000_000] {
            let t = RoHBound::try_bind(r, c);
            assert_eq!(t.is_some(), r <= c);
            if let Some(t) = t {
                assert_eq!(t.value(), r);
                assert_eq!(t.ceiling(), c);
            }
        }
    }
}

#[test]
fn try_bind_is_monotone() {
    let c = 300_000u32;
    let mut r = 0u32;
    while r <= 400_000 {
        if RoHBound::try_bind(r, c).is_some() {
            for lower in [0, r / 2, r.saturating_sub(1)] {
                assert!(RoHBound::try_bind(lower, c).is_some());
            }
        }
        r += 25_000;
    }
}

#[test]
fn new_binds_at_system_ceiling() {
    assert!(RoHBound::new(ROH_CEILING).is_some());
    assert!(RoHBound::new(ROH_CEILING + 1).is_none());
    assert_eq!(RoHBound::new(120_000).unwrap().ceiling(), ROH_CEILING);
}

#[test]
fn host_self_always_rejects() {
    let h = host("did:example:host");
    for roh in [0u32, 100_000, 299_999, 300_000, 1_000_000] {
        for token in [RoHBound::new(roh), None] {
            let rec = HostSelf.decide_host_self(&h, &ctx(), roh, token);
            assert_eq!(rec.kind, DecisionKind::Rejected);
            assert_eq!(rec.decided_by_role, "HostSelf");
            assert_eq!(rec.decided_by_did, "did:example:host");
            assert_eq!(rec.evidence_hash, "0xHOST_VETO");
            assert_eq!(rec.predicted_roh, roh);
        }
    }
}

#[test]
fn scoring_roles_approve_under_ceiling_with_token() {
    let h = host("did:example:host");
    let n = NeurorightsRole.decide_neurorights(&h, &ctx(), 0, RoHBound::new(0));
    let s = SafetyRole.decide_safety(&h, &ctx(), 0, RoHBound::new(0));
    assert_eq!(n.kind, DecisionKind::Approved);
    assert_eq!(s.kind, DecisionKind::Approved);
    assert_eq!(n.decided_by_role, "NeurorightsDecider");
    assert_eq!(s.decided_by_role, "SafetyDecider");
    assert_eq!(n.upgrade_id, "up-1");
    assert_eq!(n.evidence_hash, "0xROLE_DECISION");
    assert_eq!(s.evidence_hash, "0xROLE_DECISION");
    assert_eq!(s.evolution_id, "evo-1");
}

#[test]
fn scoring_roles_escalate_at_ceiling_or_without_token() {
    let h = host("did:example:host");
    // at the ceiling the token binds but approval is strict
    let at = NeurorightsRole.decide_neurorights(&h, &ctx(), 300_000, RoHBound::new(300_000));
    assert_eq!(at.kind, DecisionKind::Escalated);
    let no_token = SafetyRole.decide_safety(&h, &ctx(), 10_000, None);
    assert_eq!(no_token.kind, DecisionKind::Escalated);
}

#[test]
fn combination_is_unanimity_with_veto() {
    assert_eq!(combine_decisions(true, &vec![DecisionKind::Approved, DecisionKind::Approved], DecisionKind::Approved), DecisionKind::Approved);
    assert_eq!(combine_decisions(true, &vec![DecisionKind::Approved, DecisionKind::Escalated], DecisionKind::Approved), DecisionKind::Escalated);
    assert_eq!(combine_decisions(false, &vec![DecisionKind::Approved, DecisionKind::Approved], DecisionKind::Approved), DecisionKind::Escalated);
    assert_eq!(combine_decisions(true, &vec![DecisionKind::Approved, DecisionKind::Approved], DecisionKind::Rejected), DecisionKind::Rejected);
    assert_eq!(combine_decisions(true, &vec![DecisionKind::Approved, DecisionKind::Approved], DecisionKind::Deferred), DecisionKind::Rejected);
    assert_eq!(combine_decisions(true, &vec![], DecisionKind::Approved), DecisionKind::Approved);
}

#[test]
fn end_to_end_veto_wins() {
    let evidence = bundle(vec![0; 10]);
    let (state, decision) =
        RoHGuardedHostState::predict_roh("did:example:host", "up-1", "evo-1", &evidence).ok().unwrap();
    assert_eq!(state.predicted_roh, 0);
    assert_eq!(decision, UpgradeDecision::Approved);
    let token = state.roh_token;
    assert!(token.is_some());
    let h = host("did:example:host");
    let n = NeurorightsRole.decide_neurorights(&h, &ctx(), state.predicted_roh, token);
    let s = SafetyRole.decide_safety(&h, &ctx(), state.predicted_roh, token);
    let v = HostSelf.decide_host_self(&h, &ctx(), state.predicted_roh, token);
    assert_eq!(n.kind, DecisionKind::Approved);
    assert_eq!(s.kind, DecisionKind::Approved);
    assert_eq!(v.kind, DecisionKind::Rejected);
    assert_eq!(combine_decisions(token.is_some(), &vec![n.kind, s.kind], v.kind), DecisionKind::Rejected);
    assert_eq!(decide_upgrade(&h, &ctx(), state.predicted_roh, token), DecisionKind::Rejected);
}

#[test]
fn predict_roh_rejects_short_evidence() {
    let r = RoHGuardedHostState::predict_roh("h", "u", "e", &bundle(vec![0; 3]));
    assert!(matches!(r, Err(RoHPredictError::Evidence(EvidenceError::TooFewBiokarma { len: 3 }))));
}

#[test]
fn predict_roh_denies_at_ceiling() {
    // +/-1.7320508 gives variance 3.0, risk 0.30; use exact sums instead:
    // samples +/- 17_321 give n*sum_sq = 10 * 10 * 17_321^2
    let s: Vec<i32> = (0..10).map(|i| if i % 2 == 0 { 17_321 } else { -17_321 }).collect();
    let expected = ((17_321i128 * 17_321) / 1000) as u32;
    let (state, decision) = RoHGuardedHostState::predict_roh("h", "u", "e", &bundle(s)).ok().unwrap();
    assert_eq!(state.predicted_roh, expected);
    assert!(expected >= ROH_CEILING);
    assert_eq!(decision, UpgradeDecision::Denied);
    assert!(state.roh_token.is_none());
    assert_eq!(state.host_did, "h");
}

#[test]
fn phoenix_policy_needs_token_and_strict_margin() {
    let mut state = mk_phx_host_state(180_000);
    assert_eq!(state.host_did, "did:bostrom:phx-host-001");
    let policy = PhoenixToSanJollaPolicy;
    assert_eq!(policy.decide(&state), UpgradeDecision::Denied);
    let (predicted, token) = predict_roh_for_task(&state, 50_000);
    assert_eq!(predicted, 230_000);
    assert!(token.is_some());
    state.predicted_roh = predicted;
    state.roh_token = token;
    assert!(policy.can_authorize(&state));
    assert_eq!(policy.decide(&state), UpgradeDecision::Approved);
    let (capped, none) = predict_roh_for_task(&state, 900_000);
    assert_eq!(capped, 1_000_000);
    assert!(none.is_none());
}

#[test]
fn phoenix_flow_stops_at_host_veto() {
    let r = run_phx_sjo_upgrade_flow();
    assert!(matches!(r, Err(UpgradeFlowError::HostVeto(DecisionKind::Rejected))));
    let u = PhoenixToSanJollaUpgrade::new("desc", 50_000);
    assert_eq!(u.description, "desc");
    assert_ne!(u.upgrade_id, u.evolution_id);
}

#[test]
fn ledger_append_then_find() {
    let mut ledger = MemoryDecisionLedger::new();
    assert!(ledger.find_for_triplet("h", "u", "e", DecisionKind::Approved).is_none());
    ledger.append(entry("h", "u", "e", DecisionKind::Approved, "did:A"));
    assert_eq!(ledger.len(), 1);
    let found = ledger.find_for_triplet("h", "u", "e", DecisionKind::Approved).unwrap();
    assert_eq!(found.decided_by_did, "did:A");
    assert_eq!(found.decision_kind, DecisionKind::Approved);
    assert_eq!(found.roh_at_decision, 100_000);
    assert!(ledger.find_for_triplet("h", "u", "e", DecisionKind::Rejected).is_none());
    assert!(ledger.find_for_triplet("h2", "u", "e", DecisionKind::Approved).is_none());
    assert!(ledger.find_for_triplet("h", "u2", "e", DecisionKind::Approved).is_none());
    assert!(ledger.find_for_triplet("h", "u", "e2", DecisionKind::Approved).is_none());
}

#[test]
fn ledger_find_returns_earliest_and_trait_agrees() {
    let mut ledger = MemoryDecisionLedger::new();
    DecisionLedger::append(&mut ledger, entry("h", "u", "e", DecisionKind::Approved, "did:first"));
    DecisionLedger::append(&mut ledger, entry("h", "u", "e", DecisionKind::Approved, "did:second"));
    let found = DecisionLedger::find_for_triplet(&ledger, "h", "u", "e", DecisionKind::Approved).unwrap();
    assert_eq!(found.decided_by_did, "did:first");
}

#[test]
fn ledger_append_unique_refuses_duplicates() {
    let mut ledger = MemoryDecisionLedger::new();
    assert!(ledger.append_unique(entry("h", "u", "e", DecisionKind::Approved, "did:A")));
    assert!(!ledger.append_unique(entry("h", "u", "e", DecisionKind::Approved, "did:B")));
    assert_eq!(ledger.len(), 1);
    assert!(ledger.append_unique(entry("h", "u", "e", DecisionKind::Rejected, "did:B")));
    assert_eq!(ledger.len(), 2);
}

#[test]
fn guard_reports_mismatch_and_missing() {
    let mut ledger = MemoryDecisionLedger::new();
    let missing = ledger.ensure_transition_has_ledger_entry("h", "u", "e", DecisionKind::Approved, "A");
    assert!(matches!(missing, Err(SidecarError::MissingLedgerEntry)));
    ledger.append(entry("h", "u", "e", DecisionKind::Approved, "A"));
    match ledger.ensure_transition_has_ledger_entry("h", "u", "e", DecisionKind::Approved, "B") {
        Err(SidecarError::DidMismatch { expected, actual }) => {
            assert_eq!(expected, "B");
            assert_eq!(actual, "A");
        }
        _ => panic!("expected a DID mismatch"),
    }
    assert!(ledger.ensure_transition_has_ledger_entry("h", "u", "e", DecisionKind::Approved, "A").is_ok());
    let via_trait = SidecarGuard::ensure_transition_has_ledger_entry(&ledger, "h", "u", "e", DecisionKind::Deferred, "A");
    assert!(matches!(via_trait, Err(SidecarError::MissingLedgerEntry)));
}

#[test]
fn audit_record_only_grows() {
    let mut audit = EvolutionAuditRecord {
        host_did: "h".to_string(),
        upgrade_id: "u".to_string(),
        evolution_id: "e".to_string(),
        active: true,
        roh_history: vec![180_000],
        decision_record_hashes: vec![],
    };
    audit.append_roh(230_000);
    audit.append_decision_hash("0xABC".to_string());
    assert_eq!(audit.roh_history, vec![180_000, 230_000]);
    assert_eq!(audit.decision_record_hashes, vec!["0xABC".to_string()]);
}

#[test]
fn transitions_leave_proposed_only() {
    let all = [
        DecisionKind::Proposed,
        DecisionKind::Approved,
        DecisionKind::Authorized,
        DecisionKind::Rejected,
        DecisionKind::Escalated,
        DecisionKind::Deferred,
    ];
    for from in all {
        for to in all {
            let expected = from == DecisionKind::Proposed && to != DecisionKind::Proposed;
            assert_eq!(is_legal_transition(from, to), expected);
        }
    }
}

#[test]
fn default_ledger_is_empty() {
    let ledger = MemoryDecisionLedger::default();
    assert_eq!(ledger.len(), 0);
    assert!(matches!(
        ledger.ensure_transition_has_ledger_entry("h", "u", "e", DecisionKind::Approved, "A"),
        Err(SidecarError::MissingLedgerEntry)
    ));
}
