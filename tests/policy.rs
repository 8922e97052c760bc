use cyconetics::dcm::{
    BackendConfig, BackendKind, ChannelSpec, CybostateSchemaVersion, DeviceCapabilityManifest,
    Jurisdiction, PrivacyLevel, RiskScore, SafetyFlags, SamplingConstraints, SessionConstraints,
    XrGridBinding,
};
use cyconetics::error::CyconeticsBciError;
use cyconetics::retrieval::{
    map_domain, AllowedCodeActions, CyberCookbookDomain, KsrBand, PromptEnvelope, RetrievalDomain,
    RetrievalKind, RetrievalLimits, SourceClass, XrZoneRef,
};
use cyconetics::hci_profile::{
    HciExportChannel, HciExportProfile, HciExportRule, HciRateLimit, HciRiskLevel, HciStateKind,
    XrZoneRef as HciZone,
};
use cyconetics::scheduler::{
    classify_roh, policy_decision, CybostateFactor, CybostateFactorV1, OrganicCpuScheduler,
    RohBand, ScheduledTask, SchedulerDecision, TaskClass, TaskRejection,
};
use cyconetics::validator::SiteValidator;
use cyconetics::session::{NeuralRopeSegment, RopeSegmentKind, SessionState};
use cyconetics::site::{site_profile_arizona, site_profile_california, RiskBandPolicy};

const CLASSES: [TaskClass; 3] = [TaskClass::Exploratory, TaskClass::Critical, TaskClass::Maintenance];
const LEVELS: [HciRiskLevel; 3] = [HciRiskLevel::Low, HciRiskLevel::Medium, HciRiskLevel::High];

fn state_with_roh(phys: u32) -> CybostateFactorV1 {
    // 0.5 * phys with no cognitive load and full integrity
    CybostateFactorV1 { physiological_load: phys, cognitive_load: 0, security_integrity: 1_000_000 }
}

#[test]
fn classify_band_edges() {
    assert_eq!(classify_roh(0), RohBand::Green);
    assert_eq!(classify_roh(149_999), RohBand::Green);
    assert_eq!(classify_roh(150_000), RohBand::Yellow);
    assert_eq!(classify_roh(249_999), RohBand::Yellow);
    assert_eq!(classify_roh(250_000), RohBand::Red);
    assert_eq!(classify_roh(299_999), RohBand::Red);
    assert_eq!(classify_roh(300_000), RohBand::HardReject);
    assert_eq!(classify_roh(1_000_000), RohBand::HardReject);
}

#[test]
fn hard_reject_always_escalates() {
    for c in CLASSES {
        for l in LEVELS {
            assert_eq!(policy_decision(RohBand::HardReject, c, l), SchedulerDecision::Escalate);
        }
    }
}

#[test]
fn decision_table_is_exhaustive() {
    let expected = |b: RohBand, c: TaskClass, l: HciRiskLevel| -> SchedulerDecision {
        match (b, c, l) {
            (RohBand::HardReject, _, _) => SchedulerDecision::Escalate,
            (RohBand::Green, TaskClass::Exploratory, _) => SchedulerDecision::Authorize,
            (RohBand::Green, TaskClass::Critical, HciRiskLevel::Low) => SchedulerDecision::Authorize,
            (RohBand::Green, TaskClass::Critical, _) => SchedulerDecision::Defer,
            (RohBand::Yellow, TaskClass::Exploratory, HciRiskLevel::High) => SchedulerDecision::Defer,
            (RohBand::Yellow, TaskClass::Exploratory, _) => SchedulerDecision::Authorize,
            (RohBand::Yellow, TaskClass::Critical, _) => SchedulerDecision::Reject,
            (RohBand::Red, TaskClass::Maintenance, _) => SchedulerDecision::Authorize,
            (RohBand::Red, _, _) => SchedulerDecision::Reject,
            (_, TaskClass::Maintenance, _) => SchedulerDecision::Authorize,
        }
    };
    for b in [RohBand::Green, RohBand::Yellow, RohBand::Red, RohBand::HardReject] {
        for c in CLASSES {
            for l in LEVELS {
                assert_eq!(policy_decision(b, c, l), expected(b, c, l));
            }
        }
    }
}

#[test]
fn cybostate_weights() {
    let s = CybostateFactorV1 { physiological_load: 200_000, cognitive_load: 100_000, security_integrity: 900_000 };
    // 0.5*0.2 + 0.3*0.1 + 0.2*0.1 = 0.15
    assert_eq!(s.calculate_roh(), 150_000);
    let worst = CybostateFactorV1 { physiological_load: 1_000_000, cognitive_load: 1_000_000, security_integrity: 0 };
    assert_eq!(worst.calculate_roh(), 1_000_000);
    // rounded up to the next millionth
    let tiny = CybostateFactorV1 { physiological_load: 1, cognitive_load: 0, security_integrity: 1_000_000 };
    assert_eq!(tiny.calculate_roh(), 1);
}

#[test]
fn scheduler_counts_authorizations_only() {
    let mut sched = OrganicCpuScheduler::new();
    assert_eq!(sched.roh_threshold, 300_000);
    let task = ScheduledTask { class: TaskClass::Exploratory, risk_level: HciRiskLevel::Low, expected_duration_sec: 60 };
    assert_eq!(sched.decide(state_with_roh(100_000), &task), SchedulerDecision::Authorize);
    assert_eq!(sched.knowledge_factor, 1);
    let critical = ScheduledTask { class: TaskClass::Critical, risk_level: HciRiskLevel::High, expected_duration_sec: 60 };
    assert_eq!(sched.decide(state_with_roh(100_000), &critical), SchedulerDecision::Defer);
    assert_eq!(sched.knowledge_factor, 1);
    // 0.5 * 0.6 = 0.30: at the ceiling
    assert_eq!(sched.decide(state_with_roh(600_000), &task), SchedulerDecision::Escalate);
    assert_eq!(sched.knowledge_factor, 1);
    let maint = ScheduledTask { class: TaskClass::Maintenance, risk_level: HciRiskLevel::High, expected_duration_sec: 60 };
    assert_eq!(sched.decide(state_with_roh(560_000), &maint), SchedulerDecision::Authorize);
    assert_eq!(sched.knowledge_factor, 2);
}

fn envelope() -> PromptEnvelope {
    PromptEnvelope {
        id: uuid::Uuid::new_v4(),
        kind: RetrievalKind::RetrievePolicy,
        domain: RetrievalDomain::XrGridPolicy,
        xrzone: XrZoneRef { zone_id: "XR-ZONE-AZ-PHX-1".to_string(), jurisdiction: "US-AZ".to_string() },
        source_classes: vec![SourceClass::GovernmentPolicy],
        limits: RetrievalLimits { max_recursion_depth: 2, max_parallel_queries: 4 },
        ksrestimate: KsrBand { k: 0x40, s: 0x20, r: 0x10 },
        allowed_code_actions: AllowedCodeActions {
            may_emit_rust_literals: true,
            may_emit_manifests: false,
            may_emit_policies: false,
            may_touch_ffi: false,
            may_touch_io: false,
        },
    }
}

fn segment(r: u8) -> NeuralRopeSegment {
    NeuralRopeSegment {
        segment_id: uuid::Uuid::new_v4(),
        envelope: envelope(),
        ksrdelta: KsrBand { k: 0x30, s: 0x10, r },
        summary: "fact".to_string(),
        quiz_math_score: 900_000,
    }
}

#[test]
fn session_admits_up_to_ceiling_then_cooldown_reopens() {
    let mut s = SessionState::new();
    // 25 + 25 + 25 = 75 of 255 stays under 0.30 (76.5)
    for _ in 0..3 {
        assert!(s.can_accept_active(25));
        assert!(s.admit_active(segment(25)));
    }
    assert_eq!(s.accumulated_risk, 75_000);
    assert_eq!(s.high_r_segments, 0);
    // one more at 2/255 would reach 77/255 > 0.30
    assert!(!s.can_accept_active(2));
    assert!(!s.admit_active(segment(2)));
    assert_eq!(s.segments.len(), 3);
    s.push_cooldown("summary");
    assert_eq!(s.accumulated_risk, 60_000);
    assert_eq!(s.segments.len(), 4);
    assert!(matches!(s.segments[3].1, RopeSegmentKind::SummaryCooldown));
    assert_eq!(s.segments[3].0.summary, "summary");
    assert_eq!(s.segments[3].0.quiz_math_score, 1_000_000);
    assert_eq!(s.segments[3].0.envelope.id, s.segments[2].0.envelope.id);
    assert_eq!(s.segments[3].0.envelope.xrzone.zone_id, "XR-ZONE-AZ-PHX-1");
    assert_eq!(s.segments[3].0.envelope.source_classes.len(), 1);
    assert_eq!(s.segments[3].0.ksrdelta, KsrBand { k: 0x10, s: 0x60, r: 0x05 });
    assert!(s.can_accept_active(2));
    assert!(s.admit_active(segment(2)));
    assert_eq!(s.accumulated_risk, 62_000);
}

#[test]
fn session_limits_high_risk_segments() {
    let mut s = SessionState::new();
    assert!(s.admit_active(segment(52)));
    assert_eq!(s.high_r_segments, 1);
    assert!(s.admit_active(segment(10)));
    assert_eq!(s.high_r_segments, 1);
    assert_eq!(s.accumulated_risk, 62_000);
    // cooldowns make room for a second high-risk segment
    s.push_cooldown("a");
    s.push_cooldown("b");
    s.push_cooldown("c");
    s.push_cooldown("d");
    assert_eq!(s.accumulated_risk, 25_396);
    assert!(s.admit_active(segment(51)));
    assert_eq!(s.high_r_segments, 1);
    s.high_r_segments = 3;
    s.accumulated_risk = 0;
    assert!(s.can_accept_active(1));
    s.high_r_segments = 4;
    assert!(!s.can_accept_active(1));
    assert!(!s.admit_active(segment(1)));
}

#[test]
fn session_exact_boundary() {
    let mut s = SessionState::new();
    // 76/255 is under 0.30; 77/255 is over
    assert!(s.can_accept_active(76));
    assert!(!s.can_accept_active(77));
    s.push_active(segment(76));
    assert_eq!(s.high_r_segments, 1);
    assert!(!s.can_accept_active(1));
    assert!(s.can_accept_active(0));
}

#[test]
fn domains_map_one_to_one() {
    let mut e = envelope();
    assert_eq!(map_domain(&e), CyberCookbookDomain::XrGridPolicy);
    e.domain = RetrievalDomain::NeurorightsPolicy;
    assert_eq!(map_domain(&e), CyberCookbookDomain::NeurorightsPolicy);
    e.domain = RetrievalDomain::DidRegistry;
    assert_eq!(map_domain(&e), CyberCookbookDomain::DidRegistry);
}

fn manifest(r: u8, zones: Vec<&str>) -> DeviceCapabilityManifest {
    DeviceCapabilityManifest {
        id: uuid::Uuid::new_v4(),
        name: "brainflow_synthetic".to_string(),
        version: "0.1.0".to_string(),
        backend: BackendConfig { kind: BackendKind::BrainFlow, identifier: "synthetic".to_string() },
        channels: vec![ChannelSpec { index: 0, label: "Fz".to_string(), unit: "uV".to_string(), closed_loop_safe: false }],
        sampling: SamplingConstraints { min_hz: 250, max_hz: 500, default_hz: 250 },
        session: SessionConstraints { max_duration_secs: 64, min_rest_secs: 10 },
        jurisdictions: vec![Jurisdiction::UsAz],
        privacy: PrivacyLevel::Medium,
        safety: SafetyFlags { can_stimulate: false, medical_isolation_rated: true },
        xr_grid: XrGridBinding {
            allowed_zones: zones.into_iter().map(|z| z.to_string()).collect(),
            min_hazard_level: 1,
            max_hazard_level: 2,
        },
        risk_score: RiskScore::from_components(0x80, 0x40, r),
        cfschema_version: CybostateSchemaVersion::V1,
        tags: vec![],
        created_at_ms: 0,
    }
}

fn violation(r: Result<(), CyconeticsBciError>) -> String {
    match r {
        Err(CyconeticsBciError::ManifestViolation(m)) => m,
        _ => panic!("expected a manifest violation"),
    }
}

#[test]
fn risk_score_bands() {
    assert_eq!(RiskScore::from_components(1, 2, 0x40).risk_band, "low");
    assert_eq!(RiskScore::from_components(1, 2, 0x41).risk_band, "medium");
    assert_eq!(RiskScore::from_components(1, 2, 0x80).risk_band, "medium");
    assert_eq!(RiskScore::from_components(1, 2, 0xC0).risk_band, "high");
    assert_eq!(RiskScore::from_components(1, 2, 0xC1).risk_band, "extreme");
    assert!(RiskScore::from_components(1, 2, 0x4C).respects_roh_ceiling());
    assert!(!RiskScore::from_components(1, 2, 0x4D).respects_roh_ceiling());
}

#[test]
fn manifest_validation() {
    assert!(manifest(0x20, vec!["AZ-PHX-XR-EEG-LOWRISK"]).validate().is_ok());
    let mut m = manifest(0x20, vec!["AZ-PHX-XR-EEG-LOWRISK"]);
    m.channels.clear();
    assert_eq!(violation(m.validate()), "DCM must declare at least one channel");
    let mut m = manifest(0x20, vec!["Z"]);
    m.sampling.min_hz = 600;
    assert_eq!(violation(m.validate()), "Invalid sampling constraints");
    let mut m = manifest(0x20, vec!["Z"]);
    m.sampling.default_hz = 100;
    assert_eq!(violation(m.validate()), "Default sampling rate out of bounds");
    let mut m = manifest(0x20, vec!["Z"]);
    m.session.max_duration_secs = 0;
    assert_eq!(violation(m.validate()), "Session max_duration_secs must be > 0");
    let m = manifest(0x20, vec![]);
    assert_eq!(violation(m.validate()), "XR-grid configuration must declare at least one allowed zone");
    let mut m = manifest(0x20, vec!["Z"]);
    m.xr_grid.min_hazard_level = 3;
    assert_eq!(violation(m.validate()), "XR-grid hazard levels are inconsistent");
    let mut m = manifest(0x20, vec!["Z"]);
    m.risk_score.risk_band = "tiny".to_string();
    assert_eq!(violation(m.validate()), "risk_score.risk_band must be one of: low, medium, high, extreme");
    let m = manifest(0x50, vec!["Z"]);
    assert_eq!(violation(m.validate()), "risk_score.r_risk_of_harm exceeds RoH 0.3 ceiling for this grid");
}

#[test]
fn band_policy_window() {
    let p = RiskBandPolicy { min_band: "low".to_string(), max_band: "medium".to_string() };
    assert!(p.allows("low"));
    assert!(p.allows("medium"));
    assert!(!p.allows("high"));
    assert!(!p.allows("bogus"));
    assert_eq!(RiskBandPolicy::band_rank("extreme"), 3);
    assert_eq!(RiskBandPolicy::band_rank("nope"), 4);
}

#[test]
fn arizona_site_accepts_phoenix_device() {
    let site = site_profile_arizona();
    let m = manifest(0x20, vec!["AZ-PHX-XR-EEG-LOWRISK"]);
    assert!(site.can_use_device_in_zone(&m, "AZ-PHX-XR-EEG-LOWRISK", 1).is_ok());
}

#[test]
fn site_checks_report_first_failure() {
    let az = site_profile_arizona();
    let ca = site_profile_california();
    let m = manifest(0x20, vec!["AZ-PHX-XR-EEG-LOWRISK"]);
    assert_eq!(
        violation(az.can_use_device_in_zone(&m, "AZ-PHX-XR-EEG-LOWRISK", 12)),
        "Requested hazard_level 12 exceeds site max 3"
    );
    assert_eq!(
        violation(az.can_use_device_in_zone(&m, "CA-LA-1", 1)),
        "Zone 'CA-LA-1' is not recognized for site 'US-AZ-XRGRID-1'"
    );
    assert_eq!(
        violation(ca.can_use_device_in_zone(&m, "CA-LA-1", 1)),
        "Device jurisdictions incompatible with site profile"
    );
    assert_eq!(
        violation(az.can_use_device_in_zone(&m, "AZ-PHX-XR-EEG-LOWRISK", 3)),
        "Hazard level 3 outside device range [1, 2]"
    );
    assert_eq!(
        violation(az.can_use_device_in_zone(&m, "AZ-TUC-1", 1)),
        "Zone 'AZ-TUC-1' not listed in device allowed_zones"
    );
    let mut extreme = manifest(0x20, vec!["AZ-PHX-XR-EEG-LOWRISK"]);
    extreme.risk_score.risk_band = "extreme".to_string();
    assert_eq!(
        violation(az.can_use_device_in_zone(&extreme, "AZ-PHX-XR-EEG-LOWRISK", 2)),
        "Device risk band 'extreme' not allowed at site 'US-AZ-XRGRID-1' (allowed: low..=high)"
    );
}

fn rule(level: HciRiskLevel, jurisdictions: Vec<Jurisdiction>) -> HciExportRule {
    HciExportRule {
        id: uuid::Uuid::new_v4(),
        kind: HciStateKind::CoarseCognitiveState,
        label: "workload_level".to_string(),
        jurisdictions,
        xr_zones: vec![HciZone { zone_id: "XR-ZONE-AZ-1".to_string(), description: None }],
        risk_level: level,
        rate_limit: HciRateLimit { max_millihz: 2_000 },
        export: HciExportChannel { topic: "bci.hci.workload".to_string(), anonymized: true, notes: None },
        requires_explicit_consent: true,
        no_closed_loop_use: true,
    }
}

fn profile(for_manifest: uuid::Uuid, rules: Vec<HciExportRule>) -> HciExportProfile {
    HciExportProfile {
        id: uuid::Uuid::new_v4(),
        name: "OpenBCI-AZ-Coarse-HCI".to_string(),
        version: "1".to_string(),
        device_manifest_id: for_manifest,
        created_at_ms: 0,
        rules,
    }
}

#[test]
fn hci_profile_checks() {
    let mut m = manifest(0x20, vec!["AZ-1"]);
    let ok = profile(m.id, vec![rule(HciRiskLevel::High, vec![Jurisdiction::UsAz])]);
    assert!(ok.validate_against(&m).is_ok());
    let other = profile(uuid::Uuid::new_v4(), vec![rule(HciRiskLevel::Low, vec![Jurisdiction::UsAz])]);
    assert_eq!(violation(other.validate_against(&m)), "HCI profile device_manifest_id mismatch");
    let empty = profile(m.id, vec![]);
    assert_eq!(violation(empty.validate_against(&m)), "HCI profile must define at least one export rule");
    let elsewhere = profile(m.id, vec![
        rule(HciRiskLevel::Low, vec![Jurisdiction::UsAz]),
        rule(HciRiskLevel::Low, vec![Jurisdiction::UsCa, Jurisdiction::Other]),
    ]);
    assert_eq!(violation(elsewhere.validate_against(&m)), "HCI rule has no jurisdiction overlap with DCM");
    m.privacy = PrivacyLevel::High;
    assert_eq!(
        violation(ok.validate_against(&m)),
        "High-privacy DCM cannot have High-risk HCI export rules"
    );
}

#[test]
fn read_only_zones() {
    assert!(SiteValidator::is_read_only_zone("XR-READ_ONLY-1"));
    assert!(SiteValidator::is_read_only_zone("GLOBAL_ECO"));
    assert!(!SiteValidator::is_read_only_zone("XR-ZONE-AZ-PHX-1"));
    assert!(!SiteValidator::is_read_only_zone(""));
    assert!(!SiteValidator::is_read_only_zone("READ_ONL"));
}

fn gate_state(phys: u32) -> CybostateFactor {
    CybostateFactor { physiological_load: phys, cognitive_load: 0, security_integrity: 1_000_000 }
}

#[test]
fn task_gate_thresholds() {
    let mut sched = OrganicCpuScheduler::new();
    assert_eq!(gate_state(300_000).calculate_roh(), 150_000);
    // 0.5 * 0.42 = 0.21: over 0.20, under the ceiling
    let ok = sched.evaluate_task(&gate_state(420_000), HciRiskLevel::Medium).ok().unwrap();
    assert_eq!(ok.current_roh, 210_000);
    assert_eq!(ok.knowledge_factor, 1);
    assert_eq!(
        sched.evaluate_task(&gate_state(420_000), HciRiskLevel::High).err(),
        Some(TaskRejection::HighRiskWhileElevated)
    );
    assert_eq!(sched.knowledge_factor, 1);
    // exactly 0.20 still admits a high-risk task
    assert!(sched.evaluate_task(&gate_state(400_000), HciRiskLevel::High).is_ok());
    assert_eq!(sched.knowledge_factor, 2);
    assert_eq!(
        sched.evaluate_task(&gate_state(600_000), HciRiskLevel::Low).err(),
        Some(TaskRejection::ThresholdExceeded)
    );
    assert_eq!(sched.knowledge_factor, 2);
}
