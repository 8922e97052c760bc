use vstd::prelude::*;

verus! {

/// Risk values are integers in millionths: `RISK_SCALE` stands for a risk of 1.0.
pub const RISK_SCALE: u32 = 1_000_000;

/// The system-wide risk-of-harm ceiling, 0.30.
pub const ROH_CEILING: u32 = 300_000;

/// Evidence samples are integers in ten-thousandths: `SAMPLE_SCALE` stands for 1.0.
pub const SAMPLE_SCALE: i32 = 10_000;

/// The fewest biokarma samples a bundle may hold.
pub const MIN_BIOKARMA_SAMPLES: usize = 10;

/// High-level decision kinds of the safety spine. `Proposed` is the initial state of
/// every (host, upgrade, evolution) triplet; each other kind is reached from it in one
/// step and is final for that triplet.
#[derive(Clone, Copy, Debug, PartialEq, Eq, Structural)]
pub enum DecisionKind {
    Proposed,
    Approved,
    Authorized,
    Rejected,
    Escalated,
    Deferred,
}

/// Whether `to` is a legal single-step exit from `from`.
pub open spec fn legal_transition(from: DecisionKind, to: DecisionKind) -> bool {
    from == DecisionKind::Proposed && to != DecisionKind::Proposed
}

/// Whether `to` may follow `from` for one triplet.
pub fn is_legal_transition(from: DecisionKind, to: DecisionKind) -> (r: bool)
    ensures
        r == legal_transition(from, to),
{
    from == DecisionKind::Proposed && to != DecisionKind::Proposed
}

/// Whether a risk value may be bound under a ceiling.
pub open spec fn can_bind(roh: u32, ceiling: u32) -> bool {
    roh <= ceiling
}

/// A risk value together with the ceiling it was checked against. The only way to
/// obtain one is `try_bind` (or `new`, at the system ceiling), so holding a token
/// proves that its value respects its ceiling.
#[derive(Clone, Copy, Debug)]
pub struct RoHBound {
    roh: u32,
    ceiling: u32,
}

impl RoHBound {
    #[verifier::type_invariant]
    spec fn bounded(self) -> bool {
        self.roh <= self.ceiling
    }

    /// The bound risk value.
    pub closed spec fn roh(self) -> u32 {
        self.roh
    }

    /// The ceiling the value was bound under.
    pub closed spec fn bound(self) -> u32 {
        self.ceiling
    }

    /// Present exactly when `roh <= ceiling`.
    pub fn try_bind(roh: u32, ceiling: u32) -> (r: Option<RoHBound>)
        ensures
            r is Some <==> can_bind(roh, ceiling),
            r matches Some(t) ==> t.roh() == roh && t.bound() == ceiling,
    {
        if roh <= ceiling {
            Some(RoHBound { roh, ceiling })
        } else {
            None
        }
    }

    /// Binds under the system ceiling `ROH_CEILING`.
    pub fn new(roh: u32) -> (r: Option<RoHBound>)
        ensures
            r is Some <==> can_bind(roh, ROH_CEILING),
            r matches Some(t) ==> t.roh() == roh && t.bound() == ROH_CEILING,
    {
        RoHBound::try_bind(roh, ROH_CEILING)
    }

    /// The bound value, for audit and logging.
    pub fn value(&self) -> (r: u32)
        ensures
            r == self.roh(),
            r <= self.bound(),
    {
        proof {
            use_type_invariant(self);
        }
        self.roh
    }

    /// The ceiling the value was bound under.
    pub fn ceiling(&self) -> (r: u32)
        ensures
            r == self.bound(),
    {
        self.ceiling
    }
}

/// Binding is monotone: a risk that can be bound under a ceiling stays bindable when
/// it decreases.
pub proof fn lemma_bind_monotone(roh: u32, lower: u32, ceiling: u32)
    requires
        can_bind(roh, ceiling),
        lower <= roh,
    ensures
        can_bind(lower, ceiling),
{
}

/// One role's verdict on one (host, upgrade, evolution) triplet.
pub struct DecisionRecord {
    pub host_did: String,
    pub upgrade_id: String,
    pub evolution_id: String,
    pub kind: DecisionKind,
    /// For example "NeurorightsDecider", "SafetyDecider", "HostSelf".
    pub decided_by_role: String,
    pub decided_by_did: String,
    /// Predicted risk in millionths.
    pub predicted_roh: u32,
    pub roh_token: Option<RoHBound>,
    pub timestamp_ms: i64,
    pub evidence_hash: String,
}

/// The durable, signed projection of a `DecisionRecord`.
pub struct DecisionLedgerEntry {
    pub host_did: String,
    pub upgrade_id: String,
    pub evolution_id: String,
    pub decision_kind: DecisionKind,
    pub decision_record_hash: String,
    pub decided_by_did: String,
    pub decided_by_role: String,
    pub zone_id: String,
    pub scheduler_id: String,
    /// Risk at decision time, in millionths.
    pub roh_at_decision: u32,
    /// Risk change the decided action brings, in millionths.
    pub roh_delta: i32,
    pub biokarma_snapshot_id: String,
    pub biomarker_envelope_id: String,
    pub created_at_ms: i64,
    pub hexstamp: String,
}

impl DecisionLedgerEntry {
    /// A field-by-field copy.
    pub fn duplicate(&self) -> (r: DecisionLedgerEntry)
        ensures
            r == *self,
    {
        DecisionLedgerEntry {
            host_did: self.host_did.clone(),
            upgrade_id: self.upgrade_id.clone(),
            evolution_id: self.evolution_id.clone(),
            decision_kind: self.decision_kind,
            decision_record_hash: self.decision_record_hash.clone(),
            decided_by_did: self.decided_by_did.clone(),
            decided_by_role: self.decided_by_role.clone(),
            zone_id: self.zone_id.clone(),
            scheduler_id: self.scheduler_id.clone(),
            roh_at_decision: self.roh_at_decision,
            roh_delta: self.roh_delta,
            biokarma_snapshot_id: self.biokarma_snapshot_id.clone(),
            biomarker_envelope_id: self.biomarker_envelope_id.clone(),
            created_at_ms: self.created_at_ms,
            hexstamp: self.hexstamp.clone(),
        }
    }
}

/// Per-triplet audit trail. Both histories only grow.
pub struct EvolutionAuditRecord {
    pub host_did: String,
    pub upgrade_id: String,
    pub evolution_id: String,
    pub active: bool,
    /// Risk history in millionths.
    pub roh_history: Vec<u32>,
    pub decision_record_hashes: Vec<String>,
}

/// Blood token reserve of a corridor session.
pub struct BloodTokenReserveProfile {
    pub host_did: String,
    pub corridor_id: String,
    pub session_id: String,
    pub max_blood_tokens: u64,
    pub reserved_tokens: u64,
    pub biomarker_envelope_id: String,
}

/// Proof that a spend was made within the reserve and the risk ceiling.
pub struct BloodSpendProof {
    pub host_did: String,
    pub corridor_id: String,
    pub session_id: String,
    pub spent_tokens: u64,
    pub remaining_tokens: u64,
    pub biomarker_envelope_id: String,
    pub decision_record_hash: String,
    pub roh_bound: RoHBound,
}

/// Sum of a sequence of samples.
pub open spec fn sample_sum(s: Seq<i32>) -> int
    decreases s.len(),
{
    if s.len() == 0 {
        0
    } else {
        sample_sum(s.drop_last()) + s.last()
    }
}

/// Sum of the squares of a sequence of samples.
pub open spec fn sample_square_sum(s: Seq<i32>) -> int
    decreases s.len(),
{
    if s.len() == 0 {
        0
    } else {
        sample_square_sum(s.drop_last()) + s.last() * s.last()
    }
}

/// `n² · variance` of the samples: `n Σa² − (Σa)²`.
pub open spec fn variance_numerator(s: Seq<i32>) -> int {
    s.len() * sample_square_sum(s) - sample_sum(s) * sample_sum(s)
}

/// Predicted risk, in millionths, of a sample sequence: the population variance of
/// the samples divided by ten and clamped to [0, 1].
///
/// With samples `a / SAMPLE_SCALE` and risk in units of `1 / RISK_SCALE`,
/// `variance / 10` is `(n Σa² − (Σa)²) / (1000 n²)` in those units.
pub open spec fn predicted_risk(s: Seq<i32>) -> int {
    let num = variance_numerator(s);
    if s.len() == 0 || num <= 0 {
        0
    } else {
        let n = s.len() as int;
        let q = num / (1000 * n * n);
        if q > RISK_SCALE as int {
            RISK_SCALE as int
        } else {
            q
        }
    }
}

/// Sums over a sequence whose samples all equal `c`.
proof fn lemma_constant_sums(s: Seq<i32>, c: i32)
    requires
        forall|i: int| 0 <= i < s.len() ==> s[i] == c,
    ensures
        sample_sum(s) == s.len() * c,
        sample_square_sum(s) == s.len() * (c * c),
    decreases s.len(),
{
    if s.len() > 0 {
        let p = s.drop_last();
        assert forall|i: int| 0 <= i < p.len() implies p[i] == c by {
            assert(p[i] == s[i]);
        }
        lemma_constant_sums(p, c);
        assert(s.last() == s[s.len() - 1]);
        assert(s.len() * c == p.len() * c + c) by (nonlinear_arith)
            requires
                s.len() == p.len() + 1,
        ;
        assert(s.len() * (c * c) == p.len() * (c * c) + c * c) by (nonlinear_arith)
            requires
                s.len() == p.len() + 1,
        ;
    } else {
        assert(s.len() * c == 0 && s.len() * (c * c) == 0) by (nonlinear_arith)
            requires
                s.len() == 0,
        ;
    }
}

/// Evidence whose samples are all equal has no variance, hence zero predicted risk.
pub proof fn lemma_constant_evidence_has_zero_risk(s: Seq<i32>, c: i32)
    requires
        forall|i: int| 0 <= i < s.len() ==> s[i] == c,
    ensures
        predicted_risk(s) == 0,
{
    lemma_constant_sums(s, c);
    let n = s.len() as int;
    assert(n * (n * (c * c)) - (n * c) * (n * c) == 0) by (nonlinear_arith);
}

/// Evidence for a prediction.
pub struct EvidenceBundle {
    /// Rolling biokarma scores in units of `1 / SAMPLE_SCALE`, nominally in
    /// [-SAMPLE_SCALE, SAMPLE_SCALE]; values outside are kept, not rejected.
    pub biokarma: Vec<i32>,
    /// Further observables (heart rate variability, signal quality, ...).
    pub observables: Vec<i32>,
}

pub enum EvidenceError {
    TooFewBiokarma { len: usize },
}

impl EvidenceBundle {
    /// Fails exactly when fewer than `MIN_BIOKARMA_SAMPLES` biokarma samples are present.
    pub fn validate(&self) -> (r: Result<(), EvidenceError>)
        ensures
            self.biokarma@.len() < MIN_BIOKARMA_SAMPLES ==> r == Err::<(), EvidenceError>(
                EvidenceError::TooFewBiokarma { len: self.biokarma@.len() as usize },
            ),
            self.biokarma@.len() >= MIN_BIOKARMA_SAMPLES ==> r is Ok,
    {
        if self.biokarma.len() < MIN_BIOKARMA_SAMPLES {
            return Err(EvidenceError::TooFewBiokarma { len: self.biokarma.len() });
        }
        Ok(())
    }
}

proof fn lemma_square_bound(a: i32)
    ensures
        0 <= a * a <= 0x4000_0000_0000_0000,
{
    assert(0 <= a * a <= 0x4000_0000_0000_0000) by (nonlinear_arith)
        requires
            -0x8000_0000 <= a <= 0x7fff_ffff,
    ;
}

/// Predicted risk of a validated bundle; see `predicted_risk`.
pub fn roh_from_biokarma(bundle: &EvidenceBundle) -> (r: u32)
    requires
        bundle.biokarma@.len() >= MIN_BIOKARMA_SAMPLES,
        bundle.biokarma@.len() <= u32::MAX,
    ensures
        r as int == predicted_risk(bundle.biokarma@),
        r <= RISK_SCALE,
{
    let s = &bundle.biokarma;
    let n = s.len();
    let mut sum: i128 = 0;
    let mut sq: i128 = 0;
    let mut i: usize = 0;
    while i < n
        invariant
            n == s@.len(),
            n <= u32::MAX,
            i <= n,
            sum as int == sample_sum(s@.take(i as int)),
            sq as int == sample_square_sum(s@.take(i as int)),
            -(i as int) * 0x8000_0000 <= sum <= (i as int) * 0x8000_0000,
            0 <= sq <= (i as int) * 0x4000_0000_0000_0000,
        decreases n - i,
    {
        let a = s[i];
        proof {
            lemma_square_bound(a);
            assert(s@.take(i as int + 1).drop_last() =~= s@.take(i as int));
        }
        sum = sum + a as i128;
        sq = sq + (a as i128) * (a as i128);
        i = i + 1;
    }
    proof {
        assert(s@.take(n as int) =~= s@);
    }
    let nn = n as i128;
    proof {
        assert(nn * sq <= 0x4000_0000_0000_0000_0000_0000_0000_0000int) by (nonlinear_arith)
            requires
                0 <= nn <= u32::MAX,
                0 <= sq <= nn * 0x4000_0000_0000_0000,
        ;
        assert(sum * sum <= 0x4000_0000_0000_0000_0000_0000_0000_0000int) by (nonlinear_arith)
            requires
                0 <= nn <= u32::MAX,
                -nn * 0x8000_0000 <= sum <= nn * 0x8000_0000,
        ;
        assert(0 <= nn * sq);
        assert(0 <= sum * sum) by (nonlinear_arith);
    }
    let num = nn * sq - sum * sum;
    if num <= 0 {
        return 0;
    }
    let nu = n as u128;
    proof {
        assert(0 < 1000 * nu * nu <= 1000 * 0x1_0000_0000_0000_0000int) by (nonlinear_arith)
            requires
                1 <= nu <= u32::MAX,
        ;
    }
    let den: u128 = 1000 * nu * nu;
    let q = (num as u128) / den;
    if q > RISK_SCALE as u128 {
        RISK_SCALE
    } else {
        q as u32
    }
}

} // verus!
