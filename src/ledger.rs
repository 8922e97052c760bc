use vstd::prelude::*;

use crate::types::{DecisionKind, DecisionLedgerEntry, EvolutionAuditRecord};

verus! {

/// Whether an entry is keyed by the given triplet and kind.
pub open spec fn entry_matches(
    e: DecisionLedgerEntry,
    host_did: Seq<char>,
    upgrade_id: Seq<char>,
    evolution_id: Seq<char>,
    kind: DecisionKind,
) -> bool {
    &&& e.host_did@ == host_did
    &&& e.upgrade_id@ == upgrade_id
    &&& e.evolution_id@ == evolution_id
    &&& e.decision_kind == kind
}

/// The earliest entry of `entries` keyed by the triplet and kind, if any.
pub open spec fn lookup(
    entries: Seq<DecisionLedgerEntry>,
    host_did: Seq<char>,
    upgrade_id: Seq<char>,
    evolution_id: Seq<char>,
    kind: DecisionKind,
) -> Option<DecisionLedgerEntry>
    decreases entries.len(),
{
    if entries.len() == 0 {
        None
    } else {
        match lookup(entries.drop_last(), host_did, upgrade_id, evolution_id, kind) {
            Some(e) => Some(e),
            None => if entry_matches(entries.last(), host_did, upgrade_id, evolution_id, kind) {
                Some(entries.last())
            } else {
                None
            },
        }
    }
}

/// Once a prefix holds a match, longer prefixes find the same entry.
proof fn lemma_lookup_prefix(
    entries: Seq<DecisionLedgerEntry>,
    i: int,
    m: int,
    host_did: Seq<char>,
    upgrade_id: Seq<char>,
    evolution_id: Seq<char>,
    kind: DecisionKind,
)
    requires
        0 <= i <= m <= entries.len(),
        lookup(entries.take(i), host_did, upgrade_id, evolution_id, kind) is Some,
    ensures
        lookup(entries.take(m), host_did, upgrade_id, evolution_id, kind) == lookup(
            entries.take(i),
            host_did,
            upgrade_id,
            evolution_id,
            kind,
        ),
    decreases m - i,
{
    if m > i {
        lemma_lookup_prefix(entries, i, m - 1, host_did, upgrade_id, evolution_id, kind);
        assert(entries.take(m).drop_last() =~= entries.take(m - 1));
    }
}

/// The ledger interface: append-only storage with exact lookup. Every
/// implementation keeps what it stored and finds the earliest entry for a key.
pub trait DecisionLedger {
    /// The entries stored, oldest first.
    spec fn entries(&self) -> Seq<DecisionLedgerEntry>;

    fn append(&mut self, entry: DecisionLedgerEntry)
        ensures
            final(self).entries() == old(self).entries().push(entry),
    ;

    fn find_for_triplet(
        &self,
        host_did: &str,
        upgrade_id: &str,
        evolution_id: &str,
        kind: DecisionKind,
    ) -> (r: Option<DecisionLedgerEntry>)
        ensures
            r == lookup(self.entries(), host_did@, upgrade_id@, evolution_id@, kind),
    ;
}

/// An in-memory, append-only decision ledger.
pub struct MemoryDecisionLedger {
    entries: Vec<DecisionLedgerEntry>,
}

impl View for MemoryDecisionLedger {
    type V = Seq<DecisionLedgerEntry>;

    closed spec fn view(&self) -> Seq<DecisionLedgerEntry> {
        self.entries@
    }
}

impl Default for MemoryDecisionLedger {
    fn default() -> (r: MemoryDecisionLedger)
        ensures
            r@ == Seq::<DecisionLedgerEntry>::empty(),
    {
        MemoryDecisionLedger::new()
    }
}

/// Why a transition may not be treated as effective.
pub enum SidecarError {
    MissingLedgerEntry,
    DidMismatch { expected: String, actual: String },
}

impl MemoryDecisionLedger {
    /// An empty ledger.
    pub fn new() -> (r: MemoryDecisionLedger)
        ensures
            r@ == Seq::<DecisionLedgerEntry>::empty(),
    {
        MemoryDecisionLedger { entries: Vec::new() }
    }

    /// Number of entries.
    pub fn len(&self) -> (r: usize)
        ensures
            r == self@.len(),
    {
        self.entries.len()
    }

    /// Adds one entry at the end; nothing already stored changes.
    pub fn append(&mut self, entry: DecisionLedgerEntry)
        ensures
            final(self)@ == old(self)@.push(entry),
    {
        self.entries.push(entry);
    }

    /// The earliest entry for the exact triplet and kind.
    pub fn find_for_triplet(
        &self,
        host_did: &str,
        upgrade_id: &str,
        evolution_id: &str,
        kind: DecisionKind,
    ) -> (r: Option<DecisionLedgerEntry>)
        ensures
            r == lookup(self@, host_did@, upgrade_id@, evolution_id@, kind),
    {
        let h = host_did.to_owned();
        let u = upgrade_id.to_owned();
        let ev = evolution_id.to_owned();
        let n = self.entries.len();
        let mut i: usize = 0;
        while i < n
            invariant
                n == self.entries@.len(),
                i <= n,
                h@ == host_did@,
                u@ == upgrade_id@,
                ev@ == evolution_id@,
                lookup(self.entries@.take(i as int), host_did@, upgrade_id@, evolution_id@, kind) is None,
            decreases n - i,
        {
            let e = &self.entries[i];
            proof {
                assert(self.entries@.take(i as int + 1).drop_last() =~= self.entries@.take(i as int));
                assert(self.entries@.take(i as int + 1).last() == self.entries@[i as int]);
            }
            if e.host_did == h && e.upgrade_id == u && e.evolution_id == ev && e.decision_kind == kind {
                proof {
                    lemma_lookup_prefix(
                        self.entries@,
                        i as int + 1,
                        n as int,
                        host_did@,
                        upgrade_id@,
                        evolution_id@,
                        kind,
                    );
                    assert(self.entries@.take(n as int) =~= self.entries@);
                }
                return Some(e.duplicate());
            }
            i = i + 1;
        }
        proof {
            assert(self.entries@.take(n as int) =~= self.entries@);
        }
        None
    }

    /// Appends only when no entry for the same triplet and kind is stored; returns
    /// whether it appended. A second decision for one triplet and kind is ambiguous.
    pub fn append_unique(&mut self, entry: DecisionLedgerEntry) -> (r: bool)
        ensures
            r == lookup(
                old(self)@,
                entry.host_did@,
                entry.upgrade_id@,
                entry.evolution_id@,
                entry.decision_kind,
            ) is None,
            r ==> final(self)@ == old(self)@.push(entry),
            !r ==> final(self)@ == old(self)@,
    {
        let found = self.find_for_triplet(
            entry.host_did.as_str(),
            entry.upgrade_id.as_str(),
            entry.evolution_id.as_str(),
            entry.decision_kind,
        );
        if found.is_some() {
            false
        } else {
            self.append(entry);
            true
        }
    }

    /// Succeeds exactly when an entry for the triplet and target kind exists and was
    /// decided by `expected_decider_did`. Never changes the ledger.
    pub fn ensure_transition_has_ledger_entry(
        &self,
        host_did: &str,
        upgrade_id: &str,
        evolution_id: &str,
        target: DecisionKind,
        expected_decider_did: &str,
    ) -> (r: Result<(), SidecarError>)
        ensures
            guard_outcome(
                r,
                lookup(self@, host_did@, upgrade_id@, evolution_id@, target),
                expected_decider_did@,
            ),
    {
        let entry = match self.find_for_triplet(host_did, upgrade_id, evolution_id, target) {
            Some(e) => e,
            None => {
                return Err(SidecarError::MissingLedgerEntry);
            },
        };
        let expected = expected_decider_did.to_owned();
        if entry.decided_by_did != expected {
            return Err(SidecarError::DidMismatch { expected, actual: entry.decided_by_did });
        }
        Ok(())
    }
}

/// What the guard returns for the entry it found.
pub open spec fn guard_outcome(
    r: Result<(), SidecarError>,
    found: Option<DecisionLedgerEntry>,
    expected_decider_did: Seq<char>,
) -> bool {
    match found {
        None => r == Err::<(), SidecarError>(SidecarError::MissingLedgerEntry),
        Some(e) => if e.decided_by_did@ == expected_decider_did {
            r is Ok
        } else {
            r matches Err(SidecarError::DidMismatch { expected, actual })
                && expected@ == expected_decider_did && actual@ == e.decided_by_did@
        },
    }
}

impl DecisionLedger for MemoryDecisionLedger {
    open spec fn entries(&self) -> Seq<DecisionLedgerEntry> {
        self@
    }

    fn append(&mut self, entry: DecisionLedgerEntry) {
        MemoryDecisionLedger::append(self, entry)
    }

    fn find_for_triplet(
        &self,
        host_did: &str,
        upgrade_id: &str,
        evolution_id: &str,
        kind: DecisionKind,
    ) -> Option<DecisionLedgerEntry> {
        MemoryDecisionLedger::find_for_triplet(self, host_did, upgrade_id, evolution_id, kind)
    }
}

/// Sidecar enforcement: called before any transition out of `Proposed` is treated as
/// effective. It reads the ledger and never changes it.
pub trait SidecarGuard: DecisionLedger {
    fn ensure_transition_has_ledger_entry(
        &self,
        host_did: &str,
        upgrade_id: &str,
        evolution_id: &str,
        target: DecisionKind,
        expected_decider_did: &str,
    ) -> (r: Result<(), SidecarError>)
        ensures
            guard_outcome(
                r,
                lookup(self.entries(), host_did@, upgrade_id@, evolution_id@, target),
                expected_decider_did@,
            ),
    ;
}

impl SidecarGuard for MemoryDecisionLedger {
    fn ensure_transition_has_ledger_entry(
        &self,
        host_did: &str,
        upgrade_id: &str,
        evolution_id: &str,
        target: DecisionKind,
        expected_decider_did: &str,
    ) -> Result<(), SidecarError> {
        MemoryDecisionLedger::ensure_transition_has_ledger_entry(
            self,
            host_did,
            upgrade_id,
            evolution_id,
            target,
            expected_decider_did,
        )
    }
}

impl EvolutionAuditRecord {
    /// Records one more risk observation, in millionths.
    pub fn append_roh(&mut self, roh: u32)
        ensures
            final(self).roh_history@ == old(self).roh_history@.push(roh),
            final(self).decision_record_hashes@ == old(self).decision_record_hashes@,
            final(self).host_did == old(self).host_did,
            final(self).upgrade_id == old(self).upgrade_id,
            final(self).evolution_id == old(self).evolution_id,
            final(self).active == old(self).active,
    {
        self.roh_history.push(roh);
    }

    /// Records one more decision-record hash.
    pub fn append_decision_hash(&mut self, hash: String)
        ensures
            final(self).decision_record_hashes@ == old(self).decision_record_hashes@.push(hash),
            final(self).roh_history@ == old(self).roh_history@,
            final(self).host_did == old(self).host_did,
            final(self).upgrade_id == old(self).upgrade_id,
            final(self).evolution_id == old(self).evolution_id,
            final(self).active == old(self).active,
    {
        self.decision_record_hashes.push(hash);
    }
}

/// After appending an entry to a ledger that held none for its triplet and kind,
/// looking that key up returns the appended entry.
pub proof fn lemma_append_then_find(entries: Seq<DecisionLedgerEntry>, e: DecisionLedgerEntry)
    requires
        lookup(entries, e.host_did@, e.upgrade_id@, e.evolution_id@, e.decision_kind) is None,
    ensures
        lookup(entries.push(e), e.host_did@, e.upgrade_id@, e.evolution_id@, e.decision_kind)
            == Some(e),
{
    assert(entries.push(e).drop_last() =~= entries);
}

/// Appending an entry leaves every lookup of another triplet or kind as it was; in
/// particular on an empty ledger such a lookup finds nothing.
pub proof fn lemma_append_other_key(
    entries: Seq<DecisionLedgerEntry>,
    e: DecisionLedgerEntry,
    host_did: Seq<char>,
    upgrade_id: Seq<char>,
    evolution_id: Seq<char>,
    kind: DecisionKind,
)
    requires
        !entry_matches(e, host_did, upgrade_id, evolution_id, kind),
    ensures
        lookup(entries.push(e), host_did, upgrade_id, evolution_id, kind) == lookup(
            entries,
            host_did,
            upgrade_id,
            evolution_id,
            kind,
        ),
        entries.len() == 0 ==> lookup(entries.push(e), host_did, upgrade_id, evolution_id, kind)
            is None,
{
    assert(entries.push(e).drop_last() =~= entries);
}

/// Appending never changes what an earlier lookup found.
pub proof fn lemma_append_keeps_found(
    entries: Seq<DecisionLedgerEntry>,
    e: DecisionLedgerEntry,
    host_did: Seq<char>,
    upgrade_id: Seq<char>,
    evolution_id: Seq<char>,
    kind: DecisionKind,
)
    requires
        lookup(entries, host_did, upgrade_id, evolution_id, kind) is Some,
    ensures
        lookup(entries.push(e), host_did, upgrade_id, evolution_id, kind) == lookup(
            entries,
            host_did,
            upgrade_id,
            evolution_id,
            kind,
        ),
{
    assert(entries.push(e).drop_last() =~= entries);
}

/// A found entry is keyed by the triplet and kind it was looked up with.
pub proof fn lemma_found_matches(
    entries: Seq<DecisionLedgerEntry>,
    host_did: Seq<char>,
    upgrade_id: Seq<char>,
    evolution_id: Seq<char>,
    kind: DecisionKind,
)
    requires
        lookup(entries, host_did, upgrade_id, evolution_id, kind) is Some,
    ensures
        entry_matches(
            lookup(entries, host_did, upgrade_id, evolution_id, kind)->0,
            host_did,
            upgrade_id,
            evolution_id,
            kind,
        ),
    decreases entries.len(),
{
    if entries.len() > 0 {
        if lookup(entries.drop_last(), host_did, upgrade_id, evolution_id, kind) is Some {
            lemma_found_matches(entries.drop_last(), host_did, upgrade_id, evolution_id, kind);
        }
    }
}

/// The guard on a ledger holding one entry, looked up by that entry's triplet and
/// kind, reports a DID mismatch naming the expected and the recorded DID when they
/// differ; on an empty ledger it reports the entry missing.
pub proof fn lemma_guard_outcomes(
    e: DecisionLedgerEntry,
    expected_decider_did: Seq<char>,
    on_single: Result<(), SidecarError>,
    on_empty: Result<(), SidecarError>,
)
    requires
        e.decided_by_did@ != expected_decider_did,
        guard_outcome(
            on_single,
            lookup(seq![e], e.host_did@, e.upgrade_id@, e.evolution_id@, e.decision_kind),
            expected_decider_did,
        ),
        guard_outcome(
            on_empty,
            lookup(Seq::empty(), e.host_did@, e.upgrade_id@, e.evolution_id@, e.decision_kind),
            expected_decider_did,
        ),
    ensures
        on_single matches Err(SidecarError::DidMismatch { expected, actual })
            && expected@ == expected_decider_did && actual@ == e.decided_by_did@,
        on_empty == Err::<(), SidecarError>(SidecarError::MissingLedgerEntry),
{
    lemma_append_then_find(Seq::empty(), e);
    assert(Seq::<DecisionLedgerEntry>::empty().push(e) =~= seq![e]);
}

} // verus!
