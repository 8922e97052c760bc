use vstd::prelude::*;

use crate::retrieval::{same_envelope, KsrBand, PromptEnvelope};
use crate::types::RISK_SCALE;

verus! {

/// Session risk is kept in units of `1 / (255 · SESSION_UNITS_PER_BAND)`: a segment
/// whose risk byte is `r` adds `r · SESSION_UNITS_PER_BAND`, that is `r / 255` of 1.0.
pub const SESSION_UNITS_PER_BAND: u64 = 1000;

/// The session ceiling 0.30 in session units (`0.30 · 255 · 1000`).
pub const SESSION_CEILING: u64 = 76_500;

/// A segment is high-risk when its normalized risk exceeds 0.20, that is when its
/// risk byte exceeds 51 (`0.20 · 255`).
pub const HIGH_R_BAND: u8 = 51;

/// The most high-risk segments a session admits.
pub const MAX_HIGH_R_SEGMENTS: u8 = 4;

pub struct NeuralRopeSegment {
    pub segment_id: uuid::Uuid,
    pub envelope: PromptEnvelope,
    pub ksrdelta: KsrBand,
    pub summary: String,
    /// Trust in the segment's facts, in millionths.
    pub quiz_math_score: u32,
}

#[derive(Clone, Copy, Debug, PartialEq, Eq, Structural)]
pub enum RopeSegmentKind {
    ActiveRetrieval,
    SummaryCooldown,
    PolicyCheck,
}

/// Cumulative risk exposure of one session.
pub struct SessionState {
    pub session_id: uuid::Uuid,
    pub segments: Vec<(NeuralRopeSegment, RopeSegmentKind)>,
    /// Accumulated risk in session units.
    pub accumulated_risk: u64,
    pub high_r_segments: u8,
}

/// Whether a session with the given counters admits an active segment of risk byte `r`.
pub open spec fn admits(accumulated: int, high_r_segments: int, r: u8) -> bool {
    accumulated + r * SESSION_UNITS_PER_BAND < SESSION_CEILING && high_r_segments
        < MAX_HIGH_R_SEGMENTS
}

/// The accumulated risk after a cooldown: 80% of it, rounded up to a whole unit.
pub open spec fn decayed(accumulated: int) -> int {
    accumulated - accumulated / 5
}

impl SessionState {
    pub fn new() -> (r: SessionState)
        ensures
            r.segments@.len() == 0,
            r.accumulated_risk == 0,
            r.high_r_segments == 0,
    {
        SessionState {
            session_id: uuid::Uuid::new_v4(),
            segments: Vec::new(),
            accumulated_risk: 0,
            high_r_segments: 0,
        }
    }

    /// Admission test for an active segment of risk byte `next_r_band`: the
    /// accumulated risk stays strictly under 0.30 and fewer than four high-risk
    /// segments were admitted.
    pub fn can_accept_active(&self, next_r_band: u8) -> (r: bool)
        ensures
            r == admits(self.accumulated_risk as int, self.high_r_segments as int, next_r_band),
    {
        let add: u64 = (next_r_band as u64) * SESSION_UNITS_PER_BAND;
        let projected = self.accumulated_risk as u128 + add as u128;
        projected < SESSION_CEILING as u128 && self.high_r_segments < MAX_HIGH_R_SEGMENTS
    }

    /// Records an admitted active segment: adds its risk and counts it when high.
    pub fn push_active(&mut self, seg: NeuralRopeSegment)
        requires
            admits(old(self).accumulated_risk as int, old(self).high_r_segments as int, seg.ksrdelta.r),
        ensures
            final(self).accumulated_risk == old(self).accumulated_risk + seg.ksrdelta.r
                * SESSION_UNITS_PER_BAND,
            final(self).high_r_segments == old(self).high_r_segments + (if seg.ksrdelta.r
                > HIGH_R_BAND {
                1int
            } else {
                0int
            }),
            final(self).segments@ == old(self).segments@.push((seg, RopeSegmentKind::ActiveRetrieval)),
            final(self).session_id == old(self).session_id,
    {
        let r = seg.ksrdelta.r;
        if r > HIGH_R_BAND {
            self.high_r_segments = self.high_r_segments + 1;
        }
        self.accumulated_risk = self.accumulated_risk + (r as u64) * SESSION_UNITS_PER_BAND;
        self.segments.push((seg, RopeSegmentKind::ActiveRetrieval));
    }

    /// Admits an active segment if the admission test passes, as one step; returns
    /// whether it was admitted. A refused segment leaves the session unchanged.
    pub fn admit_active(&mut self, seg: NeuralRopeSegment) -> (r: bool)
        ensures
            r == admits(old(self).accumulated_risk as int, old(self).high_r_segments as int, seg.ksrdelta.r),
            r ==> final(self).accumulated_risk == old(self).accumulated_risk + seg.ksrdelta.r
                * SESSION_UNITS_PER_BAND,
            r ==> final(self).high_r_segments == old(self).high_r_segments + (if seg.ksrdelta.r
                > HIGH_R_BAND {
                1int
            } else {
                0int
            }),
            r ==> final(self).segments@ == old(self).segments@.push((seg, RopeSegmentKind::ActiveRetrieval)),
            !r ==> final(self).accumulated_risk == old(self).accumulated_risk,
            !r ==> final(self).high_r_segments == old(self).high_r_segments,
            !r ==> final(self).segments@ == old(self).segments@,
            final(self).session_id == old(self).session_id,
    {
        if self.can_accept_active(seg.ksrdelta.r) {
            self.push_active(seg);
            true
        } else {
            false
        }
    }

    /// Relief step: keeps 80% of the accumulated risk and records a cooldown segment
    /// under the latest segment's envelope. The high-risk count is unchanged.
    pub fn push_cooldown(&mut self, text: &str)
        requires
            old(self).segments@.len() > 0,
        ensures
            final(self).accumulated_risk == decayed(old(self).accumulated_risk as int),
            final(self).high_r_segments == old(self).high_r_segments,
            final(self).segments@.len() == old(self).segments@.len() + 1,
            final(self).segments@.drop_last() == old(self).segments@,
            final(self).segments@.last().1 == RopeSegmentKind::SummaryCooldown,
            final(self).segments@.last().0.summary@ == text@,
            final(self).segments@.last().0.ksrdelta == (KsrBand { k: 0x10, s: 0x60, r: 0x05 }),
            same_envelope(final(self).segments@.last().0.envelope, old(self).segments@.last().0.envelope),
            final(self).segments@.last().0.quiz_math_score == RISK_SCALE,
            final(self).session_id == old(self).session_id,
    {
        let last = self.segments.len() - 1;
        let envelope = self.segments[last].0.envelope.duplicate();
        let cooldown = NeuralRopeSegment {
            segment_id: uuid::Uuid::new_v4(),
            envelope,
            ksrdelta: KsrBand { k: 0x10, s: 0x60, r: 0x05 },
            summary: text.to_owned(),
            quiz_math_score: RISK_SCALE,
        };
        self.accumulated_risk = self.accumulated_risk - self.accumulated_risk / 5;
        self.segments.push((cooldown, RopeSegmentKind::SummaryCooldown));
        proof {
            assert(self.segments@.drop_last() =~= old(self).segments@);
        }
    }
}

/// A cooldown removes exactly a fifth of an accumulated risk that is a multiple of
/// five, and never raises it.
pub proof fn lemma_cooldown_decay(accumulated: int)
    requires
        accumulated >= 0,
    ensures
        decayed(accumulated) <= accumulated,
        accumulated % 5 == 0 ==> 5 * decayed(accumulated) == 4 * accumulated,
{
}

/// A cooldown never withdraws an admission: a segment the session admitted before
/// it is still admitted after it.
pub proof fn lemma_cooldown_keeps_admission(accumulated: int, high_r_segments: int, r: u8)
    requires
        accumulated >= 0,
        admits(accumulated, high_r_segments, r),
    ensures
        admits(decayed(accumulated), high_r_segments, r),
{
}

} // verus!
