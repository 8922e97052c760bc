use vstd::prelude::*;

use crate::hci_profile::HciRiskLevel;
use crate::types::{RISK_SCALE, ROH_CEILING};

verus! {

/// Lower edge of the yellow band, 0.15.
pub const YELLOW_FLOOR: u32 = 150_000;

/// Lower edge of the red band, 0.25.
pub const RED_FLOOR: u32 = 250_000;

/// Risk bands, half-open: the ceiling itself is a hard reject.
#[derive(Clone, Copy, Debug, PartialEq, Eq, Structural)]
pub enum RohBand {
    Green,
    Yellow,
    Red,
    HardReject,
}

#[derive(Clone, Copy, Debug, PartialEq, Eq, Structural)]
pub enum TaskClass {
    Exploratory,
    Critical,
    Maintenance,
}

pub struct ScheduledTask {
    pub class: TaskClass,
    pub risk_level: HciRiskLevel,
    pub expected_duration_sec: u32,
}

#[derive(Clone, Copy, Debug, PartialEq, Eq, Structural)]
pub enum SchedulerDecision {
    Authorize,
    Defer,
    Reject,
    Escalate,
}

pub open spec fn band_of(r: int) -> RohBand {
    if r >= ROH_CEILING {
        RohBand::HardReject
    } else if r >= RED_FLOOR {
        RohBand::Red
    } else if r >= YELLOW_FLOOR {
        RohBand::Yellow
    } else {
        RohBand::Green
    }
}

/// Band of a risk in millionths: green under 0.15, yellow under 0.25, red under
/// 0.30, hard reject from 0.30 on.
pub fn classify_roh(r: u32) -> (b: RohBand)
    ensures
        b == band_of(r as int),
{
    if r >= ROH_CEILING {
        RohBand::HardReject
    } else if r >= RED_FLOOR {
        RohBand::Red
    } else if r >= YELLOW_FLOOR {
        RohBand::Yellow
    } else {
        RohBand::Green
    }
}

/// The decision table over band, task class and task risk level. Maintenance is
/// presumed lower-stakes and is authorized in every band under the ceiling.
pub open spec fn table_decision(band: RohBand, class: TaskClass, level: HciRiskLevel) -> SchedulerDecision {
    match band {
        RohBand::HardReject => SchedulerDecision::Escalate,
        RohBand::Green => match class {
            TaskClass::Exploratory => SchedulerDecision::Authorize,
            TaskClass::Critical => if level == HciRiskLevel::Low {
                SchedulerDecision::Authorize
            } else {
                SchedulerDecision::Defer
            },
            TaskClass::Maintenance => SchedulerDecision::Authorize,
        },
        RohBand::Yellow => match class {
            TaskClass::Exploratory => if level == HciRiskLevel::High {
                SchedulerDecision::Defer
            } else {
                SchedulerDecision::Authorize
            },
            TaskClass::Critical => SchedulerDecision::Reject,
            TaskClass::Maintenance => SchedulerDecision::Authorize,
        },
        RohBand::Red => match class {
            TaskClass::Maintenance => SchedulerDecision::Authorize,
            _ => SchedulerDecision::Reject,
        },
    }
}

/// Looks a combination up in the decision table.
pub fn policy_decision(band: RohBand, class: TaskClass, level: HciRiskLevel) -> (d: SchedulerDecision)
    ensures
        d == table_decision(band, class, level),
{
    match band {
        RohBand::HardReject => SchedulerDecision::Escalate,
        RohBand::Green => match class {
            TaskClass::Exploratory => SchedulerDecision::Authorize,
            TaskClass::Critical => match level {
                HciRiskLevel::Low => SchedulerDecision::Authorize,
                _ => SchedulerDecision::Defer,
            },
            TaskClass::Maintenance => SchedulerDecision::Authorize,
        },
        RohBand::Yellow => match class {
            TaskClass::Exploratory => match level {
                HciRiskLevel::High => SchedulerDecision::Defer,
                _ => SchedulerDecision::Authorize,
            },
            TaskClass::Critical => SchedulerDecision::Reject,
            TaskClass::Maintenance => SchedulerDecision::Authorize,
        },
        RohBand::Red => match class {
            TaskClass::Maintenance => SchedulerDecision::Authorize,
            _ => SchedulerDecision::Reject,
        },
    }
}

/// Biophysical state: loads and integrity in millionths (`RISK_SCALE` is 1.0).
#[derive(Clone, Copy, Debug)]
pub struct CybostateFactorV1 {
    pub physiological_load: u32,
    pub cognitive_load: u32,
    /// `RISK_SCALE` means fully intact; higher values count as fully intact.
    pub security_integrity: u32,
}

/// Weighted risk `0.5 · physiological + 0.3 · cognitive + 0.2 · (1 − integrity)`,
/// rounded up to the next millionth and capped at 1.0.
pub open spec fn cybostate_roh(physiological: int, cognitive: int, integrity: int) -> int {
    let missing = if integrity >= RISK_SCALE {
        0
    } else {
        RISK_SCALE - integrity
    };
    let w = 5 * physiological + 3 * cognitive + 2 * missing;
    let r = (w + 9) / 10;
    if r > RISK_SCALE {
        RISK_SCALE as int
    } else {
        r
    }
}

impl CybostateFactorV1 {
    pub fn calculate_roh(&self) -> (r: u32)
        ensures
            r == cybostate_roh(
                self.physiological_load as int,
                self.cognitive_load as int,
                self.security_integrity as int,
            ),
            r <= RISK_SCALE,
    {
        let missing: u64 = if self.security_integrity >= RISK_SCALE {
            0
        } else {
            (RISK_SCALE - self.security_integrity) as u64
        };
        let w: u64 = 5 * (self.physiological_load as u64) + 3 * (self.cognitive_load as u64) + 2
            * missing;
        let r = (w + 9) / 10;
        if r > RISK_SCALE as u64 {
            RISK_SCALE
        } else {
            r as u32
        }
    }
}

/// Gates tasks by risk band. `knowledge_factor` counts authorizations, each worth
/// 0.01 of knowledge; it only grows.
pub struct OrganicCpuScheduler {
    /// Risk in millionths from which every task escalates.
    pub roh_threshold: u32,
    /// Authorizations so far, in hundredths of knowledge.
    pub knowledge_factor: u64,
}

/// The scheduler's decision for a state risk and a task.
pub open spec fn scheduler_outcome(
    threshold: int,
    roh: int,
    class: TaskClass,
    level: HciRiskLevel,
) -> SchedulerDecision {
    if roh >= threshold {
        SchedulerDecision::Escalate
    } else {
        table_decision(band_of(roh), class, level)
    }
}

impl OrganicCpuScheduler {
    pub fn new() -> (r: OrganicCpuScheduler)
        ensures
            r.roh_threshold == ROH_CEILING,
            r.knowledge_factor == 0,
    {
        OrganicCpuScheduler { roh_threshold: ROH_CEILING, knowledge_factor: 0 }
    }

    /// Decides a task for the given state; an authorization adds one to
    /// `knowledge_factor` (saturating).
    pub fn decide(&mut self, state: CybostateFactorV1, task: &ScheduledTask) -> (d: SchedulerDecision)
        ensures
            ({
                let roh = cybostate_roh(
                    state.physiological_load as int,
                    state.cognitive_load as int,
                    state.security_integrity as int,
                );
                d == scheduler_outcome(old(self).roh_threshold as int, roh, task.class, task.risk_level)
            }),
            final(self).roh_threshold == old(self).roh_threshold,
            d == SchedulerDecision::Authorize ==> final(self).knowledge_factor == (if old(
                self,
            ).knowledge_factor == u64::MAX {
                u64::MAX
            } else {
                (old(self).knowledge_factor + 1) as u64
            }),
            d != SchedulerDecision::Authorize ==> final(self).knowledge_factor == old(
                self,
            ).knowledge_factor,
    {
        let roh = state.calculate_roh();
        if roh >= self.roh_threshold {
            return SchedulerDecision::Escalate;
        }
        let band = classify_roh(roh);
        let decision = policy_decision(band, task.class, task.risk_level);
        if decision == SchedulerDecision::Authorize {
            self.knowledge_factor = self.knowledge_factor.saturating_add(1);
        }
        decision
    }
}

/// Risk from which a high-risk task is refused, 0.20.
pub const ELEVATED_ROH: u32 = 200_000;

/// Biophysical state of the task gate: loads and integrity in millionths.
#[derive(Clone, Copy, Debug)]
pub struct CybostateFactor {
    pub physiological_load: u32,
    pub cognitive_load: u32,
    /// `RISK_SCALE` means fully intact; higher values count as fully intact.
    pub security_integrity: u32,
}

impl CybostateFactor {
    /// The aggregate risk, weighted as `cybostate_roh`.
    pub fn calculate_roh(&self) -> (r: u32)
        ensures
            r == cybostate_roh(
                self.physiological_load as int,
                self.cognitive_load as int,
                self.security_integrity as int,
            ),
            r <= RISK_SCALE,
    {
        let v1 = CybostateFactorV1 {
            physiological_load: self.physiological_load,
            cognitive_load: self.cognitive_load,
            security_integrity: self.security_integrity,
        };
        v1.calculate_roh()
    }
}

/// Why a task was refused.
#[derive(Clone, Copy, Debug, PartialEq, Eq, Structural)]
pub enum TaskRejection {
    /// The current risk is at or over the scheduler's threshold.
    ThresholdExceeded,
    /// A high-risk task was asked for while the current risk exceeds 0.20.
    HighRiskWhileElevated,
}

/// An authorized task: the risk it was judged at and the knowledge count after it.
#[derive(Clone, Copy, Debug, PartialEq, Eq, Structural)]
pub struct TaskAuthorization {
    pub current_roh: u32,
    pub knowledge_factor: u64,
}

/// The verdict of the task gate for a current risk and a task's risk level.
pub open spec fn task_verdict(threshold: int, roh: int, level: HciRiskLevel) -> Option<TaskRejection> {
    if roh >= threshold {
        Some(TaskRejection::ThresholdExceeded)
    } else if level == HciRiskLevel::High && roh > ELEVATED_ROH {
        Some(TaskRejection::HighRiskWhileElevated)
    } else {
        None
    }
}

impl OrganicCpuScheduler {
    /// Gates a data-retrieval task on the current state: refused at or over the
    /// threshold, and refused for a high-risk task over 0.20; otherwise authorized,
    /// which adds one to `knowledge_factor` (saturating).
    pub fn evaluate_task(&mut self, state: &CybostateFactor, task_risk: HciRiskLevel) -> (r: Result<
        TaskAuthorization,
        TaskRejection,
    >)
        ensures
            ({
                let roh = cybostate_roh(
                    state.physiological_load as int,
                    state.cognitive_load as int,
                    state.security_integrity as int,
                );
                match task_verdict(old(self).roh_threshold as int, roh, task_risk) {
                    Some(e) => r == Err::<TaskAuthorization, TaskRejection>(e)
                        && final(self).knowledge_factor == old(self).knowledge_factor,
                    None => r matches Ok(a) && a.current_roh == roh && final(self).knowledge_factor
                        == (if old(self).knowledge_factor == u64::MAX {
                        u64::MAX
                    } else {
                        (old(self).knowledge_factor + 1) as u64
                    }) && a.knowledge_factor == final(self).knowledge_factor,
                }
            }),
            final(self).roh_threshold == old(self).roh_threshold,
    {
        let current_roh = state.calculate_roh();
        if current_roh >= self.roh_threshold {
            return Err(TaskRejection::ThresholdExceeded);
        }
        if task_risk == HciRiskLevel::High && current_roh > ELEVATED_ROH {
            return Err(TaskRejection::HighRiskWhileElevated);
        }
        self.knowledge_factor = self.knowledge_factor.saturating_add(1);
        Ok(TaskAuthorization { current_roh, knowledge_factor: self.knowledge_factor })
    }
}

/// A hard-reject band escalates whatever the task class and level.
pub proof fn lemma_hard_reject_escalates(class: TaskClass, level: HciRiskLevel)
    ensures
        table_decision(RohBand::HardReject, class, level) == SchedulerDecision::Escalate,
{
}

/// Every risk at or over the ceiling is a hard reject, and with the scheduler's
/// threshold at the ceiling it escalates whatever the task.
pub proof fn lemma_ceiling_is_hard_reject(r: int, class: TaskClass, level: HciRiskLevel)
    requires
        r >= ROH_CEILING,
    ensures
        band_of(r) == RohBand::HardReject,
        scheduler_outcome(ROH_CEILING as int, r, class, level) == SchedulerDecision::Escalate,
{
}

/// Only a hard-reject band escalates; bands under the ceiling never do.
pub proof fn lemma_escalate_only_at_ceiling(r: int, class: TaskClass, level: HciRiskLevel)
    requires
        r < ROH_CEILING,
    ensures
        band_of(r) != RohBand::HardReject,
        table_decision(band_of(r), class, level) != SchedulerDecision::Escalate,
{
}

} // verus!
