//! The decision core of the sovereign economic actor: its counters, its
//! bounded decision ledger, its queue of substrate updates, and the rules by
//! which a jiggle step and an autonomous session are decided.
//!
//! Floating-point quantities are held as IEEE-754 binary64 bit patterns
//! (`f64::to_bits`); the arithmetic on them, and the comparisons that feed
//! the decisions, are made by the caller.

use vstd::prelude::*;

verus! {

/// Bit pattern of 2.0, the default major radius of the torus.
pub const DEFAULT_MAJOR_RADIUS: u64 = 0x4000_0000_0000_0000;

/// Bit pattern of 0.5, the default minor radius of the torus.
pub const DEFAULT_MINOR_RADIUS: u64 = 0x3fe0_0000_0000_0000;

/// Bit pattern of 0.04, the default compute regenerated per homeostatic step.
pub const DEFAULT_REGENERATION_AMOUNT: u64 = 0x3fa4_7ae1_47ae_147b;

/// Bit pattern of 1.0, the default compute cap.
pub const DEFAULT_MAX_COMPUTE: u64 = 0x3ff0_0000_0000_0000;

/// Bit pattern of 0.005, the default wake distance threshold.
pub const DEFAULT_WAKE_THRESHOLD_DISTANCE: u64 = 0x3f74_7ae1_47ae_147b;

/// Bit pattern of 0.05, the default wake forcing threshold.
pub const DEFAULT_WAKE_THRESHOLD_FORCING: u64 = 0x3fa9_9999_9999_999a;

/// Bit pattern of 0.0.
pub const ZERO: u64 = 0;

/// Default capacity of the decision ledger.
pub const DEFAULT_MAX_LEDGER_SIZE: usize = 500;

/// Default number of consecutive stable steps before a homeostatic action.
pub const DEFAULT_STABILITY_THRESHOLD: usize = 3;

/// Number of rest cycles entered when the actor is stable at full compute.
pub const DEEP_REST_CYCLES: usize = 10;

/// The outcome of one decision step.
#[derive(Debug, Clone, Copy, PartialEq, Eq, Structural)]
pub enum DecisionStatus {
    AuthorizedProgress,
    RejectedDivergence,
    RejectedStagnation,
    RejectedExhaustion,
    HomeostaticRegen,
    DeepStabilityRest,
}

/// The numeric code of a status (0 to 5 in declaration order).
pub open spec fn status_code(s: DecisionStatus) -> u32 {
    match s {
        DecisionStatus::AuthorizedProgress => 0,
        DecisionStatus::RejectedDivergence => 1,
        DecisionStatus::RejectedStagnation => 2,
        DecisionStatus::RejectedExhaustion => 3,
        DecisionStatus::HomeostaticRegen => 4,
        DecisionStatus::DeepStabilityRest => 5,
    }
}

impl DecisionStatus {
    /// The numeric code of the status.
    pub fn code(&self) -> (c: u32)
        ensures
            c == status_code(*self),
    {
        match self {
            DecisionStatus::AuthorizedProgress => 0,
            DecisionStatus::RejectedDivergence => 1,
            DecisionStatus::RejectedStagnation => 2,
            DecisionStatus::RejectedExhaustion => 3,
            DecisionStatus::HomeostaticRegen => 4,
            DecisionStatus::DeepStabilityRest => 5,
        }
    }
}

/// One entry of the decision ledger; the three distances are bit patterns.
#[derive(Debug, Clone, Copy)]
pub struct DecisionRecord {
    pub timestamp: u64,
    pub initial_distance: u64,
    pub trial_distance: u64,
    pub utility_gain: u64,
    pub status: DecisionStatus,
}

/// An update from the substrate stream; every quantity is a bit pattern.
#[derive(Clone, Debug)]
pub enum SubstrateUpdate {
    ManifoldTick { timestamp: u64, velocity_vector: Vec<u64> },
    SoilLiquidity { liquidity_coefficient: u64, saturation_delta: u64 },
}

/// What the caller has measured, before a jiggle step, of the state and the
/// trial move: four comparisons and the distances that are logged.
#[derive(Clone, Copy, Debug)]
pub struct JiggleObservation {
    /// The compute budget (`state[3]`) is at most 0.01.
    pub exhausted: bool,
    /// The distance to the target is below 1e-4, or the step size below 5e-4.
    pub stagnant: bool,
    /// The compute budget is at least the compute cap.
    pub at_max_compute: bool,
    /// The trial move brings the state closer (utility gain above 0.0).
    pub improves: bool,
    /// Bit pattern of the current distance to the target.
    pub current_distance: u64,
    /// Bit pattern of the trial position's distance to the target.
    pub trial_distance: u64,
    /// Bit pattern of `current_distance - trial_distance`.
    pub utility_gain: u64,
    /// Bit pattern of `min(regeneration_amount, max_compute - state[3])`.
    pub regen_reward: u64,
}

/// The change the caller makes to the state after a jiggle step.
#[derive(Debug, Clone, Copy, PartialEq, Eq, Structural)]
pub enum JiggleAction {
    /// The state is left as it is.
    Hold,
    /// `state[3]` drops by 0.002, not below 0.0 (deep rest).
    DrainCompute,
    /// `state[3]` grows by the regeneration reward.
    Regenerate,
    /// The first two coordinates take the trial values; `state[3]` drops by 0.01.
    ApplyTrial,
}

/// How an autonomous session goes on after a step.
#[derive(Debug, Clone, Copy, PartialEq, Eq, Structural)]
pub enum SessionDirective {
    /// Keep the step size.
    Continue,
    /// Halve the step size.
    HalveDelta,
    /// End the session.
    Stop,
}

/// The ledger after logging `rec` with capacity `max`: when full, the oldest
/// entry leaves first.
pub open spec fn ledger_after_log(
    ledger: Seq<DecisionRecord>,
    rec: DecisionRecord,
    max: usize,
) -> Seq<DecisionRecord> {
    if ledger.len() >= max && ledger.len() > 0 {
        ledger.drop_first().push(rec)
    } else {
        ledger.push(rec)
    }
}

/// The actor: a point on a torus driven towards a target, with a compute
/// budget, homeostatic regeneration and deep rest.
#[derive(Clone, Debug)]
pub struct SovereignEconomicActor {
    /// Updates waiting to be applied, oldest first.
    pub update_queue: std::collections::VecDeque<SubstrateUpdate>,
    pub alpha_forcing: u64,
    pub major_radius: u64,
    pub minor_radius: u64,
    /// Bit patterns of the (angle-wrapped) target coordinates.
    pub internal_target: Option<Vec<u64>>,
    pub decision_ledger: std::collections::VecDeque<DecisionRecord>,
    pub max_ledger_size: usize,
    pub stability_counter: usize,
    pub stability_threshold: usize,
    pub regeneration_amount: u64,
    pub max_compute: u64,
    pub rest_cycles_remaining: usize,
    pub wake_cooldown_ticks: usize,
    pub wake_threshold_distance: u64,
    pub wake_threshold_forcing: u64,
    pub actor_id: u64,
}

impl SovereignEconomicActor {
    /// The updates waiting to be applied, oldest first.
    pub open spec fn pending_updates(&self) -> Seq<SubstrateUpdate> {
        self.update_queue@
    }

    /// A fresh actor with the default parameters, no target and empty queue
    /// and ledger.
    pub fn new(actor_id: u64, initial_forcing: u64) -> (a: Self)
        ensures
            a.pending_updates() == Seq::<SubstrateUpdate>::empty(),
            a.alpha_forcing == initial_forcing,
            a.major_radius == DEFAULT_MAJOR_RADIUS,
            a.minor_radius == DEFAULT_MINOR_RADIUS,
            a.internal_target is None,
            a.decision_ledger@ == Seq::<DecisionRecord>::empty(),
            a.max_ledger_size == DEFAULT_MAX_LEDGER_SIZE,
            a.stability_counter == 0,
            a.stability_threshold == DEFAULT_STABILITY_THRESHOLD,
            a.regeneration_amount == DEFAULT_REGENERATION_AMOUNT,
            a.max_compute == DEFAULT_MAX_COMPUTE,
            a.rest_cycles_remaining == 0,
            a.wake_cooldown_ticks == 0,
            a.wake_threshold_distance == DEFAULT_WAKE_THRESHOLD_DISTANCE,
            a.wake_threshold_forcing == DEFAULT_WAKE_THRESHOLD_FORCING,
            a.actor_id == actor_id,
    {
        SovereignEconomicActor {
            update_queue: std::collections::VecDeque::new(),
            alpha_forcing: initial_forcing,
            major_radius: DEFAULT_MAJOR_RADIUS,
            minor_radius: DEFAULT_MINOR_RADIUS,
            internal_target: None,
            decision_ledger: std::collections::VecDeque::with_capacity(DEFAULT_MAX_LEDGER_SIZE),
            max_ledger_size: DEFAULT_MAX_LEDGER_SIZE,
            stability_counter: 0,
            stability_threshold: DEFAULT_STABILITY_THRESHOLD,
            regeneration_amount: DEFAULT_REGENERATION_AMOUNT,
            max_compute: DEFAULT_MAX_COMPUTE,
            rest_cycles_remaining: 0,
            wake_cooldown_ticks: 0,
            wake_threshold_distance: DEFAULT_WAKE_THRESHOLD_DISTANCE,
            wake_threshold_forcing: DEFAULT_WAKE_THRESHOLD_FORCING,
            actor_id,
        }
    }
}


/// What a jiggle step decides when the actor has a target.
#[derive(Clone, Copy, Debug)]
pub struct JigglePlan {
    pub authorized: bool,
    pub status: DecisionStatus,
    pub action: JiggleAction,
    pub stability_counter: usize,
    pub rest_cycles_remaining: usize,
    pub wake_cooldown_ticks: usize,
    /// Bit patterns logged for the step.
    pub initial_distance: u64,
    pub trial_distance: u64,
    pub utility_gain: u64,
}

/// The rules of a jiggle step for an actor that has a target: the wake
/// cooldown ticks down; deep rest drains compute; an exhausted budget
/// refuses; a stagnant step counts towards homeostasis (regeneration, or deep
/// rest at full compute); otherwise the trial move is taken when it improves.
pub open spec fn jiggle_plan(a: SovereignEconomicActor, obs: JiggleObservation) -> JigglePlan {
    let cooldown = if a.wake_cooldown_ticks > 0 {
        (a.wake_cooldown_ticks - 1) as usize
    } else {
        0usize
    };
    let d = obs.current_distance;
    if a.rest_cycles_remaining > 0 {
        JigglePlan {
            authorized: false,
            status: DecisionStatus::DeepStabilityRest,
            action: JiggleAction::DrainCompute,
            stability_counter: a.stability_counter,
            rest_cycles_remaining: (a.rest_cycles_remaining - 1) as usize,
            wake_cooldown_ticks: cooldown,
            initial_distance: ZERO,
            trial_distance: ZERO,
            utility_gain: ZERO,
        }
    } else if obs.exhausted {
        JigglePlan {
            authorized: false,
            status: DecisionStatus::RejectedExhaustion,
            action: JiggleAction::Hold,
            stability_counter: a.stability_counter,
            rest_cycles_remaining: a.rest_cycles_remaining,
            wake_cooldown_ticks: cooldown,
            initial_distance: ZERO,
            trial_distance: ZERO,
            utility_gain: ZERO,
        }
    } else if obs.stagnant && cooldown == 0 {
        let counter = (a.stability_counter + 1) as usize;
        if counter >= a.stability_threshold {
            if obs.at_max_compute {
                JigglePlan {
                    authorized: false,
                    status: DecisionStatus::DeepStabilityRest,
                    action: JiggleAction::Hold,
                    stability_counter: 0,
                    rest_cycles_remaining: DEEP_REST_CYCLES,
                    wake_cooldown_ticks: cooldown,
                    initial_distance: d,
                    trial_distance: d,
                    utility_gain: ZERO,
                }
            } else {
                JigglePlan {
                    authorized: true,
                    status: DecisionStatus::HomeostaticRegen,
                    action: JiggleAction::Regenerate,
                    stability_counter: 0,
                    rest_cycles_remaining: a.rest_cycles_remaining,
                    wake_cooldown_ticks: cooldown,
                    initial_distance: d,
                    trial_distance: d,
                    utility_gain: obs.regen_reward,
                }
            }
        } else {
            JigglePlan {
                authorized: false,
                status: DecisionStatus::RejectedStagnation,
                action: JiggleAction::Hold,
                stability_counter: counter,
                rest_cycles_remaining: a.rest_cycles_remaining,
                wake_cooldown_ticks: cooldown,
                initial_distance: d,
                trial_distance: d,
                utility_gain: ZERO,
            }
        }
    } else {
        JigglePlan {
            authorized: obs.improves,
            status: if obs.improves {
                DecisionStatus::AuthorizedProgress
            } else {
                DecisionStatus::RejectedDivergence
            },
            action: if obs.improves {
                JiggleAction::ApplyTrial
            } else {
                JiggleAction::Hold
            },
            stability_counter: 0,
            rest_cycles_remaining: a.rest_cycles_remaining,
            wake_cooldown_ticks: cooldown,
            initial_distance: d,
            trial_distance: obs.trial_distance,
            utility_gain: obs.utility_gain,
        }
    }
}

/// The record a jiggle step logs.
pub open spec fn plan_record(p: JigglePlan, time: u64) -> DecisionRecord {
    DecisionRecord {
        timestamp: time,
        initial_distance: p.initial_distance,
        trial_distance: p.trial_distance,
        utility_gain: p.utility_gain,
        status: p.status,
    }
}

/// The forcing and the fixed parameters are the same.
pub open spec fn same_parameters(a: SovereignEconomicActor, b: SovereignEconomicActor) -> bool {
    &&& a.alpha_forcing == b.alpha_forcing
    &&& a.major_radius == b.major_radius
    &&& a.minor_radius == b.minor_radius
    &&& a.max_ledger_size == b.max_ledger_size
    &&& a.stability_threshold == b.stability_threshold
    &&& a.regeneration_amount == b.regeneration_amount
    &&& a.max_compute == b.max_compute
    &&& a.wake_threshold_distance == b.wake_threshold_distance
    &&& a.wake_threshold_forcing == b.wake_threshold_forcing
    &&& a.actor_id == b.actor_id
}

/// Everything but the counters and the ledger is the same.
pub open spec fn same_settings(a: SovereignEconomicActor, b: SovereignEconomicActor) -> bool {
    &&& a.update_queue@ == b.update_queue@
    &&& a.internal_target == b.internal_target
    &&& same_parameters(a, b)
}

/// Everything but the update queue is the same.
pub open spec fn same_except_queue(a: SovereignEconomicActor, b: SovereignEconomicActor) -> bool {
    &&& a.decision_ledger@ == b.decision_ledger@
    &&& a.stability_counter == b.stability_counter
    &&& a.rest_cycles_remaining == b.rest_cycles_remaining
    &&& a.wake_cooldown_ticks == b.wake_cooldown_ticks
    &&& a.internal_target == b.internal_target
    &&& same_parameters(a, b)
}

/// Everything but the target and the two rest counters is the same.
pub open spec fn same_except_target(a: SovereignEconomicActor, b: SovereignEconomicActor) -> bool {
    &&& a.update_queue@ == b.update_queue@
    &&& a.alpha_forcing == b.alpha_forcing
    &&& a.major_radius == b.major_radius
    &&& a.minor_radius == b.minor_radius
    &&& a.decision_ledger@ == b.decision_ledger@
    &&& a.max_ledger_size == b.max_ledger_size
    &&& a.stability_counter == b.stability_counter
    &&& a.stability_threshold == b.stability_threshold
    &&& a.regeneration_amount == b.regeneration_amount
    &&& a.max_compute == b.max_compute
    &&& a.wake_threshold_distance == b.wake_threshold_distance
    &&& a.wake_threshold_forcing == b.wake_threshold_forcing
    &&& a.actor_id == b.actor_id
}

impl SovereignEconomicActor {
    /// Sets the target from its (angle-wrapped) coordinates; only the first
    /// two are kept. Ends any rest and wake cooldown.
    pub fn set_target(&mut self, target: Vec<u64>) -> (r: Result<(), &'static str>)
        ensures
            target@.len() < 2 ==> r == Err::<(), &'static str>("Target requires at least 2 coordinates")
                && *final(self) == *old(self),
            target@.len() >= 2 ==> r is Ok,
            r is Ok ==> {
                &&& final(self).internal_target matches Some(t) && t@ == target@.take(2)
                &&& final(self).rest_cycles_remaining == 0
                &&& final(self).wake_cooldown_ticks == 0
                &&& same_except_target(*final(self), *old(self))
            },
    {
        if target.len() < 2 {
            return Err("Target requires at least 2 coordinates");
        }
        let mut kept: Vec<u64> = Vec::new();
        kept.push(target[0]);
        kept.push(target[1]);
        assert(kept@ =~= target@.take(2));
        self.internal_target = Some(kept);
        self.rest_cycles_remaining = 0;
        self.wake_cooldown_ticks = 0;
        Ok(())
    }

    /// Removes the target and ends any rest and wake cooldown.
    pub fn clear_target(&mut self)
        ensures
            final(self).internal_target is None,
            final(self).rest_cycles_remaining == 0,
            final(self).wake_cooldown_ticks == 0,
            same_except_target(*final(self), *old(self)),
    {
        self.internal_target = None;
        self.rest_cycles_remaining = 0;
        self.wake_cooldown_ticks = 0;
    }

    /// Queues an update behind those already waiting.
    pub fn push_update(&mut self, update: SubstrateUpdate)
        ensures
            final(self).pending_updates() == old(self).pending_updates().push(update),
            same_except_queue(*final(self), *old(self)),
    {
        self.update_queue.push_back(update);
    }

    /// Takes every waiting update, oldest first, leaving the queue empty.
    pub fn take_pending_updates(&mut self) -> (taken: Vec<SubstrateUpdate>)
        ensures
            taken@ == old(self).pending_updates(),
            final(self).pending_updates() == Seq::<SubstrateUpdate>::empty(),
            same_except_queue(*final(self), *old(self)),
    {
        let ghost queued = self.update_queue@;
        let mut taken: Vec<SubstrateUpdate> = Vec::new();
        loop
            invariant
                queued == old(self).update_queue@,
                queued == taken@ + self.update_queue@,
                same_except_queue(*self, *old(self)),
            decreases self.update_queue@.len(),
        {
            match self.update_queue.pop_front() {
                Some(u) => {
                    taken.push(u);
                },
                None => {
                    assert(taken@ =~= queued);
                    return taken;
                },
            }
        }
    }

    /// Appends a record to the ledger, first dropping the oldest entry when
    /// the ledger holds `max_ledger_size` or more.
    pub fn log_decision(&mut self, record: DecisionRecord)
        ensures
            final(self).decision_ledger@ == ledger_after_log(
                old(self).decision_ledger@,
                record,
                old(self).max_ledger_size,
            ),
            same_settings(*final(self), *old(self)),
            final(self).stability_counter == old(self).stability_counter,
            final(self).rest_cycles_remaining == old(self).rest_cycles_remaining,
            final(self).wake_cooldown_ticks == old(self).wake_cooldown_ticks,
    {
        broadcast use vstd::std_specs::vecdeque::group_vec_dequeue_axioms;
        if self.decision_ledger.len() >= self.max_ledger_size {
            let _ = self.decision_ledger.pop_front();
        }
        self.decision_ledger.push_back(record);
        assert(self.decision_ledger@ =~= ledger_after_log(
            old(self).decision_ledger@,
            record,
            old(self).max_ledger_size,
        ));
    }
}


/// Whether a jiggle step would count one stable step past `usize::MAX`.
pub open spec fn jiggle_counter_overflows(a: SovereignEconomicActor, obs: JiggleObservation) -> bool {
    &&& a.internal_target is Some
    &&& a.rest_cycles_remaining == 0
    &&& !obs.exhausted
    &&& obs.stagnant
    &&& a.wake_cooldown_ticks <= 1
    &&& a.stability_counter == usize::MAX
}

impl SovereignEconomicActor {
    /// Decides one jiggle step of a state of `state_len` coordinates at
    /// `current_time`, from what the caller measured (`obs`). Updates the
    /// counters, logs the step, and returns whether the step was authorised,
    /// its status and the change the caller makes to the state.
    pub fn execute_intelligent_jiggle(
        &mut self,
        state_len: usize,
        current_time: u64,
        obs: &JiggleObservation,
    ) -> (r: Result<(bool, DecisionStatus, JiggleAction), &'static str>)
        requires
            state_len >= 4 ==> !jiggle_counter_overflows(*old(self), *obs),
        ensures
            state_len < 4 ==> r == Err::<(bool, DecisionStatus, JiggleAction), &'static str>(
                "4D state required",
            ) && *final(self) == *old(self),
            state_len >= 4 && old(self).internal_target is None ==> r == Ok::<
                (bool, DecisionStatus, JiggleAction),
                &'static str,
            >((false, DecisionStatus::RejectedStagnation, JiggleAction::Hold)) && *final(self)
                == *old(self),
            state_len >= 4 && old(self).internal_target is Some ==> {
                let p = jiggle_plan(*old(self), *obs);
                &&& r == Ok::<(bool, DecisionStatus, JiggleAction), &'static str>(
                    (p.authorized, p.status, p.action),
                )
                &&& final(self).stability_counter == p.stability_counter
                &&& final(self).rest_cycles_remaining == p.rest_cycles_remaining
                &&& final(self).wake_cooldown_ticks == p.wake_cooldown_ticks
                &&& final(self).decision_ledger@ == ledger_after_log(
                    old(self).decision_ledger@,
                    plan_record(p, current_time),
                    old(self).max_ledger_size,
                )
                &&& same_settings(*final(self), *old(self))
            },
    {
        if state_len < 4 {
            return Err("4D state required");
        }
        if self.internal_target.is_none() {
            return Ok((false, DecisionStatus::RejectedStagnation, JiggleAction::Hold));
        }
        if self.wake_cooldown_ticks > 0 {
            self.wake_cooldown_ticks = self.wake_cooldown_ticks - 1;
        }
        let d = obs.current_distance;
        if self.rest_cycles_remaining > 0 {
            self.rest_cycles_remaining = self.rest_cycles_remaining - 1;
            self.log_decision(
                DecisionRecord {
                    timestamp: current_time,
                    initial_distance: ZERO,
                    trial_distance: ZERO,
                    utility_gain: ZERO,
                    status: DecisionStatus::DeepStabilityRest,
                },
            );
            return Ok((false, DecisionStatus::DeepStabilityRest, JiggleAction::DrainCompute));
        }
        if obs.exhausted {
            self.log_decision(
                DecisionRecord {
                    timestamp: current_time,
                    initial_distance: ZERO,
                    trial_distance: ZERO,
                    utility_gain: ZERO,
                    status: DecisionStatus::RejectedExhaustion,
                },
            );
            return Ok((false, DecisionStatus::RejectedExhaustion, JiggleAction::Hold));
        }
        if obs.stagnant && self.wake_cooldown_ticks == 0 {
            self.stability_counter = self.stability_counter + 1;
            if self.stability_counter >= self.stability_threshold {
                self.stability_counter = 0;
                if obs.at_max_compute {
                    self.rest_cycles_remaining = DEEP_REST_CYCLES;
                    self.log_decision(
                        DecisionRecord {
                            timestamp: current_time,
                            initial_distance: d,
                            trial_distance: d,
                            utility_gain: ZERO,
                            status: DecisionStatus::DeepStabilityRest,
                        },
                    );
                    return Ok((false, DecisionStatus::DeepStabilityRest, JiggleAction::Hold));
                }
                self.log_decision(
                    DecisionRecord {
                        timestamp: current_time,
                        initial_distance: d,
                        trial_distance: d,
                        utility_gain: obs.regen_reward,
                        status: DecisionStatus::HomeostaticRegen,
                    },
                );
                return Ok((true, DecisionStatus::HomeostaticRegen, JiggleAction::Regenerate));
            }
            self.log_decision(
                DecisionRecord {
                    timestamp: current_time,
                    initial_distance: d,
                    trial_distance: d,
                    utility_gain: ZERO,
                    status: DecisionStatus::RejectedStagnation,
                },
            );
            return Ok((false, DecisionStatus::RejectedStagnation, JiggleAction::Hold));
        } else {
            self.stability_counter = 0;
        }
        let authorized = obs.improves;
        let status = if authorized {
            DecisionStatus::AuthorizedProgress
        } else {
            DecisionStatus::RejectedDivergence
        };
        let action = if authorized {
            JiggleAction::ApplyTrial
        } else {
            JiggleAction::Hold
        };
        self.log_decision(
            DecisionRecord {
                timestamp: current_time,
                initial_distance: d,
                trial_distance: obs.trial_distance,
                utility_gain: obs.utility_gain,
                status,
            },
        );
        Ok((authorized, status, action))
    }

    /// After a step of an autonomous session: whether it has settled, that
    /// is the step size has fallen below its floor (`delta_below_floor`, the
    /// caller's comparison with 1e-6), no stable steps are being counted,
    /// the step was not a regeneration and no rest is under way.
    pub fn session_settled(&self, delta_below_floor: bool, status: DecisionStatus) -> (b: bool)
        ensures
            b == (delta_below_floor && self.stability_counter == 0 && status
                != DecisionStatus::HomeostaticRegen && self.rest_cycles_remaining == 0),
    {
        delta_below_floor && self.stability_counter == 0 && status
            != DecisionStatus::HomeostaticRegen && self.rest_cycles_remaining == 0
    }
}

/// The pacing of an autonomous session after a step with `status`, given the
/// number of divergent steps seen since the last progress or halving (0 or
/// 1): exhaustion stops the session; progress resets the count; a second
/// divergence in a row halves the step size and resets the count.
pub fn session_directive(consecutive_rejections: usize, status: DecisionStatus) -> (r: (
    usize,
    SessionDirective,
))
    requires
        consecutive_rejections <= 1,
    ensures
        r.0 <= 1,
        status == DecisionStatus::AuthorizedProgress ==> r == (0usize, SessionDirective::Continue),
        status == DecisionStatus::RejectedDivergence && consecutive_rejections == 0 ==> r == (
            1usize,
            SessionDirective::Continue,
        ),
        status == DecisionStatus::RejectedDivergence && consecutive_rejections == 1 ==> r == (
            0usize,
            SessionDirective::HalveDelta,
        ),
        status == DecisionStatus::RejectedExhaustion ==> r == (
            consecutive_rejections,
            SessionDirective::Stop,
        ),
        status != DecisionStatus::AuthorizedProgress && status != DecisionStatus::RejectedDivergence
            && status != DecisionStatus::RejectedExhaustion ==> r == (
            consecutive_rejections,
            SessionDirective::Continue,
        ),
{
    match status {
        DecisionStatus::AuthorizedProgress => (0, SessionDirective::Continue),
        DecisionStatus::RejectedDivergence => {
            let count = consecutive_rejections + 1;
            if count >= 2 {
                (0, SessionDirective::HalveDelta)
            } else {
                (count, SessionDirective::Continue)
            }
        },
        DecisionStatus::RejectedExhaustion => (consecutive_rejections, SessionDirective::Stop),
        _ => (consecutive_rejections, SessionDirective::Continue),
    }
}


/// The stable-step count is at rest (zero) or still below the threshold.
pub open spec fn stability_count_in_range(counter: usize, threshold: usize) -> bool {
    counter == 0 || counter < threshold
}

/// A jiggle step keeps the stable-step count at zero or below the threshold,
/// and from such a count the step never counts past `usize::MAX`.
pub proof fn lemma_jiggle_keeps_stability_count_in_range(
    a: SovereignEconomicActor,
    obs: JiggleObservation,
)
    requires
        stability_count_in_range(a.stability_counter, a.stability_threshold),
    ensures
        !jiggle_counter_overflows(a, obs),
        stability_count_in_range(jiggle_plan(a, obs).stability_counter, a.stability_threshold),
{
}

/// A step is authorised exactly when it changes the state: by regenerating
/// compute or by taking the trial move.
pub proof fn lemma_authorized_exactly_when_state_advances(
    a: SovereignEconomicActor,
    obs: JiggleObservation,
)
    ensures
        jiggle_plan(a, obs).authorized <==> (jiggle_plan(a, obs).action == JiggleAction::Regenerate
            || jiggle_plan(a, obs).action == JiggleAction::ApplyTrial),
{
}

/// Logging keeps a ledger within a capacity of at least one entry; a full
/// ledger loses its oldest entry and gains the new one at the end.
pub proof fn lemma_ledger_stays_within_capacity(
    ledger: Seq<DecisionRecord>,
    rec: DecisionRecord,
    max: usize,
)
    requires
        max >= 1,
        ledger.len() <= max,
    ensures
        ledger_after_log(ledger, rec, max).len() <= max,
        ledger_after_log(ledger, rec, max).last() == rec,
        ledger.len() == max ==> ledger_after_log(ledger, rec, max) == ledger.drop_first().push(
            rec,
        ),
{
}


/// A jiggle step keeps a ledger of capacity at least one within its
/// capacity: it gains the step's record at the back, and loses its oldest
/// record when it was full.
pub proof fn lemma_jiggle_keeps_ledger_within_capacity(
    a: SovereignEconomicActor,
    obs: JiggleObservation,
    time: u64,
)
    requires
        a.max_ledger_size >= 1,
        a.decision_ledger@.len() <= a.max_ledger_size,
    ensures
        ({
            let after = ledger_after_log(
                a.decision_ledger@,
                plan_record(jiggle_plan(a, obs), time),
                a.max_ledger_size,
            );
            &&& after.len() <= a.max_ledger_size
            &&& after.last() == plan_record(jiggle_plan(a, obs), time)
            &&& a.decision_ledger@.len() < a.max_ledger_size ==> after.drop_last()
                == a.decision_ledger@
            &&& a.decision_ledger@.len() == a.max_ledger_size ==> after.drop_last()
                == a.decision_ledger@.drop_first()
        }),
{
    let rec = plan_record(jiggle_plan(a, obs), time);
    lemma_ledger_stays_within_capacity(a.decision_ledger@, rec, a.max_ledger_size);
    assert(ledger_after_log(a.decision_ledger@, rec, a.max_ledger_size).drop_last()
        =~= if a.decision_ledger@.len() == a.max_ledger_size {
        a.decision_ledger@.drop_first()
    } else {
        a.decision_ledger@
    });
}


/// Every jiggle step ticks the wake cooldown down by one, not below zero.
pub proof fn lemma_jiggle_ticks_cooldown(a: SovereignEconomicActor, obs: JiggleObservation)
    ensures
        a.wake_cooldown_ticks > 0 ==> jiggle_plan(a, obs).wake_cooldown_ticks
            == a.wake_cooldown_ticks - 1,
        a.wake_cooldown_ticks == 0 ==> jiggle_plan(a, obs).wake_cooldown_ticks == 0,
{
}

/// During deep rest a step only drains compute: it is refused as rest, one
/// rest cycle passes, the stable-step count is kept, and nothing is measured.
pub proof fn lemma_resting_step_drains(a: SovereignEconomicActor, obs: JiggleObservation)
    requires
        a.rest_cycles_remaining > 0,
    ensures
        ({
            let p = jiggle_plan(a, obs);
            &&& !p.authorized
            &&& p.status == DecisionStatus::DeepStabilityRest
            &&& p.action == JiggleAction::DrainCompute
            &&& p.rest_cycles_remaining == a.rest_cycles_remaining - 1
            &&& p.stability_counter == a.stability_counter
            &&& p.initial_distance == ZERO && p.trial_distance == ZERO && p.utility_gain == ZERO
        }),
{
}

/// Out of rest, an exhausted budget refuses the step and changes nothing
/// but the cooldown.
pub proof fn lemma_exhausted_step_refused(a: SovereignEconomicActor, obs: JiggleObservation)
    requires
        a.rest_cycles_remaining == 0,
        obs.exhausted,
    ensures
        ({
            let p = jiggle_plan(a, obs);
            &&& !p.authorized
            &&& p.status == DecisionStatus::RejectedExhaustion
            &&& p.action == JiggleAction::Hold
            &&& p.rest_cycles_remaining == 0
            &&& p.stability_counter == a.stability_counter
            &&& p.initial_distance == ZERO && p.trial_distance == ZERO && p.utility_gain == ZERO
        }),
{
}

/// A stable step (stagnant, with no cooldown left) that does not yet reach
/// the threshold is counted and refused as stagnation, whatever the compute
/// level: the count grows by one and no rest begins.
pub proof fn lemma_stable_step_below_threshold_counts(
    a: SovereignEconomicActor,
    obs: JiggleObservation,
)
    requires
        a.rest_cycles_remaining == 0,
        !obs.exhausted,
        obs.stagnant,
        a.wake_cooldown_ticks <= 1,
        a.stability_counter + 1 < a.stability_threshold,
    ensures
        ({
            let p = jiggle_plan(a, obs);
            &&& !p.authorized
            &&& p.status == DecisionStatus::RejectedStagnation
            &&& p.action == JiggleAction::Hold
            &&& p.stability_counter == a.stability_counter + 1
            &&& p.rest_cycles_remaining == 0
            &&& p.initial_distance == obs.current_distance
            &&& p.trial_distance == obs.current_distance
            &&& p.utility_gain == ZERO
        }),
{
}

/// A stable step that reaches the threshold resets the count and acts: at
/// full compute it enters ten cycles of deep rest, otherwise it regenerates
/// compute by the reward.
pub proof fn lemma_stable_step_at_threshold_acts(a: SovereignEconomicActor, obs: JiggleObservation)
    requires
        a.rest_cycles_remaining == 0,
        !obs.exhausted,
        obs.stagnant,
        a.wake_cooldown_ticks <= 1,
        a.stability_counter + 1 >= a.stability_threshold,
        a.stability_counter < usize::MAX,
    ensures
        ({
            let p = jiggle_plan(a, obs);
            &&& p.stability_counter == 0
            &&& p.initial_distance == obs.current_distance
            &&& p.trial_distance == obs.current_distance
            &&& obs.at_max_compute ==> {
                &&& !p.authorized
                &&& p.status == DecisionStatus::DeepStabilityRest
                &&& p.action == JiggleAction::Hold
                &&& p.rest_cycles_remaining == 10
                &&& p.utility_gain == ZERO
            }
            &&& !obs.at_max_compute ==> {
                &&& p.authorized
                &&& p.status == DecisionStatus::HomeostaticRegen
                &&& p.action == JiggleAction::Regenerate
                &&& p.rest_cycles_remaining == 0
                &&& p.utility_gain == obs.regen_reward
            }
        }),
{
}

/// Every step that reaches the trial move (out of rest, not exhausted, and
/// not a counted stable step) resets the stable-step count, whether the
/// trial improves or diverges, and takes the move exactly when it improves.
pub proof fn lemma_trial_step_resets_count(a: SovereignEconomicActor, obs: JiggleObservation)
    requires
        a.rest_cycles_remaining == 0,
        !obs.exhausted,
        !(obs.stagnant && a.wake_cooldown_ticks <= 1),
    ensures
        ({
            let p = jiggle_plan(a, obs);
            &&& p.stability_counter == 0
            &&& p.rest_cycles_remaining == 0
            &&& p.authorized == obs.improves
            &&& obs.improves ==> p.status == DecisionStatus::AuthorizedProgress && p.action
                == JiggleAction::ApplyTrial
            &&& !obs.improves ==> p.status == DecisionStatus::RejectedDivergence && p.action
                == JiggleAction::Hold
            &&& p.initial_distance == obs.current_distance
            &&& p.trial_distance == obs.trial_distance
            &&& p.utility_gain == obs.utility_gain
        }),
{
}

/// The stable-step count only grows by one on a counted stable step and is
/// otherwise kept (rest, exhaustion) or reset; so homeostatic action needs
/// `stability_threshold` consecutive stable steps, and regeneration happens
/// only below full compute.
pub proof fn lemma_stable_count_tracks_consecutive_steps(
    a: SovereignEconomicActor,
    obs: JiggleObservation,
)
    requires
        a.stability_counter < usize::MAX,
    ensures
        ({
            let p = jiggle_plan(a, obs);
            &&& p.stability_counter == 0 || p.stability_counter == a.stability_counter || p.stability_counter
                == a.stability_counter + 1
            &&& p.stability_counter == a.stability_counter + 1 ==> {
                &&& a.rest_cycles_remaining == 0
                &&& !obs.exhausted
                &&& obs.stagnant
                &&& a.wake_cooldown_ticks <= 1
            }
            &&& p.stability_counter == a.stability_counter && a.stability_counter > 0 ==> (
            a.rest_cycles_remaining > 0 || obs.exhausted)
            &&& p.status == DecisionStatus::HomeostaticRegen ==> {
                &&& a.rest_cycles_remaining == 0
                &&& !obs.exhausted
                &&& obs.stagnant
                &&& !obs.at_max_compute
                &&& a.stability_counter + 1 >= a.stability_threshold
            }
        }),
{
}

/// A logged entry is appended at the back: below capacity nothing leaves;
/// at or over capacity the oldest entry leaves first.
pub proof fn lemma_ledger_after_log_meaning(
    ledger: Seq<DecisionRecord>,
    rec: DecisionRecord,
    max: usize,
)
    ensures
        ledger.len() < max ==> ledger_after_log(ledger, rec, max) == ledger.push(rec),
        ledger.len() >= max && ledger.len() > 0 ==> ledger_after_log(ledger, rec, max)
            == ledger.subrange(1, ledger.len() as int).push(rec),
        ledger.len() == 0 ==> ledger_after_log(ledger, rec, max) == seq![rec],
{
    assert(ledger.drop_first() =~= ledger.subrange(1, ledger.len() as int));
    if ledger.len() == 0 {
        assert(ledger.push(rec) =~= seq![rec]);
    }
}

/// Each status has its own code, 0 to 5 in declaration order.
pub proof fn lemma_status_codes(s: DecisionStatus, t: DecisionStatus)
    ensures
        status_code(s) < 6,
        status_code(s) == status_code(t) ==> s == t,
        status_code(DecisionStatus::AuthorizedProgress) == 0,
        status_code(DecisionStatus::RejectedDivergence) == 1,
        status_code(DecisionStatus::RejectedStagnation) == 2,
        status_code(DecisionStatus::RejectedExhaustion) == 3,
        status_code(DecisionStatus::HomeostaticRegen) == 4,
        status_code(DecisionStatus::DeepStabilityRest) == 5,
{
}


/// What the "same" relations between two actors keep: the forcing, the
/// torus radii, the ledger capacity, the homeostasis and wake parameters
/// and the actor's identity; `same_settings` also the queue and target,
/// `same_except_queue` also the ledger, target and counters.
pub proof fn lemma_same_relations_keep_fields(a: SovereignEconomicActor, b: SovereignEconomicActor)
    ensures
        same_parameters(a, b) ==> {
            &&& a.alpha_forcing == b.alpha_forcing
            &&& a.major_radius == b.major_radius
            &&& a.minor_radius == b.minor_radius
            &&& a.max_ledger_size == b.max_ledger_size
            &&& a.stability_threshold == b.stability_threshold
            &&& a.regeneration_amount == b.regeneration_amount
            &&& a.max_compute == b.max_compute
            &&& a.wake_threshold_distance == b.wake_threshold_distance
            &&& a.wake_threshold_forcing == b.wake_threshold_forcing
            &&& a.actor_id == b.actor_id
        },
        same_settings(a, b) ==> same_parameters(a, b) && a.update_queue@ == b.update_queue@
            && a.internal_target == b.internal_target,
        same_except_queue(a, b) ==> {
            &&& same_parameters(a, b)
            &&& a.decision_ledger@ == b.decision_ledger@
            &&& a.stability_counter == b.stability_counter
            &&& a.rest_cycles_remaining == b.rest_cycles_remaining
            &&& a.wake_cooldown_ticks == b.wake_cooldown_ticks
            &&& a.internal_target == b.internal_target
        },
{
}

} // verus!
