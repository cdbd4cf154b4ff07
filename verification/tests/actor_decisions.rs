use tordial_gs_manifold::actor::{
    session_directive, DecisionRecord, DecisionStatus, JiggleAction, JiggleObservation,
    SessionDirective, SovereignEconomicActor, SubstrateUpdate, DEEP_REST_CYCLES,
};
use tordial_gs_manifold::combiner::NonAssociativeCombiner;

fn bits(x: f64) -> u64 {
    x.to_bits()
}

fn obs(exhausted: bool, stagnant: bool, at_max: bool, improves: bool) -> JiggleObservation {
    JiggleObservation {
        exhausted,
        stagnant,
        at_max_compute: at_max,
        improves,
        current_distance: bits(0.5),
        trial_distance: bits(0.4),
        utility_gain: bits(0.1),
        regen_reward: bits(0.04),
    }
}

fn targeted() -> SovereignEconomicActor {
    let mut a = SovereignEconomicActor::new(9, bits(0.3));
    a.set_target(vec![bits(1.0), bits(-1.0), bits(5.0)]).unwrap();
    a
}

#[test]
fn new_actor_defaults() {
    let a = SovereignEconomicActor::new(42, bits(0.7));
    assert_eq!(a.actor_id, 42);
    assert_eq!(f64::from_bits(a.alpha_forcing), 0.7);
    assert_eq!(f64::from_bits(a.major_radius), 2.0);
    assert_eq!(f64::from_bits(a.minor_radius), 0.5);
    assert_eq!(f64::from_bits(a.regeneration_amount), 0.04);
    assert_eq!(f64::from_bits(a.max_compute), 1.0);
    assert_eq!(f64::from_bits(a.wake_threshold_distance), 0.005);
    assert_eq!(f64::from_bits(a.wake_threshold_forcing), 0.05);
    assert_eq!(a.max_ledger_size, 500);
    assert_eq!(a.stability_threshold, 3);
    assert_eq!(a.stability_counter, 0);
    assert_eq!(a.rest_cycles_remaining, 0);
    assert_eq!(a.wake_cooldown_ticks, 0);
    assert!(a.internal_target.is_none());
    assert!(a.decision_ledger.is_empty());
    assert!(a.update_queue.is_empty());
}

#[test]
fn status_codes_follow_declaration_order() {
    assert_eq!(DecisionStatus::AuthorizedProgress.code(), 0);
    assert_eq!(DecisionStatus::RejectedDivergence.code(), 1);
    assert_eq!(DecisionStatus::RejectedStagnation.code(), 2);
    assert_eq!(DecisionStatus::RejectedExhaustion.code(), 3);
    assert_eq!(DecisionStatus::HomeostaticRegen.code(), 4);
    assert_eq!(DecisionStatus::DeepStabilityRest.code(), 5);
}

#[test]
fn set_target_needs_two_coordinates() {
    let mut a = SovereignEconomicActor::new(1, 0);
    assert_eq!(a.set_target(vec![bits(1.0)]), Err("Target requires at least 2 coordinates"));
    assert!(a.internal_target.is_none());
    a.rest_cycles_remaining = 4;
    a.wake_cooldown_ticks = 2;
    assert_eq!(a.set_target(vec![bits(0.1), bits(0.2), bits(0.3)]), Ok(()));
    assert_eq!(a.internal_target, Some(vec![bits(0.1), bits(0.2)]));
    assert_eq!(a.rest_cycles_remaining, 0);
    assert_eq!(a.wake_cooldown_ticks, 0);
}

#[test]
fn clear_target_ends_rest() {
    let mut a = targeted();
    a.rest_cycles_remaining = 3;
    a.wake_cooldown_ticks = 1;
    a.clear_target();
    assert!(a.internal_target.is_none());
    assert_eq!(a.rest_cycles_remaining, 0);
    assert_eq!(a.wake_cooldown_ticks, 0);
}

#[test]
fn jiggle_refuses_short_state() {
    let mut a = targeted();
    assert_eq!(a.execute_intelligent_jiggle(3, 0, &obs(false, false, false, true)), Err("4D state required"));
    assert!(a.decision_ledger.is_empty());
}

#[test]
fn jiggle_without_target_is_stagnation_without_record() {
    let mut a = SovereignEconomicActor::new(1, 0);
    a.wake_cooldown_ticks = 2;
    let r = a.execute_intelligent_jiggle(4, 5, &obs(false, false, false, true));
    assert_eq!(r, Ok((false, DecisionStatus::RejectedStagnation, JiggleAction::Hold)));
    assert!(a.decision_ledger.is_empty());
    assert_eq!(a.wake_cooldown_ticks, 2);
}

#[test]
fn jiggle_in_rest_drains_compute() {
    let mut a = targeted();
    a.rest_cycles_remaining = 2;
    a.wake_cooldown_ticks = 1;
    let r = a.execute_intelligent_jiggle(4, 10, &obs(false, true, true, true));
    assert_eq!(r, Ok((false, DecisionStatus::DeepStabilityRest, JiggleAction::DrainCompute)));
    assert_eq!(a.rest_cycles_remaining, 1);
    assert_eq!(a.wake_cooldown_ticks, 0);
    let rec = a.decision_ledger.back().unwrap();
    assert_eq!(rec.timestamp, 10);
    assert_eq!(rec.initial_distance, 0);
    assert_eq!(rec.status, DecisionStatus::DeepStabilityRest);
}

#[test]
fn jiggle_exhausted_refuses() {
    let mut a = targeted();
    let r = a.execute_intelligent_jiggle(4, 1, &obs(true, true, false, true));
    assert_eq!(r, Ok((false, DecisionStatus::RejectedExhaustion, JiggleAction::Hold)));
    assert_eq!(a.decision_ledger.back().unwrap().status, DecisionStatus::RejectedExhaustion);
    assert_eq!(a.stability_counter, 0);
}

#[test]
fn jiggle_stagnation_counts_then_regenerates() {
    let mut a = targeted();
    let o = obs(false, true, false, false);
    assert_eq!(a.execute_intelligent_jiggle(4, 1, &o), Ok((false, DecisionStatus::RejectedStagnation, JiggleAction::Hold)));
    assert_eq!(a.stability_counter, 1);
    assert_eq!(a.execute_intelligent_jiggle(4, 2, &o), Ok((false, DecisionStatus::RejectedStagnation, JiggleAction::Hold)));
    assert_eq!(a.stability_counter, 2);
    assert_eq!(a.execute_intelligent_jiggle(4, 3, &o), Ok((true, DecisionStatus::HomeostaticRegen, JiggleAction::Regenerate)));
    assert_eq!(a.stability_counter, 0);
    let rec = a.decision_ledger.back().unwrap();
    assert_eq!(f64::from_bits(rec.utility_gain), 0.04);
    assert_eq!(f64::from_bits(rec.trial_distance), 0.5);
    assert_eq!(a.decision_ledger.len(), 3);
}

#[test]
fn jiggle_stable_at_full_compute_enters_deep_rest() {
    let mut a = targeted();
    a.stability_counter = 2;
    let r = a.execute_intelligent_jiggle(4, 1, &obs(false, true, true, false));
    assert_eq!(r, Ok((false, DecisionStatus::DeepStabilityRest, JiggleAction::Hold)));
    assert_eq!(a.rest_cycles_remaining, DEEP_REST_CYCLES);
    assert_eq!(a.rest_cycles_remaining, 10);
    assert_eq!(a.stability_counter, 0);
}

#[test]
fn jiggle_cooldown_blocks_stagnation_count() {
    let mut a = targeted();
    a.wake_cooldown_ticks = 2;
    a.stability_counter = 1;
    let r = a.execute_intelligent_jiggle(4, 1, &obs(false, true, false, true));
    assert_eq!(r, Ok((true, DecisionStatus::AuthorizedProgress, JiggleAction::ApplyTrial)));
    assert_eq!(a.wake_cooldown_ticks, 1);
    assert_eq!(a.stability_counter, 0);
}

#[test]
fn jiggle_moves_or_diverges() {
    let mut a = targeted();
    let r = a.execute_intelligent_jiggle(4, 1, &obs(false, false, false, true));
    assert_eq!(r, Ok((true, DecisionStatus::AuthorizedProgress, JiggleAction::ApplyTrial)));
    let r = a.execute_intelligent_jiggle(4, 2, &obs(false, false, false, false));
    assert_eq!(r, Ok((false, DecisionStatus::RejectedDivergence, JiggleAction::Hold)));
    let rec = a.decision_ledger.back().unwrap();
    assert_eq!(f64::from_bits(rec.initial_distance), 0.5);
    assert_eq!(f64::from_bits(rec.trial_distance), 0.4);
    assert_eq!(f64::from_bits(rec.utility_gain), 0.1);
}

#[test]
fn ledger_drops_oldest_when_full() {
    let mut a = SovereignEconomicActor::new(1, 0);
    a.max_ledger_size = 2;
    for t in 0..5u64 {
        a.log_decision(DecisionRecord {
            timestamp: t,
            initial_distance: 0,
            trial_distance: 0,
            utility_gain: 0,
            status: DecisionStatus::RejectedDivergence,
        });
        assert!(a.decision_ledger.len() <= 2);
    }
    let ts: Vec<u64> = a.decision_ledger.iter().map(|r| r.timestamp).collect();
    assert_eq!(ts, vec![3, 4]);
}

#[test]
fn ledger_capacity_zero_keeps_one() {
    let mut a = SovereignEconomicActor::new(1, 0);
    a.max_ledger_size = 0;
    for t in 0..3u64 {
        a.log_decision(DecisionRecord {
            timestamp: t,
            initial_distance: 0,
            trial_distance: 0,
            utility_gain: 0,
            status: DecisionStatus::RejectedDivergence,
        });
    }
    assert_eq!(a.decision_ledger.len(), 1);
    assert_eq!(a.decision_ledger[0].timestamp, 2);
}

#[test]
fn session_directive_halves_after_two_divergences() {
    let (c, d) = session_directive(0, DecisionStatus::RejectedDivergence);
    assert_eq!((c, d), (1, SessionDirective::Continue));
    let (c, d) = session_directive(c, DecisionStatus::RejectedDivergence);
    assert_eq!((c, d), (0, SessionDirective::HalveDelta));
    assert_eq!(session_directive(1, DecisionStatus::AuthorizedProgress), (0, SessionDirective::Continue));
    assert_eq!(session_directive(1, DecisionStatus::RejectedExhaustion), (1, SessionDirective::Stop));
    assert_eq!(session_directive(1, DecisionStatus::RejectedStagnation), (1, SessionDirective::Continue));
    assert_eq!(session_directive(0, DecisionStatus::HomeostaticRegen), (0, SessionDirective::Continue));
}

#[test]
fn session_settles_only_when_idle() {
    let mut a = targeted();
    assert!(a.session_settled(true, DecisionStatus::RejectedDivergence));
    assert!(!a.session_settled(false, DecisionStatus::RejectedDivergence));
    assert!(!a.session_settled(true, DecisionStatus::HomeostaticRegen));
    a.stability_counter = 1;
    assert!(!a.session_settled(true, DecisionStatus::RejectedStagnation));
    a.stability_counter = 0;
    a.rest_cycles_remaining = 1;
    assert!(!a.session_settled(true, DecisionStatus::DeepStabilityRest));
}

#[test]
fn updates_come_out_in_arrival_order() {
    let mut a = SovereignEconomicActor::new(1, 0);
    a.push_update(SubstrateUpdate::ManifoldTick { timestamp: 1, velocity_vector: vec![bits(0.1)] });
    a.push_update(SubstrateUpdate::SoilLiquidity { liquidity_coefficient: bits(0.2), saturation_delta: bits(0.3) });
    a.push_update(SubstrateUpdate::ManifoldTick { timestamp: 3, velocity_vector: vec![] });
    let taken = a.take_pending_updates();
    assert_eq!(taken.len(), 3);
    assert!(matches!(taken[0], SubstrateUpdate::ManifoldTick { timestamp: 1, .. }));
    assert!(matches!(taken[1], SubstrateUpdate::SoilLiquidity { .. }));
    assert!(matches!(taken[2], SubstrateUpdate::ManifoldTick { timestamp: 3, .. }));
    assert!(a.take_pending_updates().is_empty());
}

#[test]
fn combiner_queue_is_fifo() {
    let mut c = NonAssociativeCombiner::new(bits(1.5));
    assert!(c.take_pending_updates().is_empty());
    c.push_update(SubstrateUpdate::ManifoldTick { timestamp: 7, velocity_vector: vec![] });
    c.push_update(SubstrateUpdate::ManifoldTick { timestamp: 8, velocity_vector: vec![] });
    let taken = c.take_pending_updates();
    assert!(matches!(taken[0], SubstrateUpdate::ManifoldTick { timestamp: 7, .. }));
    assert!(matches!(taken[1], SubstrateUpdate::ManifoldTick { timestamp: 8, .. }));
    assert_eq!(f64::from_bits(c.alpha_forcing), 1.5);
    assert!(c.update_queue.is_empty());
}

#[test]
fn lowered_threshold_resets_count_on_next_stable_step() {
    let mut a = targeted();
    a.stability_counter = 5;
    a.stability_threshold = 3;
    let r = a.execute_intelligent_jiggle(4, 1, &obs(false, true, false, false));
    assert_eq!(r, Ok((true, DecisionStatus::HomeostaticRegen, JiggleAction::Regenerate)));
    assert_eq!(a.stability_counter, 0);
}

#[test]
fn threshold_zero_regenerates_every_stable_step() {
    let mut a = targeted();
    a.stability_threshold = 0;
    for t in 0..3u64 {
        let r = a.execute_intelligent_jiggle(4, t, &obs(false, true, false, false));
        assert_eq!(r, Ok((true, DecisionStatus::HomeostaticRegen, JiggleAction::Regenerate)));
        assert_eq!(a.stability_counter, 0);
    }
}

#[test]
fn queue_operations_keep_parameters() {
    let mut a = targeted();
    a.max_ledger_size = 7;
    a.push_update(SubstrateUpdate::SoilLiquidity { liquidity_coefficient: 0, saturation_delta: 0 });
    let _ = a.take_pending_updates();
    assert_eq!(a.actor_id, 9);
    assert_eq!(a.max_ledger_size, 7);
    assert_eq!(f64::from_bits(a.major_radius), 2.0);
    assert_eq!(a.stability_threshold, 3);
}
