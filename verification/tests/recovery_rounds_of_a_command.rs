//! How a command goes from one round of repairs to the next.
use buck2_re_recovery::calculation::BuildKey;
use buck2_re_recovery::cas_missing_recovery::{
    ActionKey, CasMissingRecoveryConfig, CasMissingRecoveryRegistry, CasRecoveryBatch,
};
use buck2_re_recovery::recovery_rounds::{
    next_cas_recovery_step, CasRecoveryRoundResult, CasRecoveryRounds, CasRecoveryStep,
    RoundOutcome,
};

/// A round that failed with one action armed, none of it staged yet, and budget to spare.
fn repairable_round() -> CasRecoveryRoundResult {
    CasRecoveryRoundResult {
        build_failed: true,
        recovery_enabled: true,
        anything_armed: true,
        repaired_nothing: false,
        armed_beyond_staged: true,
        rounds_left: 1,
    }
}

fn action_key(id: u32) -> ActionKey {
    ActionKey {
        parent: "cell//pkg:foo".to_owned(),
        id,
    }
}

fn config(max_rounds: u32) -> CasMissingRecoveryConfig {
    CasMissingRecoveryConfig {
        max_action_attempts: 2,
        max_rounds,
    }
}

fn changed(_keys: Vec<BuildKey>) -> Result<(), String> {
    Ok(())
}

fn message_of(outcome: &RoundOutcome) -> Option<&str> {
    match outcome {
        RoundOutcome::Finish { parting_message } => parting_message.as_deref(),
        RoundOutcome::Rebuild { message } => Some(message),
    }
}

#[test]
fn a_repairable_round_stages_another() {
    assert_eq!(
        next_cas_recovery_step(repairable_round()),
        CasRecoveryStep::StageAnotherRound
    );
}

#[test]
fn a_build_that_succeeded_finishes() {
    assert_eq!(
        next_cas_recovery_step(CasRecoveryRoundResult {
            build_failed: false,
            ..repairable_round()
        }),
        CasRecoveryStep::Finish
    );
}

#[test]
fn a_build_with_recovery_disabled_finishes() {
    assert_eq!(
        next_cas_recovery_step(CasRecoveryRoundResult {
            recovery_enabled: false,
            ..repairable_round()
        }),
        CasRecoveryStep::Finish
    );
}

#[test]
fn a_quiet_registry_finishes() {
    assert_eq!(
        next_cas_recovery_step(CasRecoveryRoundResult {
            anything_armed: false,
            ..repairable_round()
        }),
        CasRecoveryStep::Finish
    );
}

#[test]
fn a_round_that_repaired_nothing_new_finishes() {
    assert_eq!(
        next_cas_recovery_step(CasRecoveryRoundResult {
            repaired_nothing: true,
            armed_beyond_staged: false,
            ..repairable_round()
        }),
        CasRecoveryStep::Finish
    );
}

#[test]
fn a_round_that_repaired_nothing_still_stages_for_a_newly_armed_action() {
    assert_eq!(
        next_cas_recovery_step(CasRecoveryRoundResult {
            repaired_nothing: true,
            armed_beyond_staged: true,
            ..repairable_round()
        }),
        CasRecoveryStep::StageAnotherRound
    );
}

#[test]
fn a_spent_budget_is_reported_rather_than_staged() {
    assert_eq!(
        next_cas_recovery_step(CasRecoveryRoundResult {
            rounds_left: 0,
            ..repairable_round()
        }),
        CasRecoveryStep::ReportBudgetSpent
    );
}

#[test]
fn a_spent_budget_on_a_failure_recovery_cannot_act_on_stays_silent() {
    assert_eq!(
        next_cas_recovery_step(CasRecoveryRoundResult {
            anything_armed: false,
            rounds_left: 0,
            ..repairable_round()
        }),
        CasRecoveryStep::Finish
    );
}

#[test]
fn a_cascade_is_worked_through_layer_by_layer() {
    let mut registry = CasMissingRecoveryRegistry::new();
    let mut batch = CasRecoveryBatch::empty();
    let mut rounds = CasRecoveryRounds::new(config(5), true, &batch);

    registry.record_missing(action_key(0));
    let outcome = rounds.after_round(true, &registry, &mut batch, changed);
    assert_eq!(
        message_of(&outcome),
        Some(
            "Re-running 1 action whose output expired in the RE CAS, then rebuilding everything \
             that depends on it."
        )
    );
    assert!(matches!(outcome, RoundOutcome::Rebuild { .. }));
    assert_eq!(rounds.rounds_left, 4);
    assert!(batch.contains(&action_key(0)));

    // The staged action runs and fails over two inputs of its own.
    assert!(registry.record_repair_attempt(&action_key(0)));
    batch.record_repair_charged();
    registry.record_missing(action_key(1));
    registry.record_missing(action_key(2));
    let outcome = rounds.after_round(true, &registry, &mut batch, changed);
    assert_eq!(
        message_of(&outcome),
        Some(
            "Re-running 2 actions whose output expired in the RE CAS, then rebuilding everything \
             that depends on them."
        )
    );
    assert_eq!(rounds.rounds_left, 3);
    assert!(!batch.contains(&action_key(0)));

    let outcome = rounds.after_round(false, &registry, &mut batch, changed);
    assert!(matches!(
        outcome,
        RoundOutcome::Finish {
            parting_message: None
        }
    ));
    assert_eq!(rounds.rounds_left, 3);
}

#[test]
fn a_round_without_progress_is_the_last_one() {
    let mut registry = CasMissingRecoveryRegistry::new();
    let mut batch = CasRecoveryBatch::empty();
    let mut rounds = CasRecoveryRounds::new(config(5), true, &batch);
    registry.record_missing(action_key(0));
    assert!(matches!(
        rounds.after_round(true, &registry, &mut batch, changed),
        RoundOutcome::Rebuild { .. }
    ));
    let outcome = rounds.after_round(true, &registry, &mut batch, changed);
    assert!(matches!(
        outcome,
        RoundOutcome::Finish {
            parting_message: None
        }
    ));
}

#[test]
fn rounds_that_stage_nothing_invalidate_nothing() {
    let untouched = |_: Vec<BuildKey>| -> Result<(), String> { panic!("nothing is staged") };
    let mut registry = CasMissingRecoveryRegistry::new();
    let mut batch = CasRecoveryBatch::empty();
    let mut rounds = CasRecoveryRounds::new(config(1), true, &batch);
    let outcome = rounds.after_round(true, &registry, &mut batch, untouched);
    assert_eq!(message_of(&outcome), None);

    registry.record_missing(action_key(0));
    let outcome = rounds.after_round(false, &registry, &mut batch, untouched);
    assert_eq!(message_of(&outcome), None);

    let mut spent = CasRecoveryRounds::new(config(0), true, &batch);
    registry.record_missing(action_key(1));
    batch.record_repair_charged();
    let outcome = spent.after_round(true, &registry, &mut batch, untouched);
    assert!(message_of(&outcome).unwrap().starts_with("Stopping after 0"));
    assert!(batch.staged().is_empty());
}

#[test]
fn rounds_end_at_their_limit() {
    let mut registry = CasMissingRecoveryRegistry::new();
    let mut batch = CasRecoveryBatch::empty();
    let mut rounds = CasRecoveryRounds::new(config(3), true, &batch);
    let mut staged = 0;
    for id in 0..10 {
        registry.record_missing(action_key(id));
        match rounds.after_round(true, &registry, &mut batch, changed) {
            RoundOutcome::Rebuild { .. } => staged += 1,
            RoundOutcome::Finish { parting_message } => {
                assert_eq!(
                    parting_message.as_deref(),
                    Some(
                        "Stopping after 3 repair round(s) for artifacts that expired in the RE \
                         CAS. Set `buck2.cas_missing_recovery_max_rounds` higher to work through \
                         a deeper chain."
                    )
                );
            }
        }
    }
    assert_eq!(staged, 3);
    assert_eq!(rounds.rounds_left, 0);
}

#[test]
fn invalidating_that_fails_ends_the_rounds() {
    let mut registry = CasMissingRecoveryRegistry::new();
    let mut batch = CasRecoveryBatch::empty();
    let mut rounds = CasRecoveryRounds::new(config(3), true, &batch);
    registry.record_missing(action_key(0));
    let outcome = rounds.after_round(true, &registry, &mut batch, |_| {
        Err("cycle detected".to_owned())
    });
    assert!(matches!(outcome, RoundOutcome::Finish { .. }));
    assert_eq!(
        message_of(&outcome),
        Some("Cannot re-run the actions whose output expired in the RE CAS: cycle detected")
    );
    assert!(batch.staged().is_empty());
    assert_eq!(rounds.rounds_left, 3);
}

#[test]
fn a_command_without_recovery_builds_once() {
    let mut registry = CasMissingRecoveryRegistry::new();
    let mut batch = CasRecoveryBatch::empty();
    let mut rounds = CasRecoveryRounds::new(config(3), false, &batch);
    registry.record_missing(action_key(0));
    let outcome = rounds.after_round(true, &registry, &mut batch, |_| {
        panic!("recovery is off")
    });
    assert!(matches!(
        outcome,
        RoundOutcome::Finish {
            parting_message: None
        }
    ));
}
