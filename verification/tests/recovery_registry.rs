//! Which actions are repaired, how often, and in which round.
use buck2_re_recovery::calculation::BuildKey;
use buck2_re_recovery::cas_missing_recovery::{
    invalidate_actions_for_recovery, stage_cas_recovery_round, ActionKey, ActionKeySet,
    CasMissingRecoveryConfig, CasMissingRecoveryRegistry, CasRecoveryBatch,
    HasCasMissingRecoveryConfig, HasCasMissingRecoveryRegistry, HasCasRecoveryBatch,
    SetCasMissingRecoveryConfig, SetCasMissingRecoveryRegistry, SetCasRecoveryBatch,
    UserComputationData,
};

fn action_key(id: u32) -> ActionKey {
    ActionKey {
        parent: "cell//pkg:foo".to_owned(),
        id,
    }
}

/// Invalidates nothing and never fails.
fn changed(_keys: Vec<BuildKey>) -> Result<(), String> {
    Ok(())
}

#[test]
fn record_missing_arms_an_untracked_key() {
    let mut registry = CasMissingRecoveryRegistry::new();
    let key = action_key(0);

    registry.record_missing(key.clone());

    assert_eq!(registry.attempts(&key), Some(0));
    assert_eq!(registry.keys_eligible_for_recovery(2), vec![key]);
}

#[test]
fn record_missing_on_an_already_armed_key_is_idempotent() {
    let mut registry = CasMissingRecoveryRegistry::new();
    let key = action_key(0);

    registry.record_missing(key.clone());
    registry.record_missing(key.clone());

    assert_eq!(registry.keys_eligible_for_recovery(2), vec![key]);
}

#[test]
fn listing_an_armed_key_does_not_charge_or_disarm_it() {
    let mut registry = CasMissingRecoveryRegistry::new();
    let key = action_key(0);
    registry.record_missing(key.clone());

    let first_batch = registry.keys_eligible_for_recovery(2);
    let second_batch = registry.keys_eligible_for_recovery(2);

    assert_eq!(first_batch, vec![key.clone()]);
    assert_eq!(second_batch, vec![key.clone()]);
    assert_eq!(registry.attempts(&key), Some(0));
}

#[test]
fn record_repair_attempt_charges_an_armed_key_and_disarms_it() {
    let mut registry = CasMissingRecoveryRegistry::new();
    let key = action_key(0);
    registry.record_missing(key.clone());

    registry.record_repair_attempt(&key);

    assert_eq!(registry.attempts(&key), Some(1));
    assert_eq!(
        registry.keys_eligible_for_recovery(2),
        Vec::<ActionKey>::new()
    );
}

#[test]
fn record_repair_attempt_on_an_already_disarmed_key_charges_nothing() {
    let mut registry = CasMissingRecoveryRegistry::new();
    let key = action_key(0);
    registry.record_missing(key.clone());

    registry.record_repair_attempt(&key);
    registry.record_repair_attempt(&key);
    registry.record_repair_attempt(&key);

    assert_eq!(registry.attempts(&key), Some(1));
}

#[test]
fn record_repair_attempt_on_an_untracked_key_charges_nothing() {
    let mut registry = CasMissingRecoveryRegistry::new();
    let key = action_key(0);

    registry.record_repair_attempt(&key);

    assert_eq!(registry.attempts(&key), None);
}

#[test]
fn listing_excludes_a_disarmed_key_from_a_batch_offered_to_another_action() {
    let mut registry = CasMissingRecoveryRegistry::new();
    let repaired = action_key(0);
    let failing = action_key(1);

    registry.record_missing(repaired.clone());
    assert_eq!(
        registry.keys_eligible_for_recovery(2),
        vec![repaired.clone()]
    );
    registry.record_repair_attempt(&repaired);

    registry.record_missing(failing.clone());
    assert_eq!(registry.keys_eligible_for_recovery(2), vec![failing.clone()]);
    registry.record_repair_attempt(&failing);

    assert_eq!(registry.attempts(&repaired), Some(1));
    assert_eq!(registry.attempts(&failing), Some(1));
}

#[test]
fn budget_exhaustion_still_terminates_recovery() {
    let mut registry = CasMissingRecoveryRegistry::new();
    let key = action_key(0);

    registry.record_missing(key.clone());
    assert_eq!(registry.keys_eligible_for_recovery(2), vec![key.clone()]);
    registry.record_repair_attempt(&key);

    registry.record_missing(key.clone());
    assert_eq!(registry.keys_eligible_for_recovery(2), vec![key.clone()]);
    registry.record_repair_attempt(&key);
    assert_eq!(registry.attempts(&key), Some(2));

    registry.record_missing(key.clone());
    assert_eq!(
        registry.keys_eligible_for_recovery(2),
        Vec::<ActionKey>::new()
    );
    assert_eq!(registry.attempts(&key), Some(2));
}

#[test]
fn listing_on_empty_registry_returns_nothing() {
    let registry = CasMissingRecoveryRegistry::new();
    assert_eq!(
        registry.keys_eligible_for_recovery(2),
        Vec::<ActionKey>::new()
    );
}

#[test]
fn recovery_batch_contains_only_recorded_keys() {
    let known = action_key(0);
    let unknown = action_key(1);
    let mut batch = CasRecoveryBatch::empty();
    batch.replace(vec![known.clone()]);

    assert!(batch.contains(&known));
    assert!(!batch.contains(&unknown));
}

#[test]
fn empty_recovery_batch_contains_nothing() {
    let batch = CasRecoveryBatch::empty();
    assert!(!batch.contains(&action_key(0)));
}

#[test]
fn record_repair_attempt_reports_only_the_charge_that_lands() {
    let mut registry = CasMissingRecoveryRegistry::new();
    let key = action_key(0);
    registry.record_missing(key.clone());

    assert!(registry.record_repair_attempt(&key));
    assert!(!registry.record_repair_attempt(&key));
    assert!(!registry.record_repair_attempt(&action_key(1)));
}

#[test]
fn a_batch_counts_only_the_repairs_it_is_told_about() {
    let mut batch = CasRecoveryBatch::empty();
    assert_eq!(batch.repairs_charged(), 0);

    batch.record_repair_charged();
    batch.record_repair_charged();

    assert_eq!(batch.repairs_charged(), 2);
}

#[test]
fn replacing_the_batch_leaves_a_snapshot_already_taken_intact() {
    let mut batch = CasRecoveryBatch::empty();
    let earlier = action_key(0);
    batch.replace(vec![earlier.clone()]);

    let held = batch.staged();
    batch.replace(vec![action_key(1)]);

    assert!(held.contains(&earlier));
    assert!(!batch.contains(&earlier));
}

#[test]
fn staging_a_round_batches_every_armed_key() {
    let mut registry = CasMissingRecoveryRegistry::new();
    let first = action_key(0);
    let second = action_key(1);
    registry.record_missing(first.clone());
    registry.record_missing(second.clone());
    let mut batch = CasRecoveryBatch::empty();

    stage_cas_recovery_round(&registry, 2, &mut batch, changed).unwrap();

    assert_eq!(batch.staged().len(), 2);
    assert!(batch.contains(&first));
    assert!(batch.contains(&second));
}

#[test]
fn staging_a_round_leaves_its_keys_armed_for_the_executor_to_charge() {
    let mut registry = CasMissingRecoveryRegistry::new();
    let key = action_key(0);
    registry.record_missing(key.clone());

    stage_cas_recovery_round(&registry, 2, &mut CasRecoveryBatch::empty(), changed).unwrap();

    assert_eq!(registry.keys_eligible_for_recovery(2), vec![key]);
}

#[test]
fn staging_a_quiet_registry_drops_what_the_previous_round_batched() {
    let mut registry = CasMissingRecoveryRegistry::new();
    let key = action_key(0);
    registry.record_missing(key.clone());
    let mut batch = CasRecoveryBatch::empty();
    stage_cas_recovery_round(&registry, 2, &mut batch, changed).unwrap();
    registry.record_repair_attempt(&key);

    stage_cas_recovery_round(&registry, 2, &mut batch, changed).unwrap();

    assert_eq!(batch.staged().len(), 0);
    assert!(!batch.contains(&key));
}

#[test]
fn staging_a_later_round_replaces_the_keys_of_the_earlier_one() {
    let mut registry = CasMissingRecoveryRegistry::new();
    let earlier = action_key(0);
    let later = action_key(1);
    registry.record_missing(earlier.clone());
    let mut batch = CasRecoveryBatch::empty();
    stage_cas_recovery_round(&registry, 2, &mut batch, changed).unwrap();
    registry.record_repair_attempt(&earlier);
    registry.record_missing(later.clone());

    stage_cas_recovery_round(&registry, 2, &mut batch, changed).unwrap();

    assert_eq!(batch.staged().len(), 1);
    assert!(batch.contains(&later));
    assert!(!batch.contains(&earlier));
}

#[test]
fn staging_skips_a_key_that_has_spent_its_attempt_budget() {
    let mut registry = CasMissingRecoveryRegistry::new();
    let key = action_key(0);
    registry.record_missing(key.clone());
    registry.record_repair_attempt(&key);
    registry.record_missing(key.clone());
    let mut batch = CasRecoveryBatch::empty();

    stage_cas_recovery_round(&registry, 1, &mut batch, changed).unwrap();

    assert_eq!(batch.staged().len(), 0);
    assert_eq!(
        registry.keys_eligible_for_recovery(1),
        Vec::<ActionKey>::new()
    );
}

#[test]
fn a_round_that_cannot_invalidate_leaves_the_batch_empty() {
    let mut registry = CasMissingRecoveryRegistry::new();
    let key = action_key(0);
    registry.record_missing(key.clone());
    let mut batch = CasRecoveryBatch::empty();
    batch.replace(vec![action_key(5)]);
    batch.record_repair_charged();

    let staged = stage_cas_recovery_round(&registry, 2, &mut batch, |_| Err("cycle"));

    assert_eq!(staged, Err("cycle"));
    assert!(batch.staged().is_empty());
    assert_eq!(batch.repairs_charged(), 1);
    assert_eq!(registry.keys_eligible_for_recovery(2), vec![key]);
}

#[test]
fn staging_reports_how_many_actions_run_again() {
    let mut registry = CasMissingRecoveryRegistry::new();
    let mut batch = CasRecoveryBatch::empty();
    assert_eq!(
        stage_cas_recovery_round(&registry, 2, &mut batch, changed),
        Ok(0)
    );
    for id in 0..3 {
        registry.record_missing(action_key(id));
    }
    assert_eq!(
        stage_cas_recovery_round(&registry, 2, &mut batch, changed),
        Ok(3)
    );
}

#[test]
fn a_quiet_registry_invalidates_nothing() {
    let mut registry = CasMissingRecoveryRegistry::new();
    let mut batch = CasRecoveryBatch::empty();
    let staged: Result<usize, String> =
        stage_cas_recovery_round(&registry, 2, &mut batch, |_| panic!("nothing is armed"));
    assert_eq!(staged, Ok(0));

    registry.record_missing(action_key(0));
    batch.replace(vec![action_key(5)]);
    let staged: Result<usize, String> =
        stage_cas_recovery_round(&registry, 0, &mut batch, |_| panic!("no attempts are left"));
    assert_eq!(staged, Ok(0));
    assert!(batch.staged().is_empty());
}

#[test]
fn invalidating_names_the_computation_of_every_action() {
    let keys = vec![action_key(4), action_key(2)];
    let seen = invalidate_actions_for_recovery(&keys, |build_keys: Vec<BuildKey>| {
        let names: Vec<u32> = build_keys.iter().map(|key| key.0.id).collect();
        Err::<(), Vec<u32>>(names)
    });
    assert_eq!(seen, Err(vec![4, 2]));
}

#[test]
fn actions_with_the_same_number_and_another_owner_differ() {
    let mut registry = CasMissingRecoveryRegistry::new();
    let here = action_key(0);
    let there = ActionKey {
        parent: "cell//pkg:bar".to_owned(),
        id: 0,
    };
    registry.record_missing(here.clone());
    assert_eq!(registry.attempts(&there), None);
    registry.record_missing(there.clone());
    registry.record_repair_attempt(&here);
    assert_eq!(registry.attempts(&here), Some(1));
    assert_eq!(registry.attempts(&there), Some(0));
    assert_eq!(registry.keys_eligible_for_recovery(5), vec![there]);
}

#[test]
fn an_action_out_of_attempts_never_comes_back() {
    let mut registry = CasMissingRecoveryRegistry::new();
    let key = action_key(0);
    for _ in 0..3 {
        registry.record_missing(key.clone());
        registry.record_repair_attempt(&key);
    }
    for _ in 0..4 {
        registry.record_missing(key.clone());
        assert!(registry.keys_eligible_for_recovery(3).is_empty());
        registry.record_repair_attempt(&key);
    }
}

#[test]
fn a_set_of_actions_holds_each_once() {
    let mut set = ActionKeySet::new();
    assert!(set.is_empty());
    set.insert(action_key(1));
    set.insert(action_key(1));
    set.insert(action_key(2));
    assert_eq!(set.len(), 2);
    let copy = set.clone();
    set.insert(action_key(3));
    assert_eq!(copy.len(), 2);
    assert!(!copy.contains(&action_key(3)));
    assert!(set.contains(&action_key(3)));
}

#[test]
fn a_computation_carries_the_registry_the_batch_and_the_limits() {
    let mut data = UserComputationData::new();
    let mut registry = CasMissingRecoveryRegistry::new();
    registry.record_missing(action_key(3));
    data.set_cas_missing_recovery_registry(registry);
    let mut set = ActionKeySet::new();
    set.insert(action_key(3));
    data.set_cas_recovery_batch(CasRecoveryBatch::new(set));
    let config = CasMissingRecoveryConfig {
        max_action_attempts: 2,
        max_rounds: 4,
    };
    data.set_cas_missing_recovery_config(config);

    assert_eq!(
        data.get_cas_missing_recovery_registry().attempts(&action_key(3)),
        Some(0)
    );
    assert!(data.get_cas_recovery_batch().contains(&action_key(3)));
    assert_eq!(data.get_cas_recovery_batch().repairs_charged(), 0);
    assert_eq!(data.get_cas_missing_recovery_config(), config);
}
