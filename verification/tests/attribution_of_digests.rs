//! Which action produced a digest that went missing, and what follows from it.
use buck2_re_recovery::attribution::{
    apply_cas_missing_recovery_outcome, attach_cas_missing_recovery_outcome,
    charge_cas_missing_recovery_repair, index_artifact_value_digests,
    index_missing_digest_candidates, inputs_for_cas_missing_recovery,
    record_cas_missing_recovery_repair, report_recoverable_by_command_retry,
    resolve_cas_missing_recovery_outcome, ActionOutputs, ArtifactEntry, ArtifactGroupValues,
    ArtifactValue, ExecuteError, InputArtifact, RunActionKnobs, CAS_MISSING_RECOVERY_QUEUED,
    CAS_MISSING_RECOVERY_UNATTRIBUTED,
};
use buck2_re_recovery::cas_missing_recovery::{
    ActionKey, ActionKeySet, CasMissingRecoveryRegistry, CasRecoveryBatch,
    HasCasMissingRecoveryRegistry, SetCasMissingRecoveryRegistry, UserComputationData,
};
use buck2_re_recovery::keyed::KeyedMap;
use buck2_re_recovery::missing_cas_digests::{BuildError, ErrorContext, MissingCasDigests};

fn build_artifact(id: u32) -> (InputArtifact, ActionKey) {
    let key = ActionKey {
        parent: "cell//pkg:foo".to_owned(),
        id,
    };
    (
        InputArtifact {
            action_key: Some(key.clone()),
        },
        key,
    )
}

fn source_artifact() -> InputArtifact {
    InputArtifact { action_key: None }
}

/// The digest of a file of one byte, as texts spell it.
fn file_digest(byte: u8) -> String {
    format!("{}:1", format!("{byte:02x}").repeat(20))
}

fn file_value(byte: u8) -> ArtifactValue {
    ArtifactValue {
        digest: Some(file_digest(byte)),
        tiny_digest: None,
        entry: ArtifactEntry::File(file_digest(byte)),
    }
}

fn missing_entry(path: &str, digest: String) -> (String, String) {
    (path.to_owned(), digest)
}

fn group(artifact: InputArtifact, value: ArtifactValue) -> ArtifactGroupValues {
    ArtifactGroupValues {
        values: vec![(artifact, value)],
    }
}

fn ensured_inputs_with(artifact: InputArtifact, value: ArtifactValue) -> Vec<ArtifactGroupValues> {
    vec![group(artifact, value)]
}

fn batch_of(key: &ActionKey) -> CasRecoveryBatch {
    let mut keys = ActionKeySet::new();
    keys.insert(key.clone());
    CasRecoveryBatch::new(keys)
}

fn command_execution_error(context: Option<MissingCasDigests>) -> ExecuteError {
    let mut error = BuildError::new("artifact missing".to_owned());
    if let Some(context) = context {
        error = error.context(ErrorContext::Missing(context));
    }
    ExecuteError::CommandExecutionError {
        action_outputs: ActionOutputs {
            outputs: Vec::new(),
        },
        error: Some(error),
    }
}

fn message_of(error: &ExecuteError) -> String {
    match error {
        ExecuteError::CommandExecutionError {
            error: Some(inner), ..
        } => inner.to_text(),
        _ => panic!("expected a CommandExecutionError"),
    }
}

#[test]
fn index_artifact_value_digests_indexes_a_file_value() {
    let (_, action_key) = build_artifact(0);
    let value = file_value(1);

    let mut index = KeyedMap::new();
    index_artifact_value_digests(&value, &action_key, &mut index);

    assert_eq!(index.get(&file_digest(1)), Some(&action_key));
    assert_eq!(index.len(), 1);
}

#[test]
fn index_artifact_value_digests_maps_every_leaf_in_a_tree_to_the_same_action() {
    let (_, action_key) = build_artifact(0);
    let value = ArtifactValue {
        digest: Some("tree:9".to_owned()),
        tiny_digest: None,
        entry: ArtifactEntry::Directory(vec![(
            "out".to_owned(),
            ArtifactEntry::Directory(vec![
                ("a".to_owned(), ArtifactEntry::File(file_digest(1))),
                ("b".to_owned(), ArtifactEntry::File(file_digest(2))),
                ("c".to_owned(), ArtifactEntry::Symlink),
            ]),
        )]),
    };

    let mut index = KeyedMap::new();
    index_artifact_value_digests(&value, &action_key, &mut index);

    assert_eq!(index.get(&file_digest(1)), Some(&action_key));
    assert_eq!(index.get(&file_digest(2)), Some(&action_key));
    assert_eq!(index.get(&"tree:9".to_owned()), Some(&action_key));
    assert_eq!(index.len(), 3);
}

#[test]
fn index_missing_digest_candidates_skips_source_artifacts() {
    let (build, build_key) = build_artifact(0);
    let ensured_inputs = vec![
        group(build, file_value(1)),
        group(source_artifact(), file_value(2)),
    ];

    let index = index_missing_digest_candidates(&ensured_inputs);

    assert_eq!(index.get(&file_digest(1)), Some(&build_key));
    assert_eq!(index.get(&file_digest(2)), None);
    assert_eq!(index.len(), 1);
}

#[test]
fn resolve_outcome_arms_the_action_that_produced_a_missing_digest() {
    let (build, build_key) = build_artifact(0);
    let ensured_inputs = ensured_inputs_with(build, file_value(1));
    let missing = MissingCasDigests {
        missing: vec![missing_entry("out", file_digest(1))],
    };

    let outcome = resolve_cas_missing_recovery_outcome(&missing, &ensured_inputs);

    assert_eq!(outcome.producing_actions, vec![build_key]);
    assert_eq!(outcome.unattributed, Vec::new());
    assert_eq!(outcome.guidance, CAS_MISSING_RECOVERY_QUEUED);
}

#[test]
fn resolve_outcome_leaves_a_digest_with_no_producing_action_unattributed() {
    let (build, _) = build_artifact(0);
    let ensured_inputs = ensured_inputs_with(build, file_value(1));
    let missing = MissingCasDigests {
        missing: vec![missing_entry("src", file_digest(2))],
    };

    let outcome = resolve_cas_missing_recovery_outcome(&missing, &ensured_inputs);

    assert_eq!(outcome.producing_actions, Vec::new());
    assert_eq!(
        outcome.unattributed,
        vec![missing_entry("src", file_digest(2))]
    );
    assert_eq!(outcome.guidance, CAS_MISSING_RECOVERY_UNATTRIBUTED);
}

#[test]
fn resolve_outcome_is_queued_when_only_some_digests_attribute() {
    let (build, build_key) = build_artifact(0);
    let ensured_inputs = ensured_inputs_with(build, file_value(1));
    let missing = MissingCasDigests {
        missing: vec![
            missing_entry("out", file_digest(1)),
            missing_entry("src", file_digest(2)),
        ],
    };

    let outcome = resolve_cas_missing_recovery_outcome(&missing, &ensured_inputs);

    assert_eq!(outcome.producing_actions, vec![build_key]);
    assert_eq!(
        outcome.unattributed,
        vec![missing_entry("src", file_digest(2))]
    );
    assert_eq!(outcome.guidance, CAS_MISSING_RECOVERY_QUEUED);
}

#[test]
fn apply_outcome_passes_through_errors_without_typed_context() {
    let mut registry = CasMissingRecoveryRegistry::new();
    let error = command_execution_error(None);

    let (result, notice) =
        apply_cas_missing_recovery_outcome(&mut registry, error, Some(&Vec::new()));

    assert_eq!(message_of(&result), "artifact missing");
    assert!(notice.is_none());
}

#[test]
fn apply_outcome_passes_through_non_command_execution_errors() {
    let mut registry = CasMissingRecoveryRegistry::new();
    let error = ExecuteError::Other(BuildError::new("outputs are missing".to_owned()));

    let (result, _) = apply_cas_missing_recovery_outcome(&mut registry, error, Some(&Vec::new()));

    assert!(matches!(result, ExecuteError::Other(_)));
}

#[test]
fn apply_outcome_arms_the_registry_and_replaces_the_guidance_when_attributed() {
    let mut registry = CasMissingRecoveryRegistry::new();
    let (build, build_key) = build_artifact(0);
    let ensured_inputs = ensured_inputs_with(build, file_value(1));
    let error = command_execution_error(Some(MissingCasDigests {
        missing: vec![missing_entry("out", file_digest(1))],
    }));

    let (result, notice) =
        apply_cas_missing_recovery_outcome(&mut registry, error, Some(&ensured_inputs));

    assert_eq!(registry.keys_eligible_for_recovery(1), vec![build_key]);
    assert!(message_of(&result).contains(CAS_MISSING_RECOVERY_QUEUED));
    let notice = notice.unwrap();
    assert_eq!(notice.guidance, CAS_MISSING_RECOVERY_QUEUED);
    assert_eq!(notice.queued_actions, 1);
    assert!(notice.unattributed.is_empty());
}

#[test]
fn what_no_action_is_found_for_is_handed_out() {
    let mut registry = CasMissingRecoveryRegistry::new();
    let (build, build_key) = build_artifact(0);
    let ensured_inputs = ensured_inputs_with(build, file_value(1));
    let error = command_execution_error(Some(MissingCasDigests {
        missing: vec![
            missing_entry("src", file_digest(2)),
            missing_entry("out", file_digest(1)),
            missing_entry("lib", file_digest(3)),
        ],
    }));
    let (_, notice) =
        apply_cas_missing_recovery_outcome(&mut registry, error, Some(&ensured_inputs));
    let notice = notice.unwrap();
    assert_eq!(notice.queued_actions, 1);
    assert_eq!(
        notice.unattributed,
        vec![
            missing_entry("src", file_digest(2)),
            missing_entry("lib", file_digest(3)),
        ]
    );
    assert_eq!(registry.keys_eligible_for_recovery(1), vec![build_key]);
}

#[test]
fn apply_outcome_leaves_the_registry_untouched_when_unattributed() {
    let mut registry = CasMissingRecoveryRegistry::new();
    let (build, _) = build_artifact(0);
    let ensured_inputs = ensured_inputs_with(build, file_value(1));
    let error = command_execution_error(Some(MissingCasDigests {
        missing: vec![missing_entry("src", file_digest(2))],
    }));

    let (result, _) =
        apply_cas_missing_recovery_outcome(&mut registry, error, Some(&ensured_inputs));

    assert_eq!(
        registry.keys_eligible_for_recovery(1),
        Vec::<ActionKey>::new()
    );
    assert!(message_of(&result).contains(CAS_MISSING_RECOVERY_UNATTRIBUTED));
}

#[test]
fn apply_outcome_passes_through_the_failure_when_recovery_is_disabled() {
    let mut registry = CasMissingRecoveryRegistry::new();
    let error = command_execution_error(Some(MissingCasDigests {
        missing: vec![missing_entry("out", file_digest(1))],
    }));

    let (result, _) = apply_cas_missing_recovery_outcome(&mut registry, error, None);

    assert_eq!(message_of(&result), "artifact missing");
    assert_eq!(
        registry.keys_eligible_for_recovery(1),
        Vec::<ActionKey>::new()
    );
}

#[test]
fn charge_repair_ignores_an_armed_key_the_batch_did_not_select() {
    let mut registry = CasMissingRecoveryRegistry::new();
    let (_, in_batch) = build_artifact(0);
    let (_, armed_elsewhere) = build_artifact(1);
    registry.record_missing(in_batch.clone());
    registry.record_missing(armed_elsewhere.clone());
    let mut batch = batch_of(&in_batch);

    charge_cas_missing_recovery_repair(&mut registry, &mut batch, &armed_elsewhere);

    let still_eligible = registry.keys_eligible_for_recovery(1);
    assert_eq!(still_eligible.len(), 2);
    assert!(still_eligible.contains(&in_batch));
    assert!(still_eligible.contains(&armed_elsewhere));
}

#[test]
fn charge_repair_charges_a_key_the_batch_selected() {
    let mut registry = CasMissingRecoveryRegistry::new();
    let (_, in_batch) = build_artifact(0);
    registry.record_missing(in_batch.clone());
    let mut batch = batch_of(&in_batch);

    charge_cas_missing_recovery_repair(&mut registry, &mut batch, &in_batch);

    assert_eq!(
        registry.keys_eligible_for_recovery(1),
        Vec::<ActionKey>::new()
    );
}

#[test]
fn charge_repair_against_an_empty_batch_charges_nothing() {
    let mut registry = CasMissingRecoveryRegistry::new();
    let (_, key) = build_artifact(0);
    registry.record_missing(key.clone());
    let mut batch = CasRecoveryBatch::empty();

    charge_cas_missing_recovery_repair(&mut registry, &mut batch, &key);

    assert_eq!(registry.keys_eligible_for_recovery(1), vec![key]);
}

#[test]
fn a_build_with_recovery_enabled_retains_the_inputs_attribution_resolves_digests_against() {
    let (build, build_key) = build_artifact(0);
    let ensured_inputs = ensured_inputs_with(build, file_value(1));
    let knobs = RunActionKnobs {
        cas_missing_recovery_enabled: true,
    };

    let retained = inputs_for_cas_missing_recovery(&knobs, &ensured_inputs)
        .expect("a build that opted into recovery retains its inputs");

    assert_eq!(
        index_missing_digest_candidates(retained).get(&file_digest(1)),
        Some(&build_key)
    );
}

#[test]
fn a_build_with_recovery_disabled_retains_no_inputs() {
    let (build, _) = build_artifact(0);
    let ensured_inputs = ensured_inputs_with(build, file_value(1));
    let knobs = RunActionKnobs {
        cas_missing_recovery_enabled: false,
    };

    assert!(inputs_for_cas_missing_recovery(&knobs, &ensured_inputs).is_none());
}

#[test]
fn the_first_action_keeps_a_digest_that_two_produced() {
    let (first, first_key) = build_artifact(0);
    let (second, _) = build_artifact(1);
    let ensured_inputs = vec![group(first, file_value(1)), group(second, file_value(1))];
    let index = index_missing_digest_candidates(&ensured_inputs);
    assert_eq!(index.get(&file_digest(1)), Some(&first_key));
    assert_eq!(index.len(), 1);
}

#[test]
fn a_charge_is_counted_once_until_the_action_fails_again() {
    let mut registry = CasMissingRecoveryRegistry::new();
    let (_, key) = build_artifact(0);
    registry.record_missing(key.clone());
    let mut batch = batch_of(&key);
    charge_cas_missing_recovery_repair(&mut registry, &mut batch, &key);
    charge_cas_missing_recovery_repair(&mut registry, &mut batch, &key);
    assert_eq!(batch.repairs_charged(), 1);
    assert_eq!(registry.attempts(&key), Some(1));
    registry.record_missing(key.clone());
    charge_cas_missing_recovery_repair(&mut registry, &mut batch, &key);
    assert_eq!(batch.repairs_charged(), 2);
    assert_eq!(registry.attempts(&key), Some(2));
}

#[test]
fn every_missing_digest_is_attributed_or_reported() {
    let (first, first_key) = build_artifact(0);
    let (second, second_key) = build_artifact(1);
    let ensured_inputs = vec![group(first, file_value(1)), group(second, file_value(2))];
    let missing = MissingCasDigests {
        missing: vec![
            missing_entry("b", file_digest(2)),
            missing_entry("x", file_digest(9)),
            missing_entry("a", file_digest(1)),
        ],
    };
    let outcome = resolve_cas_missing_recovery_outcome(&missing, &ensured_inputs);
    assert_eq!(outcome.producing_actions, vec![second_key, first_key]);
    assert_eq!(
        outcome.unattributed,
        vec![missing_entry("x", file_digest(9))]
    );
}

#[test]
fn the_registry_of_the_computation_is_armed_and_charged() {
    let mut data = UserComputationData::new();
    data.set_cas_missing_recovery_registry(CasMissingRecoveryRegistry::new());
    let (build, key) = build_artifact(0);
    let ensured_inputs = ensured_inputs_with(build, file_value(1));
    let error = command_execution_error(Some(MissingCasDigests {
        missing: vec![missing_entry("out", file_digest(1))],
    }));
    let (told, notice) =
        attach_cas_missing_recovery_outcome(&mut data, error, Some(&ensured_inputs));
    assert!(message_of(&told).starts_with(CAS_MISSING_RECOVERY_QUEUED));
    assert_eq!(notice.unwrap().queued_actions, 1);
    assert_eq!(
        data.get_cas_missing_recovery_registry().attempts(&key),
        Some(0)
    );
    let mut batch = batch_of(&key);
    record_cas_missing_recovery_repair(&mut data, &mut batch, &key);
    assert_eq!(
        data.get_cas_missing_recovery_registry().attempts(&key),
        Some(1)
    );
    assert_eq!(batch.repairs_charged(), 1);
}

#[test]
fn the_client_is_told_how_many_actions_are_queued() {
    assert_eq!(
        report_recoverable_by_command_retry(12),
        "queued 12 action(s) for CAS-missing repair"
    );
}
