//! What is decided before an action runs and recorded after it.
use buck2_re_recovery::action_run::{
    action_error, build_action_inner, build_action_no_redirect, check_infra_error_patterns,
    command_execution_report_to_proto, invalidation_info, is_action_eligible_for_dedupe,
    log_commands, match_infra_error, omits_command_details, try_run_error_handler,
    ActionError, ActionErrorDiagnostics, ActionExecutionKind, ActionExecutionMetadata, ActionSubError,
    CommandExecution, CommandExecutionKind, CommandExecutionReport, CommandExecutionStatus,
    CommandFacts, CommandInvalidationInfo, CommandMeasures, CommandTiming, EligibleForDedupe, ExpectedEligibleForDedupe,
    HandlerOutcome, HostFacts, InfraErrorTag, InvalidationPath, LoggedStatus, RegisteredAction,
    RunFacts, StdStreams, UploadResult, WaitingData,
};
use buck2_re_recovery::attribution::{
    ActionOutputs, ArtifactEntry, ArtifactGroupValues, ArtifactValue, ExecuteError, InputArtifact,
    RunActionKnobs, CAS_MISSING_RECOVERY_QUEUED,
};
use buck2_re_recovery::calculation::{
    ensure_inputs, get_target_rule_type_name, redirect, wants_eager_materialization,
    ActionCalculation, ActionLookup, ArtifactGroup, ArtifactGroupKind, BuildArtifact, BuildKey,
    ConfiguredTargetNode, EagerPath, EagerPaths, EagerStep, ExecutorPreference, LookupStep,
    MaybeCompatible,
};
use buck2_re_recovery::cas_missing_recovery::{
    ActionKey, ActionKeySet, CasMissingRecoveryRegistry, CasRecoveryBatch,
    HasCasMissingRecoveryRegistry, SetCasMissingRecoveryRegistry, UserComputationData,
};
use buck2_re_recovery::duration::Duration;
use buck2_re_recovery::error::Error;
use buck2_re_recovery::missing_cas_digests::{BuildError, ErrorContext, MissingCasDigests};

fn action_key(id: u32) -> ActionKey {
    ActionKey {
        parent: "cell//pkg:foo".to_owned(),
        id,
    }
}

fn action() -> RegisteredAction {
    RegisteredAction {
        key: action_key(3),
        owner: "cell//pkg:foo".to_owned(),
        kind: 2,
        category: "cxx_compile".to_owned(),
        identifier: None,
        always_print_stderr: true,
        expected_eligible_for_dedupe: Some(false),
    }
}

fn kind(kind: ActionExecutionKind) -> CommandExecutionKind {
    CommandExecutionKind {
        kind,
        re_platform_name: Some("linux-pool".to_owned()),
    }
}

fn report(status: CommandExecutionStatus) -> CommandExecutionReport {
    CommandExecutionReport {
        status,
        exit_code: Some(1),
        timing: CommandTiming {
            duration: Duration::from_millis(1500),
            queue_duration: Some(Duration::from_secs(4)),
            memory_peak: Some(77),
        },
        additional_message: Some("more".to_owned()),
        environment_id: None,
    }
}

fn streams() -> StdStreams {
    StdStreams {
        stdout: "out".to_owned(),
        stderr: "ERR: Out Of Memory".to_owned(),
    }
}

fn facts() -> RunFacts {
    RunFacts {
        target_rule_type_name: Some("cxx_library".to_owned()),
        invalidation: None,
        host: HostFacts {
            hostname: Some("host".to_owned()),
            buck2_revision: Some("rev".to_owned()),
            buck2_build_time: Some("time".to_owned()),
        },
    }
}

fn outputs() -> ActionOutputs {
    let value = |tiny: Option<&str>| ArtifactValue {
        digest: None,
        tiny_digest: tiny.map(|tiny| tiny.to_owned()),
        entry: ArtifactEntry::Symlink,
    };
    ActionOutputs {
        outputs: vec![
            ("a".to_owned(), value(Some("t1"))),
            ("b".to_owned(), value(None)),
            ("c".to_owned(), value(Some("t2"))),
        ],
    }
}

fn meta(execution_kind: ActionExecutionKind, command: Option<CommandFacts>) -> ActionExecutionMetadata {
    ActionExecutionMetadata {
        execution_kind,
        wall_time: Duration::from_secs(2),
        input_files_bytes: Some(9),
        waiting_data: WaitingData {
            categories: vec!["queue".to_owned()],
        },
        command,
        output_bytes: 123,
    }
}

fn with_registry() -> UserComputationData {
    let mut data = UserComputationData::new();
    data.set_cas_missing_recovery_registry(CasMissingRecoveryRegistry::new());
    data
}

fn knobs(cas_missing_recovery_enabled: bool) -> RunActionKnobs {
    RunActionKnobs {
        cas_missing_recovery_enabled,
    }
}

/// Says how many commands were logged, and what the first of them printed.
fn measure(commands: &Vec<CommandExecution>) -> CommandMeasures {
    CommandMeasures {
        action_digest: Some(format!("act:{}", commands.len())),
        execution_time_ms: commands
            .first()
            .map(|command| command.details.cmd_stdout.len() as u64),
    }
}

fn log_error(error: &ActionError) -> String {
    format!("{} {:?}", error.emitted_text, error.infra_error_tag)
}

fn no_handler(
    _last: Option<&CommandExecution>,
    _outputs: Option<&ActionOutputs>,
) -> Option<HandlerOutcome> {
    None
}

#[test]
fn a_result_stands_in_only_where_everything_allows_it() {
    let verdict = is_action_eligible_for_dedupe;
    assert_eq!(verdict(true, &vec![]), EligibleForDedupe::Eligible);
    assert_eq!(verdict(false, &vec![]), EligibleForDedupe::IneligibleOutput);
    assert_eq!(
        verdict(true, &vec![EligibleForDedupe::Eligible, EligibleForDedupe::IneligibleInput]),
        EligibleForDedupe::IneligibleInput
    );
}

#[test]
fn details_of_commands_that_worked_are_left_out() {
    let success = report(CommandExecutionStatus::Success {
        kind: kind(ActionExecutionKind::Remote),
    });
    assert!(omits_command_details(&success, true));
    let logged = command_execution_report_to_proto(&success, true, streams());
    assert_eq!(logged.details.cmd_stdout, "");
    assert_eq!(logged.details.cmd_stderr, "ERR: Out Of Memory");
    assert!(logged.details.command_kind.unwrap().details_omitted);
    let logged = command_execution_report_to_proto(&success, false, streams());
    assert_eq!(logged.details.cmd_stdout, "out");
    assert_eq!(logged.details.signed_exit_code, Some(1));
    assert_eq!(logged.details.additional_message, Some("more".to_owned()));
    assert!(!logged.details.command_kind.unwrap().details_omitted);
}

#[test]
fn commands_are_logged_with_how_they_ended() {
    let statuses = vec![
        report(CommandExecutionStatus::TimedOut {
            kind: kind(ActionExecutionKind::Local),
            duration: Duration::from_millis(2500),
        }),
        report(CommandExecutionStatus::Error {
            execution_kind: None,
            stage: "upload".to_owned(),
            error: BuildError::new("broke".to_owned()),
        }),
        report(CommandExecutionStatus::Cancelled {
            execution_kind: None,
        }),
    ];
    let logged = log_commands(&statuses, vec![streams(), streams(), streams()], true);
    match &logged[0].status {
        LoggedStatus::Timeout { duration } => {
            let wire = duration.unwrap();
            assert_eq!((wire.seconds, wire.nanos), (2, 500_000_000));
        }
        other => panic!("unexpected {other:?}"),
    }
    match &logged[1].status {
        LoggedStatus::Error { stage, error } => {
            assert_eq!(stage, "upload");
            assert_eq!(error, "broke");
        }
        other => panic!("unexpected {other:?}"),
    }
    assert!(matches!(logged[2].status, LoggedStatus::Cancelled));
    assert!(logged[2].details.command_kind.is_none());
    assert_eq!(logged[0].details.cmd_stdout, "out");
}

#[test]
fn signs_of_a_failing_infrastructure_are_found() {
    assert_eq!(
        match_infra_error("x transport endpoint is not connected: out of memory"),
        Some(InfraErrorTag::IoNotConnected)
    );
    assert_eq!(
        match_infra_error("out of memory"),
        Some(InfraErrorTag::ActionOom)
    );
    assert_eq!(match_infra_error("fine"), None);
    let failed = report(CommandExecutionStatus::Failure {
        kind: kind(ActionExecutionKind::Local),
    });
    let logged = command_execution_report_to_proto(&failed, false, streams());
    assert_eq!(
        check_infra_error_patterns(Some(&logged)),
        Some(InfraErrorTag::ActionOom)
    );
    assert_eq!(check_infra_error_patterns(None), None);
}

#[test]
fn what_an_error_handler_says_is_kept() {
    assert!(try_run_error_handler(None).is_none());
    let said = |outcome: HandlerOutcome| match try_run_error_handler(Some(outcome)).unwrap() {
        ActionErrorDiagnostics::HandlerInvocationError(text) => text,
        ActionErrorDiagnostics::SubErrors(errors) => format!("{}", errors.len()),
    };
    assert_eq!(
        said(HandlerOutcome::NotSetUp(BuildError::new("no fs".to_owned()))),
        "no fs"
    );
    assert_eq!(
        said(HandlerOutcome::Failed(BuildError::new("oops".to_owned()))),
        "Error handler failed: oops"
    );
    assert_eq!(
        said(HandlerOutcome::WrongType("expected a list".to_owned())),
        "expected a list"
    );
    let sub_error = ActionSubError {
        category: "c".to_owned(),
        message: None,
        file: None,
        lineno: None,
    };
    assert_eq!(said(HandlerOutcome::Returned(vec![sub_error])), "1");
}

#[test]
fn changes_are_told_apart() {
    assert_eq!(invalidation_info(None), None);
    assert_eq!(
        invalidation_info(Some((
            InvalidationPath::Invalidated,
            InvalidationPath::Unknown
        ))),
        Some(CommandInvalidationInfo {
            changed_any: true,
            changed_file: false,
        })
    );
    assert_eq!(
        invalidation_info(Some((InvalidationPath::Clean, InvalidationPath::Invalidated))),
        Some(CommandInvalidationInfo {
            changed_any: false,
            changed_file: true,
        })
    );
}

fn succeed(
    execution_kind: ActionExecutionKind,
    command: Option<CommandFacts>,
) -> buck2_re_recovery::action_run::ActionExecutionEnd<String> {
    let reports = vec![report(CommandExecutionStatus::Success {
        kind: kind(execution_kind),
    })];
    let (data, end, notice) = build_action_inner(
        &mut with_registry(),
        &mut CasRecoveryBatch::empty(),
        &knobs(true),
        &action(),
        true,
        &Vec::new(),
        &Vec::new(),
        Ok((outputs(), meta(execution_kind, command))),
        &reports,
        vec![streams()],
        facts(),
        measure,
        no_handler,
        log_error,
    );
    assert!(notice.is_none());
    assert!(data.action_result.is_ok());
    assert_eq!(data.wall_time, Some(Duration::from_secs(2)));
    assert_eq!(data.queue_duration, Some(Duration::from_secs(4)));
    assert_eq!(data.memory_peak, Some(77));
    assert_eq!(
        data.extra_data.re_platform_name,
        Some("linux-pool".to_owned())
    );
    assert_eq!(data.waiting_data.categories, vec!["queue".to_owned()]);
    assert_eq!(data.extra_data.action_digest, Some("act:1".to_owned()));
    assert_eq!(data.extra_data.execution_time_ms, Some(0));
    end
}

#[test]
fn an_action_that_worked_is_recorded() {
    let end = succeed(ActionExecutionKind::Local, None);
    assert!(!end.failed);
    assert_eq!(end.error, None);
    assert_eq!(end.commands[0].details.cmd_stdout, "");
    assert_eq!(end.commands[0].details.metadata.memory_peak, Some(77));
    assert_eq!(end.outputs, vec!["t1".to_owned(), "t2".to_owned()]);
    assert_eq!(end.output_size, 123);
    assert_eq!(end.hostname, Some("host".to_owned()));
    assert_eq!(end.buck2_revision, None);
    assert_eq!(end.cache_upload_result, UploadResult::NonCommandAction);
    assert_eq!(end.dep_file_cache_upload_result, UploadResult::NotAttempted);
    assert_eq!(end.name.identifier, "");
    assert_eq!(end.commands.len(), 1);
    assert_eq!(end.eligible_for_dedupe, EligibleForDedupe::Eligible);
    assert_eq!(
        end.expected_eligible_for_dedupe,
        ExpectedEligibleForDedupe::ExpectedIneligible
    );
    let wall = end.wall_time.unwrap();
    assert_eq!((wall.seconds, wall.nanos), (2, 0));
}

#[test]
fn the_name_of_the_machine_is_for_local_work() {
    let command = CommandFacts {
        prefers_local: true,
        requires_local: false,
        allows_cache_upload: true,
        cache_upload_result: UploadResult::Uploaded,
        allows_dep_file_cache_upload: false,
        dep_file_cache_upload_result: UploadResult::Rejected,
        dep_file_key: Some("key".to_owned()),
        eligible_for_full_hybrid: true,
        scheduling_mode: Some(1),
        incremental_kind: 2,
    };
    let end = succeed(ActionExecutionKind::Remote, Some(command));
    assert_eq!(end.hostname, None);
    assert!(end.prefers_local);
    assert_eq!(end.cache_upload_result, UploadResult::Uploaded);
    assert_eq!(end.dep_file_cache_upload_result, UploadResult::Rejected);
    assert_eq!(end.dep_file_key, Some("key".to_owned()));
    assert_eq!(end.eligible_for_full_hybrid, Some(true));
    assert_eq!(end.incremental_kind, Some(2));
    assert_eq!(
        succeed(ActionExecutionKind::LocalWorker, None).hostname,
        Some("host".to_owned())
    );
    assert_eq!(
        succeed(ActionExecutionKind::ActionCache, None).hostname,
        None
    );
}

#[test]
fn an_action_that_lacked_an_input_arms_its_producer() {
    let mut data = with_registry();
    // The failing action was itself selected for repair, so this run is charged.
    let mut registry = CasMissingRecoveryRegistry::new();
    registry.record_missing(action_key(3));
    data.set_cas_missing_recovery_registry(registry);
    let mut keys = ActionKeySet::new();
    keys.insert(action_key(3));
    let mut batch = CasRecoveryBatch::new(keys);
    let inputs = vec![ArtifactGroupValues {
        values: vec![(
            InputArtifact {
                action_key: Some(action_key(8)),
            },
            ArtifactValue {
                digest: Some("in:5".to_owned()),
                tiny_digest: None,
                entry: ArtifactEntry::File("in:5".to_owned()),
            },
        )],
    }];
    let error = ExecuteError::CommandExecutionError {
        action_outputs: outputs(),
        error: Some(BuildError::new("upload failed".to_owned()).context(
            ErrorContext::Missing(MissingCasDigests {
                missing: vec![("in".to_owned(), "in:5".to_owned())],
            }),
        )),
    };
    let reports = vec![report(CommandExecutionStatus::Failure {
        kind: kind(ActionExecutionKind::Remote),
    })];
    let (recorded, end, notice) = build_action_inner(
        &mut data,
        &mut batch,
        &knobs(true),
        &action(),
        false,
        &vec![EligibleForDedupe::IneligibleInput],
        &inputs,
        Err(error),
        &reports,
        vec![streams()],
        facts(),
        measure,
        |last: Option<&CommandExecution>, outputs: Option<&ActionOutputs>| {
            assert_eq!(last.unwrap().details.cmd_stdout, "out");
            assert_eq!(outputs.unwrap().outputs.len(), 3);
            Some(HandlerOutcome::WrongType("not a list".to_owned()))
        },
        log_error,
    );
    let registry = data.get_cas_missing_recovery_registry();
    assert_eq!(registry.attempts(&action_key(3)), Some(1));
    assert_eq!(registry.attempts(&action_key(8)), Some(0));
    assert_eq!(registry.keys_eligible_for_recovery(5), vec![action_key(8)]);
    assert_eq!(batch.repairs_charged(), 1);
    assert_eq!(notice.unwrap().queued_actions, 1);

    let failure = recorded.action_result.unwrap_err();
    assert_eq!(failure.infra_error_tag, Some(InfraErrorTag::ActionOom));
    assert_eq!(failure.key, action_key(3));
    assert_eq!(failure.name.category, end.name.category);
    assert_eq!(
        failure.last_command.unwrap().details.cmd_stderr,
        end.commands[0].details.cmd_stderr
    );
    assert!(matches!(
        &end.error_diagnostics,
        Some(ActionErrorDiagnostics::HandlerInvocationError(text)) if text == "not a list"
    ));
    assert_eq!(failure.emitted_text, "Failed to build 'cell//pkg:foo'");
    assert!(matches!(
        failure.diagnostics,
        Some(ActionErrorDiagnostics::HandlerInvocationError(text)) if text == "not a list"
    ));
    match failure.error {
        ExecuteError::CommandExecutionError {
            error: Some(error), ..
        } => assert_eq!(
            error.to_text(),
            format!("{CAS_MISSING_RECOVERY_QUEUED}: upload failed")
        ),
        other => panic!("unexpected {other:?}"),
    }
    assert!(end.failed);
    assert_eq!(
        end.error.as_deref(),
        Some("Failed to build 'cell//pkg:foo' Some(ActionOom)")
    );
    assert_eq!(end.commands[0].details.cmd_stdout, "out");
    assert_eq!(recorded.extra_data.execution_time_ms, Some(3));
    assert_eq!(end.output_size, 0);
    assert!(end.outputs.is_empty());
    assert_eq!(end.cache_upload_result, UploadResult::ActionNotSuccessful);
    assert_eq!(end.execution_kind, ActionExecutionKind::Remote);
    assert_eq!(end.hostname, Some("host".to_owned()));
    assert_eq!(end.buck2_revision, Some("rev".to_owned()));
    assert_eq!(end.eligible_for_dedupe, EligibleForDedupe::IneligibleOutput);
    assert_eq!(recorded.wall_time, Some(Duration::from_millis(1500)));
}

#[test]
fn an_action_that_failed_without_commands_leaves_little() {
    let (recorded, end, notice) = build_action_inner(
        &mut with_registry(),
        &mut CasRecoveryBatch::empty(),
        &knobs(false),
        &action(),
        true,
        &Vec::new(),
        &Vec::new(),
        Err(ExecuteError::Other(BuildError::new("no outputs".to_owned()))),
        &Vec::new(),
        Vec::new(),
        facts(),
        measure,
        |last: Option<&CommandExecution>, outputs: Option<&ActionOutputs>| {
            assert!(last.is_none());
            assert!(outputs.is_none());
            None
        },
        log_error,
    );
    assert!(notice.is_none());
    assert_eq!(recorded.wall_time, None);
    assert_eq!(end.execution_kind, ActionExecutionKind::NotSet);
    assert_eq!(end.cache_upload_result, UploadResult::NonCommandAction);
    assert!(end.wall_time.is_none());
    let failure = recorded.action_result.unwrap_err();
    assert!(failure.diagnostics.is_none());
    assert!(failure.infra_error_tag.is_none());
    assert!(failure.last_command.is_none());
    assert!(end.error_diagnostics.is_none());
}

#[test]
fn nothing_is_made_of_an_error_that_did_not_come() {
    let (recorded, end, notice) = build_action_inner(
        &mut with_registry(),
        &mut CasRecoveryBatch::empty(),
        &knobs(true),
        &action(),
        true,
        &Vec::new(),
        &Vec::new(),
        Ok((outputs(), meta(ActionExecutionKind::Simple, None))),
        &Vec::new(),
        Vec::new(),
        facts(),
        measure,
        |_: Option<&CommandExecution>, _: Option<&ActionOutputs>| panic!("nothing failed"),
        |_: &ActionError| -> String { panic!("nothing failed") },
    );
    assert!(recorded.action_result.is_ok());
    assert_eq!(end.error, None);
    assert!(notice.is_none());
}

#[test]
fn what_is_measured_comes_from_the_run() {
    let (recorded, _, _) = build_action_inner(
        &mut with_registry(),
        &mut CasRecoveryBatch::empty(),
        &knobs(false),
        &action(),
        true,
        &Vec::new(),
        &Vec::new(),
        Ok((outputs(), meta(ActionExecutionKind::Simple, None))),
        &Vec::new(),
        Vec::new(),
        facts(),
        measure,
        no_handler,
        log_error,
    );
    let (metrics, kept, result) =
        build_action_no_redirect(action(), recorded, Duration::from_secs(9), vec![5]);
    assert_eq!(metrics.key, action_key(3));
    assert_eq!(metrics.execution_time_ms, 0);
    assert_eq!(metrics.output_size_bytes, 123);
    assert_eq!(metrics.execution_kind, ActionExecutionKind::Simple);
    assert_eq!(kept.duration.user, Duration::from_secs(2));
    assert_eq!(kept.duration.total, Duration::from_secs(9));
    assert_eq!(kept.spans, vec![5]);
    assert_eq!(
        kept.action_with_extra_data.extra_data.action_digest,
        Some("act:0".to_owned())
    );
    assert!(result.is_ok());
}

#[test]
fn the_start_of_an_action_is_named() {
    let mut registered = action();
    registered.identifier = Some("foo.cpp".to_owned());
    let start = registered.start_event();
    assert_eq!(start.key, action_key(3));
    assert_eq!(start.kind, 2);
    assert_eq!(start.name.category, "cxx_compile");
    assert_eq!(start.name.identifier, "foo.cpp");
    let failure = action_error(
        &registered,
        ExecuteError::Other(BuildError::new("x".to_owned())),
        None,
        None,
    );
    assert_eq!(failure.emitted_text, "Failed to build 'cell//pkg:foo'");
}

#[test]
fn actions_are_looked_up_until_they_are_found() {
    assert!(matches!(
        ActionCalculation::get_action(ActionLookup::Action(5)),
        LookupStep::Found(5)
    ));
    assert!(matches!(
        ActionCalculation::get_action::<u32>(ActionLookup::Deferred(action_key(2))),
        LookupStep::LookUp(key) if key == action_key(2)
    ));
    assert_eq!(
        ActionCalculation::build_action(&action_key(1)).0,
        action_key(1)
    );
    assert_eq!(
        ActionCalculation::build_artifact(&BuildArtifact { key: action_key(4) }).0,
        action_key(4)
    );
    assert!(redirect(&action_key(1), &action_key(1)).is_none());
    assert_eq!(
        redirect(&action_key(1), &action_key(2)).unwrap().0,
        action_key(1)
    );
}

#[test]
fn failures_are_never_kept() {
    let same = |x: &u32, y: &u32| x == y;
    assert!(BuildKey::equality(&Ok::<u32, ()>(1), &Ok(1), &same));
    assert!(!BuildKey::equality(&Ok::<u32, ()>(1), &Ok(2), &same));
    assert!(!BuildKey::equality(&Err::<u32, ()>(()), &Err(()), &same));
    assert!(BuildKey::validity(&Ok::<u32, ()>(1)));
    assert!(!BuildKey::validity(&Err::<u32, ()>(())));
}

#[test]
fn the_rule_of_a_target_that_fits_is_named() {
    let node = ConfiguredTargetNode {
        underlying_rule_type: "cxx_library".to_owned(),
    };
    assert_eq!(
        get_target_rule_type_name(Ok(MaybeCompatible::Compatible(node))).unwrap(),
        "cxx_library"
    );
    let refused = get_target_rule_type_name(Ok(MaybeCompatible::Incompatible(Error::msg(
        "wrong os".to_owned(),
    ))));
    assert_eq!(refused.unwrap_err().to_text(), "wrong os");
    let unknown = get_target_rule_type_name(Err(Error::msg("no node".to_owned())));
    assert_eq!(unknown.unwrap_err().to_text(), "no node");
}

#[test]
fn inputs_are_put_on_disk_for_actions_that_may_run_here() {
    let preference = ExecutorPreference {
        prefers_local: true,
        prefers_remote: false,
        local_execution_possible: true,
    };
    assert!(wants_eager_materialization(true, true, Some(preference), false));
    assert!(!wants_eager_materialization(false, true, Some(preference), false));
    assert!(!wants_eager_materialization(true, false, Some(preference), true));
    assert!(!wants_eager_materialization(true, true, None, true));
    let either = ExecutorPreference {
        prefers_local: false,
        ..preference
    };
    assert!(!wants_eager_materialization(true, true, Some(either), false));
    assert!(wants_eager_materialization(true, true, Some(either), true));
    let remote = ExecutorPreference {
        prefers_remote: true,
        ..preference
    };
    assert!(!wants_eager_materialization(true, true, Some(remote), true));
}

fn artifact(id: u64, requires_materialization: bool, is_projected: bool) -> ArtifactGroup {
    ArtifactGroup {
        id,
        kind: ArtifactGroupKind::Artifact {
            requires_materialization,
            is_projected,
        },
    }
}

fn set(id: u64) -> ArtifactGroup {
    ArtifactGroup {
        id,
        kind: ArtifactGroupKind::TransitiveSetProjection,
    }
}

#[test]
fn eager_paths_are_collected_through_transitive_sets() {
    let promise = ArtifactGroup {
        id: 9,
        kind: ArtifactGroupKind::Promise,
    };
    let mut paths = EagerPaths::collect_eager_paths(vec![
        artifact(1, true, false),
        artifact(2, false, false),
        promise,
        set(10),
    ]);
    let mut steps = Vec::new();
    loop {
        let step = paths.next();
        steps.push(step);
        match step {
            EagerStep::Resolve(id, EagerPath::Own) => paths.add_path(format!("own{id}")),
            EagerStep::Resolve(_, EagerPath::Base) => paths.add_path("base".to_owned()),
            EagerStep::Expand(10) => {
                paths.extend(vec![artifact(3, true, true), artifact(4, true, true), set(11)])
            }
            EagerStep::Expand(_) => paths.extend(vec![set(10), artifact(1, true, false)]),
            EagerStep::Done => break,
        }
    }
    assert_eq!(
        steps,
        vec![
            EagerStep::Expand(10),
            EagerStep::Expand(11),
            EagerStep::Resolve(1, EagerPath::Own),
            EagerStep::Resolve(4, EagerPath::Base),
            EagerStep::Resolve(3, EagerPath::Base),
            EagerStep::Done,
        ]
    );
    let mut found = paths.finish();
    found.sort();
    assert_eq!(found, vec!["base".to_owned(), "own1".to_owned()]);
}

#[test]
fn inputs_are_paired_with_their_values() {
    let values = |digest: &str| ArtifactGroupValues {
        values: vec![(
            InputArtifact { action_key: None },
            ArtifactValue {
                digest: Some(digest.to_owned()),
                tiny_digest: None,
                entry: ArtifactEntry::Symlink,
            },
        )],
    };
    let inputs = vec![set(1), set(2), set(1)];
    let ensured = ensure_inputs(&inputs, vec![values("a"), values("b"), values("c")]);
    assert_eq!(ensured.len(), 2);
    let digest_of = |id: u64| {
        ensured.get(&set(id)).unwrap().values[0]
            .1
            .digest
            .clone()
            .unwrap()
    };
    assert_eq!(digest_of(1), "c");
    assert_eq!(digest_of(2), "b");
    let order: Vec<u64> = ensured
        .into_entries()
        .into_iter()
        .map(|(group, _)| group.id)
        .collect();
    assert_eq!(order, vec![1, 2]);

    let inputs = vec![set(9), set(4), set(6), set(4)];
    let four = vec![values("a"), values("b"), values("c"), values("d")];
    let ensured = ensure_inputs(&inputs, four);
    let order: Vec<(u64, Option<String>)> = ensured
        .into_entries()
        .into_iter()
        .map(|(group, values)| (group.id, values.values[0].1.digest.clone()))
        .collect();
    assert_eq!(
        order,
        vec![
            (9, Some("a".to_owned())),
            (4, Some("d".to_owned())),
            (6, Some("c".to_owned())),
        ]
    );
}

#[test]
fn the_log_repeats_what_the_error_handler_made_out() {
    let (recorded, end, _) = build_action_inner(
        &mut with_registry(),
        &mut CasRecoveryBatch::empty(),
        &knobs(false),
        &action(),
        true,
        &Vec::new(),
        &Vec::new(),
        Err(ExecuteError::Other(BuildError::new("no outputs".to_owned()))),
        &Vec::new(),
        Vec::new(),
        facts(),
        measure,
        |_: Option<&CommandExecution>, _: Option<&ActionOutputs>| {
            Some(HandlerOutcome::Returned(vec![ActionSubError {
                category: "syntax".to_owned(),
                message: Some("missing semicolon".to_owned()),
                file: None,
                lineno: Some(7),
            }]))
        },
        log_error,
    );
    for diagnostics in [
        recorded.action_result.unwrap_err().diagnostics,
        end.error_diagnostics,
    ] {
        match diagnostics {
            Some(ActionErrorDiagnostics::SubErrors(errors)) => {
                assert_eq!(errors.len(), 1);
                assert_eq!(errors[0].category, "syntax");
                assert_eq!(errors[0].message, Some("missing semicolon".to_owned()));
                assert_eq!(errors[0].file, None);
                assert_eq!(errors[0].lineno, Some(7));
            }
            other => panic!("unexpected {other:?}"),
        }
    }
}
