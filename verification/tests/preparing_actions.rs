//! How requests become actions for remote workers.
use std::collections::BTreeMap;

use buck2_re_recovery::command_executor::{
    re_create_action, ActionExecutionTimingData, Command, CommandExecutionMetadata,
    CommandExecutionRequest, CommandExecutor, CommandGenerationOptions, NetworkAccess,
    OutputPathsBehavior, OutputType, PathSeparatorKind, PreparedAction, PreparedCommandExecutor,
    RemoteWorkerSpec, TimeSpan, WorkerSpec,
};
use buck2_re_recovery::digest::TDigest;
use buck2_re_recovery::duration::Duration;
use buck2_re_recovery::messages::{Platform, Property};
use buck2_re_recovery::platform::sorted_platform;
use sorted_vector_map::SortedVectorMap;

fn prop(name: &str, value: &str) -> Property {
    Property {
        name: name.to_owned(),
        value: value.to_owned(),
    }
}

fn platform_of(pairs: &[(&str, &str)]) -> Platform {
    Platform {
        properties: pairs.iter().map(|(n, v)| prop(n, v)).collect(),
    }
}

fn names_and_values(platform: &Platform) -> Vec<(String, String)> {
    platform
        .properties
        .iter()
        .map(|p| (p.name.clone(), p.value.clone()))
        .collect()
}

fn texts(texts: &[&str]) -> Vec<String> {
    texts.iter().map(|t| (*t).to_owned()).collect()
}

/// A digest that tells commands apart by their arguments.
fn digest_command(command: &Command) -> TDigest {
    TDigest {
        hash: command.arguments.join("+"),
        size_in_bytes: command.arguments.len() as i64,
    }
}

fn input_digest() -> TDigest {
    TDigest {
        hash: "inputs".to_owned(),
        size_in_bytes: 7,
    }
}

fn environment(pairs: &[(&str, &str)]) -> SortedVectorMap<String, String> {
    let mut map = SortedVectorMap::new();
    for (name, value) in pairs {
        map.insert((*name).to_owned(), (*value).to_owned());
    }
    map
}

fn none() -> &'static Vec<u8> {
    Box::leak(Box::new(Vec::new()))
}

fn prepared_with(
    platform: Platform,
    outputs: Vec<(String, OutputType)>,
    behavior: OutputPathsBehavior,
    worker: Option<RemoteWorkerSpec>,
    timeout: Option<Duration>,
) -> Result<PreparedAction<'static, u8, u8>, String> {
    re_create_action(
        texts(&["ignored"]),
        texts(&["tool", "ignored"]),
        &outputs,
        &"work".to_owned(),
        &environment(&[("B", "2"), ("A", "1")]),
        &input_digest(),
        timeout,
        platform,
        false,
        &digest_command,
        behavior,
        None,
        none(),
        none(),
        &worker,
    )
    .map_err(|error| error.to_text())
}

fn encoded_action(platform: Platform) -> PreparedAction<'static, u8, u8> {
    prepared_with(
        platform,
        Vec::new(),
        OutputPathsBehavior::Compatibility,
        None,
        None,
    )
    .expect("building an action with no outputs and no worker cannot fail")
}

#[test]
fn an_encoded_action_names_its_platform() {
    let prepared = encoded_action(platform_of(&[("OSFamily", "linux")]));
    let action = prepared.action_and_blobs.action;

    assert_eq!(
        names_and_values(&action.platform.expect("the action names a platform")),
        vec![("OSFamily".to_owned(), "linux".to_owned())]
    );
}

#[test]
fn an_encoded_action_and_its_command_name_the_same_platform() {
    let platform = platform_of(&[("container-image", "docker://img"), ("OSFamily", "linux")]);
    let prepared = encoded_action(platform);
    let action = prepared.action_and_blobs.action;
    let command = prepared.action_and_blobs.command;

    let command_digest = action
        .command_digest
        .expect("the action names its command");
    assert_eq!(command_digest.hash, digest_command(&command).hash);
    let expected = vec![
        ("OSFamily".to_owned(), "linux".to_owned()),
        ("container-image".to_owned(), "docker://img".to_owned()),
    ];
    assert_eq!(
        names_and_values(&action.platform.expect("the action names a platform")),
        expected
    );
    let command_platform = command.platform.expect("the command names a platform");
    assert_eq!(names_and_values(&command_platform), expected);
}

#[test]
fn sorting_orders_properties_by_name_then_value() {
    let sorted = sorted_platform(platform_of(&[("b", "2"), ("a", "2"), ("a", "1")]));

    assert_eq!(
        names_and_values(&sorted),
        vec![
            ("a".to_owned(), "1".to_owned()),
            ("a".to_owned(), "2".to_owned()),
            ("b".to_owned(), "2".to_owned()),
        ]
    );
}

#[test]
fn sorting_leaves_an_already_ordered_platform_alone() {
    let ordered = [("OSFamily", "linux"), ("container-image", "docker://img")];

    assert_eq!(
        names_and_values(&sorted_platform(platform_of(&ordered))),
        names_and_values(&platform_of(&ordered))
    );
}

#[test]
fn sorting_moves_an_appended_worker_key_into_place() {
    let sorted = sorted_platform(platform_of(&[
        ("OSFamily", "linux"),
        ("persistentWorkerKey", "abc"),
        ("container-image", "docker://img"),
    ]));

    assert_eq!(
        names_and_values(&sorted),
        vec![
            ("OSFamily".to_owned(), "linux".to_owned()),
            ("container-image".to_owned(), "docker://img".to_owned()),
            ("persistentWorkerKey".to_owned(), "abc".to_owned()),
        ]
    );
}

#[test]
fn sorting_orders_texts_as_std_does() {
    let pairs = [
        ("\u{e9}", "x"),
        ("z", ""),
        ("ab", "x"),
        ("a", "y"),
        ("", "q"),
        ("\u{1f600}", "x"),
        ("\u{ffff}", "x"),
        ("a", "x"),
        ("a", "x"),
    ];
    let mut expected: Vec<(String, String)> = pairs
        .iter()
        .map(|(n, v)| ((*n).to_owned(), (*v).to_owned()))
        .collect();
    expected.sort();
    assert_eq!(
        names_and_values(&sorted_platform(platform_of(&pairs))),
        expected
    );
}

#[test]
fn the_order_of_the_given_properties_does_not_matter() {
    let one = encoded_action(platform_of(&[("a", "1"), ("b", "2"), ("c", "3")]));
    let other = encoded_action(platform_of(&[("c", "3"), ("a", "1"), ("b", "2")]));
    assert_eq!(
        names_and_values(&one.platform),
        names_and_values(&other.platform)
    );
}

#[test]
fn an_action_without_a_worker_runs_the_whole_command_line() {
    let prepared = encoded_action(platform_of(&[]));
    let command = &prepared.action_and_blobs.command;
    assert_eq!(command.arguments, texts(&["tool", "ignored"]));
    assert_eq!(command.working_directory, "work");
    let variables: Vec<(&str, &str)> = command
        .environment_variables
        .iter()
        .map(|v| (v.name.as_str(), v.value.as_str()))
        .collect();
    assert_eq!(variables, vec![("A", "1"), ("B", "2")]);
    let action = &prepared.action_and_blobs.action;
    let root = action.input_root_digest.as_ref().unwrap();
    assert_eq!((root.hash.as_str(), root.size_bytes), ("inputs", 7));
    let named = action.command_digest.as_ref().unwrap();
    assert_eq!((named.hash.as_str(), named.size_bytes), ("tool+ignored", 2));
    assert!(!action.do_not_cache);
    assert!(action.timeout.is_none());
    assert!(prepared.worker_tool_init_action.is_none());
}

#[test]
fn an_action_for_a_worker_names_what_starts_it() {
    let worker = RemoteWorkerSpec {
        init: texts(&["serve", "--quiet"]),
        env: environment(&[("W", "1")]),
        input_digest: TDigest {
            hash: "worker".to_owned(),
            size_in_bytes: 3,
        },
    };
    let prepared = prepared_with(
        platform_of(&[("b", "1"), ("a", "1")]),
        vec![("out".to_owned(), OutputType::File)],
        OutputPathsBehavior::Compatibility,
        Some(worker),
        Some(Duration::from_millis(1500)),
    )
    .unwrap();
    assert_eq!(
        prepared.action_and_blobs.command.arguments,
        texts(&["ignored"])
    );
    let init = prepared.worker_tool_init_action.unwrap();
    assert_eq!(init.command.arguments, texts(&["serve", "--quiet"]));
    assert!(init.command.output_files.is_empty());
    assert_eq!(init.command.environment_variables[0].name, "W");
    let wire = init.action.timeout.unwrap();
    assert_eq!((wire.seconds, wire.nanos), (1, 500_000_000));
    assert_eq!(init.action.input_root_digest.unwrap().hash, "worker");
    assert_eq!(init.action.command_digest.unwrap().hash, "serve+--quiet");
    assert_eq!(
        names_and_values(&init.action.platform.unwrap()),
        names_and_values(&prepared.platform)
    );
}

fn listed(behavior: OutputPathsBehavior) -> (Vec<String>, Vec<String>, Vec<String>) {
    let outputs = vec![
        ("either".to_owned(), OutputType::FileOrDirectory),
        ("file".to_owned(), OutputType::File),
        ("dir".to_owned(), OutputType::Directory),
    ];
    let command = prepared_with(platform_of(&[]), outputs, behavior, None, None)
        .unwrap()
        .action_and_blobs
        .command;
    (
        command.output_files,
        command.output_directories,
        command.output_paths,
    )
}

#[test]
fn outputs_are_listed_as_the_behavior_asks() {
    assert_eq!(
        listed(OutputPathsBehavior::Compatibility),
        (texts(&["either", "file"]), texts(&["either", "dir"]), texts(&[]))
    );
    assert_eq!(
        listed(OutputPathsBehavior::Strict),
        (texts(&["either", "file"]), texts(&["dir"]), texts(&[]))
    );
    assert_eq!(
        listed(OutputPathsBehavior::OutputPaths),
        (texts(&[]), texts(&[]), texts(&["either", "file", "dir"]))
    );
}

#[test]
fn a_timeout_that_the_wire_cannot_hold_is_an_error() {
    let error = prepared_with(
        platform_of(&[]),
        Vec::new(),
        OutputPathsBehavior::Strict,
        None,
        Some(Duration::from_secs(u64::MAX)),
    )
    .unwrap_err();
    assert_eq!(
        error,
        "Cannot convert timeout to GRPC: failed to convert duration out of range"
    );
}

/// An executor that runs on this machine exactly what is small.
struct SmallExecutor;

impl PreparedCommandExecutor for SmallExecutor {
    type Preference = u32;

    fn is_local_execution_possible(&self, preference: u32) -> bool {
        preference < 10
    }

    fn is_full_hybrid_enabled(&self) -> bool {
        true
    }
}

fn executor(persistent: bool) -> CommandExecutor<&'static str, SmallExecutor> {
    CommandExecutor::new(
        SmallExecutor,
        "/project",
        CommandGenerationOptions {
            path_separator: PathSeparatorKind::Unix,
            output_paths_behavior: OutputPathsBehavior::Strict,
            use_bazel_protocol_remote_persistent_workers: persistent,
            network_access: Some(NetworkAccess::Loopback),
        },
        platform_of(&[("OSFamily", "linux"), ("zone", "a")]),
    )
}

fn command_request(args: &[&str], key: Option<&str>) -> CommandExecutionRequest<u8, &'static str> {
    CommandExecutionRequest {
        exe: texts(&["exe"]),
        args: texts(args),
        output_paths: vec![("out".to_owned(), OutputType::FileOrDirectory)],
        working_directory: "cell".to_owned(),
        env: SortedVectorMap::from(BTreeMap::new()),
        input_digest: input_digest(),
        timeout: None,
        worker: Some(WorkerSpec {
            exe: texts(&["worker-exe"]),
            remote_key: key.map(|key| TDigest {
                hash: key.to_owned(),
                size_in_bytes: 5,
            }),
        }),
        remote_worker: None,
        network_access: None,
        remote_execution_dependencies: vec![1, 2],
        re_gang_workers: vec!["gang"],
    }
}

#[test]
fn a_persistent_worker_key_becomes_a_property() {
    let request = command_request(&["@argfile", "-flagfile=x", "--flagfile=y"], Some("abc"));
    let executor = executor(true);
    let prepared = executor.prepare_action(&request, &digest_command).unwrap();
    assert_eq!(
        names_and_values(&prepared.platform),
        vec![
            ("OSFamily".to_owned(), "linux".to_owned()),
            ("persistentWorkerKey".to_owned(), "abc:5".to_owned()),
            ("zone".to_owned(), "a".to_owned()),
        ]
    );
    assert_eq!(
        prepared.action_and_blobs.command.arguments,
        texts(&["worker-exe", "@argfile", "-flagfile=x", "--flagfile=y"])
    );
    assert_eq!(prepared.network_access, Some(NetworkAccess::Loopback));
    assert_eq!(*prepared.remote_execution_dependencies, vec![1, 2]);
    assert_eq!(*prepared.re_gang_workers, vec!["gang"]);
}

#[test]
fn a_persistent_worker_takes_argument_files_only() {
    let request = command_request(&["@argfile", "--verbose"], Some("abc"));
    let error = executor(true)
        .prepare_action(&request, &digest_command)
        .unwrap_err();
    assert_eq!(
        error.to_text(),
        "Remote persistent worker arguments must be passed as `@argfile`, `-flagfile=argfile`, or \
         `--flagfile=argfile`."
    );
}

#[test]
fn a_request_without_a_persistent_worker_keeps_its_own_executable() {
    for (persistent, key) in [(false, Some("abc")), (true, None)] {
        let mut request = command_request(&["--verbose"], key);
        request.network_access = Some(NetworkAccess::Private);
        let executor = executor(persistent);
        let prepared = executor.prepare_action(&request, &digest_command).unwrap();
        assert_eq!(
            prepared.action_and_blobs.command.arguments,
            texts(&["exe", "--verbose"])
        );
        assert_eq!(
            names_and_values(&prepared.platform),
            names_and_values(executor.re_platform())
        );
        assert_eq!(prepared.network_access, Some(NetworkAccess::Private));
    }
}

#[test]
fn an_executor_answers_for_what_it_runs_on() {
    let executor = executor(false);
    assert!(executor.is_local_execution_possible(9));
    assert!(!executor.is_local_execution_possible(10));
    assert!(executor.is_full_hybrid_enabled());
    assert_eq!(*executor.fs(), "/project");
    let fs = executor.executor_fs();
    assert_eq!(*fs.fs, "/project");
    assert_eq!(fs.path_separator, PathSeparatorKind::Unix);
}

#[test]
fn timing_data_is_the_span_of_the_command() {
    assert_eq!(
        ActionExecutionTimingData::default().wall_time,
        Duration::zero()
    );
    let timing = ActionExecutionTimingData::from(CommandExecutionMetadata {
        time_span: TimeSpan {
            start: Duration::from_secs(100),
            duration: Duration::from_millis(20),
        },
    });
    assert_eq!(timing.wall_time, Duration::from_millis(20));
}
