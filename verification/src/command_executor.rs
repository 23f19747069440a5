//! How a request to run a command becomes an action that a remote worker can run.
use sorted_vector_map::SortedVectorMap;
use vstd::prelude::*;
use vstd::std_specs::convert::{FromSpec, FromSpecImpl};
use vstd::string::*;

use crate::convert::{fits_wire_duration, is_wire_span, wire_span, WireDuration};
use crate::digest::{digest_text, tdigest_to, Digest, TDigest};
use crate::duration::Duration;
use crate::error::Error;
use crate::messages::{property_values, Platform, Property, PropertyValue};
use crate::platform::{is_ordering_of, orderings_are_unique, sorted_platform};
use crate::text::{has_prefix, prefixes_stand_in_front, starts_with, text_before};

verus! {

/// When a command ran, and for how long.
#[derive(Clone, Copy, Debug, PartialEq, Eq, Structural)]
pub struct TimeSpan {
    /// Since the Unix epoch.
    pub start: Duration,
    pub duration: Duration,
}

/// What is known of a command that ran.
#[derive(Clone, Copy, Debug, PartialEq, Eq, Structural)]
pub struct CommandExecutionMetadata {
    pub time_span: TimeSpan,
}

/// How long an action took.
#[derive(Clone, Copy, Debug, PartialEq, Eq, Structural)]
pub struct ActionExecutionTimingData {
    pub wall_time: Duration,
}

impl Default for ActionExecutionTimingData {
    fn default() -> (timing: Self)
        ensures
            timing.wall_time@ == 0,
    {
        ActionExecutionTimingData { wall_time: Duration::zero() }
    }
}

impl From<CommandExecutionMetadata> for ActionExecutionTimingData {
    fn from(command: CommandExecutionMetadata) -> (timing: Self) {
        ActionExecutionTimingData { wall_time: command.time_span.duration }
    }
}

impl FromSpecImpl<CommandExecutionMetadata> for ActionExecutionTimingData {
    open spec fn obeys_from_spec() -> bool {
        true
    }

    open spec fn from_spec(command: CommandExecutionMetadata) -> Self {
        ActionExecutionTimingData { wall_time: command.time_span.duration }
    }
}

/// A variable of a command's environment.
#[derive(Debug)]
pub struct EnvironmentVariable {
    pub name: String,
    pub value: String,
}

/// What a variable says: its name and its value.
pub type VariableValue = (Seq<char>, Seq<char>);

impl View for EnvironmentVariable {
    type V = VariableValue;

    open spec fn view(&self) -> VariableValue {
        (self.name@, self.value@)
    }
}

/// What an action runs, as the wire carries it.
#[derive(Debug)]
pub struct Command {
    pub arguments: Vec<String>,
    pub environment_variables: Vec<EnvironmentVariable>,
    pub output_files: Vec<String>,
    pub output_directories: Vec<String>,
    pub output_paths: Vec<String>,
    pub platform: Option<Platform>,
    pub working_directory: String,
}

/// What a worker is asked to do, as the wire carries it.
#[derive(Debug)]
pub struct Action {
    pub command_digest: Option<Digest>,
    pub input_root_digest: Option<Digest>,
    pub timeout: Option<WireDuration>,
    pub do_not_cache: bool,
    pub platform: Option<Platform>,
}

/// What an output is expected to be.
#[derive(Clone, Copy, Debug, PartialEq, Eq, Structural)]
pub enum OutputType {
    FileOrDirectory,
    File,
    Directory,
}

/// Under which headings a command lists its outputs.
#[derive(Clone, Copy, Debug, PartialEq, Eq, Structural)]
pub enum OutputPathsBehavior {
    /// An output that may be either is listed both as a file and as a directory.
    Compatibility,
    /// An output that may be either is listed as a file.
    Strict,
    /// All outputs are listed as paths.
    OutputPaths,
}

/// How much of the network an action may reach.
#[derive(Clone, Copy, Debug, PartialEq, Eq, Structural)]
pub enum NetworkAccess {
    All,
    Nothing,
    Strict,
    Loopback,
    Private,
}

/// A worker that is started once, remotely, and then serves many actions.
#[derive(Debug)]
pub struct RemoteWorkerSpec {
    /// The command line that starts it.
    pub init: Vec<String>,
    pub env: SortedVectorMap<String, String>,
    /// The digest of the directory it is started in.
    pub input_digest: TDigest,
}

/// An action together with the command that it names. These are the two messages
/// that are uploaded, each under its digest.
#[derive(Debug)]
pub struct ActionDigestAndBlobs {
    pub action: Action,
    pub command: Command,
}

/// An action that is ready to be run remotely.
#[derive(Debug)]
pub struct PreparedAction<'a, D, G> {
    pub action_and_blobs: ActionDigestAndBlobs,
    pub platform: Platform,
    pub remote_execution_dependencies: &'a Vec<D>,
    pub re_gang_workers: &'a Vec<G>,
    /// What starts the worker that the action is handed to, if it needs one.
    pub worker_tool_init_action: Option<ActionDigestAndBlobs>,
    pub network_access: Option<NetworkAccess>,
}

/// A map whose entries are kept in the order of their keys.
#[verifier::external_type_specification]
#[verifier::external_body]
#[verifier::reject_recursive_types(K)]
#[verifier::reject_recursive_types(V)]
pub struct ExSortedVectorMap<K, V>(SortedVectorMap<K, V>);

/// The entries of an environment, in the order in which it is walked.
pub uninterp spec fn environment_entries(
    environment: SortedVectorMap<String, String>,
) -> Seq<(Seq<char>, Seq<char>)>;

/// What pairs of texts say.
pub open spec fn pair_values(pairs: Seq<(String, String)>) -> Seq<VariableValue> {
    pairs.map_values(|pair: (String, String)| (pair.0@, pair.1@))
}

/// `sorted_vector_map::SortedVectorMap::iter`: hands out the entries in the order of
/// their keys, no key twice. Keys are texts, which std orders by their bytes and so
/// by their characters.
#[verifier::external_body]
fn walk_environment(environment: &SortedVectorMap<String, String>) -> (entries: Vec<
    (String, String),
>)
    ensures
        pair_values(entries@) == environment_entries(*environment),
        forall|i: int, j: int|
            #![trigger entries@[i], entries@[j]]
            0 <= i < j < entries@.len() ==> text_before(entries@[i].0@, entries@[j].0@),
{
    environment.iter().map(|(name, value)| (name.clone(), value.clone())).collect()
}

/// What variables say, in order.
pub open spec fn variable_values(variables: Seq<EnvironmentVariable>) -> Seq<VariableValue> {
    variables.map_values(|variable: EnvironmentVariable| variable@)
}

/// The variables are in the order of their names, and no name occurs twice.
pub open spec fn has_names_in_order(variables: Seq<EnvironmentVariable>) -> bool {
    forall|i: int, j: int|
        #![trigger variables[i], variables[j]]
        0 <= i < j < variables.len() ==> text_before(variables[i].name@, variables[j].name@)
}

/// An environment as a command lists it.
fn environment_variables(environment: &SortedVectorMap<String, String>) -> (variables: Vec<
    EnvironmentVariable,
>)
    ensures
        variable_values(variables@) == environment_entries(*environment),
        has_names_in_order(variables@),
{
    let entries = walk_environment(environment);
    let mut variables: Vec<EnvironmentVariable> = Vec::new();
    let ghost given = entries@;
    for entry in it: entries.into_iter()
        invariant
            it.seq() == given,
            variables@.len() == it.index(),
            forall|k: int|
                0 <= k < variables@.len() ==> (#[trigger] variables@[k]).name == given[k].0
                    && variables@[k].value == given[k].1,
    {
        variables.push(EnvironmentVariable { name: entry.0, value: entry.1 });
    }
    assert(variable_values(variables@) =~= pair_values(given));
    assert forall|i: int, j: int|
        #![trigger variables@[i], variables@[j]]
        0 <= i < j < variables@.len() implies text_before(
        variables@[i].name@,
        variables@[j].name@,
    ) by {
        assert(text_before(given[i].0@, given[j].0@));
    }
    variables
}

/// Whether an output is listed among the files.
pub open spec fn listed_as_file(behavior: OutputPathsBehavior, output: OutputType) -> bool {
    !(behavior is OutputPaths) && !(output is Directory)
}

/// Whether an output is listed among the directories.
pub open spec fn listed_as_directory(behavior: OutputPathsBehavior, output: OutputType) -> bool {
    match behavior {
        OutputPathsBehavior::Compatibility => !(output is File),
        OutputPathsBehavior::Strict => output is Directory,
        OutputPathsBehavior::OutputPaths => false,
    }
}

/// The paths of the outputs that `listed` picks, in order.
pub open spec fn listed_paths(
    outputs: Seq<(String, OutputType)>,
    listed: spec_fn(OutputType) -> bool,
) -> Seq<String>
    decreases outputs.len(),
{
    if outputs.len() == 0 {
        seq![]
    } else {
        let rest = listed_paths(outputs.drop_last(), listed);
        if listed(outputs.last().1) {
            rest.push(outputs.last().0)
        } else {
            rest
        }
    }
}

/// `command` lists `outputs` under the headings that `behavior` calls for.
pub open spec fn lists_outputs(
    command: Command,
    outputs: Seq<(String, OutputType)>,
    behavior: OutputPathsBehavior,
) -> bool {
    &&& command.output_files@ == listed_paths(
        outputs,
        |output: OutputType| listed_as_file(behavior, output),
    )
    &&& command.output_directories@ == listed_paths(
        outputs,
        |output: OutputType| listed_as_directory(behavior, output),
    )
    &&& command.output_paths@ == listed_paths(
        outputs,
        |output: OutputType| behavior is OutputPaths,
    )
}

/// `command` runs `arguments` in `working_directory` with `environment`, on a worker
/// that has the properties `platform`.
pub open spec fn runs(
    command: Command,
    arguments: Seq<String>,
    working_directory: String,
    environment: SortedVectorMap<String, String>,
    platform: Seq<PropertyValue>,
) -> bool {
    &&& command.arguments@ == arguments
    &&& command.working_directory == working_directory
    &&& variable_values(command.environment_variables@) == environment_entries(environment)
    &&& has_names_in_order(command.environment_variables@)
    &&& command.platform matches Some(named)
    &&& is_ordering_of(named@, platform)
}

/// `action` names `command` by its digest, starts from `input_digest`, and is held
/// to `timeout`. It names the same platform as the command does, for a scheduler may
/// read it from either.
pub open spec fn names<F: Fn(&Command) -> TDigest>(
    action: Action,
    command: Command,
    digest_command: F,
    input_digest: TDigest,
    timeout: Option<Duration>,
    do_not_cache: bool,
) -> bool {
    &&& action.command_digest matches Some(wire)
    &&& exists|digest: TDigest| #[trigger]
        call_ensures(digest_command, (&command,), digest) && wire@ == digest@
    &&& action.input_root_digest matches Some(root)
    &&& root@ == input_digest@
    &&& match timeout {
        Some(span) => action.timeout is Some && is_wire_span(span@, action.timeout),
        None => action.timeout is None,
    }
    &&& action.do_not_cache == do_not_cache
    &&& action.platform matches Some(for_action)
    &&& command.platform matches Some(for_command)
    &&& for_action@ == for_command@
}

/// A copy of a list of texts.
fn copy_texts(texts: &Vec<String>) -> (copy: Vec<String>)
    ensures
        copy@ == texts@,
{
    let mut copy: Vec<String> = Vec::new();
    let mut i: usize = 0;
    while i < texts.len()
        invariant
            i <= texts@.len(),
            copy@ == texts@.take(i as int),
        decreases texts@.len() - i,
    {
        copy.push(texts[i].clone());
        assert(copy@ =~= texts@.take(i + 1));
        i = i + 1;
    }
    assert(copy@ =~= texts@);
    copy
}

/// Lists `outputs` under the headings that `behavior` calls for, in a command that
/// lists none.
fn list_outputs(
    command: Command,
    outputs: &Vec<(String, OutputType)>,
    behavior: OutputPathsBehavior,
) -> (listing: Command)
    requires
        command.output_files@.len() == 0,
        command.output_directories@.len() == 0,
        command.output_paths@.len() == 0,
    ensures
        lists_outputs(listing, outputs@, behavior),
        listing.arguments == command.arguments,
        listing.environment_variables == command.environment_variables,
        listing.platform == command.platform,
        listing.working_directory == command.working_directory,
{
    let mut output_files: Vec<String> = Vec::new();
    let mut output_directories: Vec<String> = Vec::new();
    let mut output_paths: Vec<String> = Vec::new();
    let ghost as_file = |output: OutputType| listed_as_file(behavior, output);
    let ghost as_directory = |output: OutputType| listed_as_directory(behavior, output);
    let ghost as_path = |output: OutputType| behavior is OutputPaths;
    let mut i: usize = 0;
    while i < outputs.len()
        invariant
            i <= outputs@.len(),
            as_file == (|output: OutputType| listed_as_file(behavior, output)),
            as_directory == (|output: OutputType| listed_as_directory(behavior, output)),
            as_path == (|output: OutputType| behavior is OutputPaths),
            output_files@ == listed_paths(outputs@.take(i as int), as_file),
            output_directories@ == listed_paths(outputs@.take(i as int), as_directory),
            output_paths@ == listed_paths(outputs@.take(i as int), as_path),
        decreases outputs@.len() - i,
    {
        let path = &outputs[i].0;
        let output_type = outputs[i].1;
        assert(outputs@.take(i + 1).drop_last() =~= outputs@.take(i as int));
        assert(outputs@.take(i + 1).last() == outputs@[i as int]);
        match behavior {
            OutputPathsBehavior::Compatibility => match output_type {
                OutputType::FileOrDirectory => {
                    output_files.push(path.clone());
                    output_directories.push(path.clone());
                },
                OutputType::File => output_files.push(path.clone()),
                OutputType::Directory => output_directories.push(path.clone()),
            },
            OutputPathsBehavior::Strict => match output_type {
                OutputType::FileOrDirectory => output_files.push(path.clone()),
                OutputType::File => output_files.push(path.clone()),
                OutputType::Directory => output_directories.push(path.clone()),
            },
            OutputPathsBehavior::OutputPaths => output_paths.push(path.clone()),
        }
        i = i + 1;
    }
    assert(outputs@.take(outputs@.len() as int) =~= outputs@);
    Command {
        arguments: command.arguments,
        environment_variables: command.environment_variables,
        output_files,
        output_directories,
        output_paths,
        platform: command.platform,
        working_directory: command.working_directory,
    }
}

/// `error` says that a timeout is longer than the wire can say.
pub open spec fn timeout_does_not_fit(error: Error) -> bool {
    &&& error.root.text_spec() == "failed to convert duration out of range"@
    &&& error.layers() == seq!["Cannot convert timeout to GRPC"@]
}

/// A timeout in the wire's form.
fn wire_timeout(timeout: Option<Duration>) -> (wire: Result<Option<WireDuration>, Error>)
    ensures
        wire is Ok == (timeout matches Some(span) ==> fits_wire_duration(span@)),
        wire matches Ok(held) ==> match timeout {
            Some(span) => held is Some && is_wire_span(span@, held),
            None => held is None,
        },
        wire matches Err(error) ==> timeout_does_not_fit(error),
{
    match timeout {
        None => Ok(None),
        Some(span) => match wire_span(span) {
            Some(wire) => Ok(Some(wire)),
            None => {
                let error = Error::msg("failed to convert duration out of range".to_string());
                let error = error.context("Cannot convert timeout to GRPC".to_string());
                assert(error.layers() =~= seq!["Cannot convert timeout to GRPC"@]);
                Err(error)
            },
        },
    }
}

/// The action that runs `command`.
fn action_for<F: Fn(&Command) -> TDigest>(
    command: &Command,
    platform: Platform,
    digest_command: &F,
    input_digest: &TDigest,
    timeout: Option<Duration>,
    do_not_cache: bool,
) -> (action: Result<Action, Error>)
    requires
        call_requires(*digest_command, (command,)),
        command.platform matches Some(named) && named@ == platform@,
    ensures
        action is Ok == (timeout matches Some(span) ==> fits_wire_duration(span@)),
        action matches Ok(made) ==> names(
            made,
            *command,
            *digest_command,
            *input_digest,
            timeout,
            do_not_cache,
        ),
        action matches Err(error) ==> timeout_does_not_fit(error),
{
    let command_digest = (*digest_command)(command);
    assert(call_ensures(*digest_command, (command,), command_digest));
    match wire_timeout(timeout) {
        Ok(timeout) => Ok(
            Action {
                command_digest: Some(tdigest_to(command_digest)),
                input_root_digest: Some(tdigest_to(input_digest.clone())),
                timeout,
                do_not_cache,
                platform: Some(platform),
            },
        ),
        Err(error) => Err(error),
    }
}

/// `init` starts `worker`.
pub open spec fn starts<F: Fn(&Command) -> TDigest>(
    init: ActionDigestAndBlobs,
    worker: RemoteWorkerSpec,
    digest_command: F,
    working_directory: String,
    timeout: Option<Duration>,
    platform: Seq<PropertyValue>,
    do_not_cache: bool,
) -> bool {
    &&& runs(init.command, worker.init@, working_directory, worker.env, platform)
    &&& lists_outputs(init.command, seq![], OutputPathsBehavior::Compatibility)
    &&& names(
        init.action,
        init.command,
        digest_command,
        worker.input_digest,
        timeout,
        do_not_cache,
    )
}

/// `prepared` is an action that runs `arguments`, with all that goes with it.
pub open spec fn prepares<D, G, F: Fn(&Command) -> TDigest>(
    prepared: PreparedAction<D, G>,
    arguments: Seq<String>,
    outputs: Seq<(String, OutputType)>,
    working_directory: String,
    environment: SortedVectorMap<String, String>,
    input_digest: TDigest,
    timeout: Option<Duration>,
    platform: Seq<PropertyValue>,
    do_not_cache: bool,
    digest_command: F,
    behavior: OutputPathsBehavior,
    worker: Option<RemoteWorkerSpec>,
) -> bool {
    let command = prepared.action_and_blobs.command;
    &&& runs(command, arguments, working_directory, environment, platform)
    &&& lists_outputs(command, outputs, behavior)
    &&& names(
        prepared.action_and_blobs.action,
        command,
        digest_command,
        input_digest,
        timeout,
        do_not_cache,
    )
    &&& command.platform matches Some(named)
    &&& prepared.platform@ == named@
    &&& match worker {
        Some(spec) => {
            &&& prepared.worker_tool_init_action matches Some(init)
            &&& starts(
                init,
                spec,
                digest_command,
                working_directory,
                timeout,
                platform,
                do_not_cache,
            )
        },
        None => prepared.worker_tool_init_action is None,
    }
}

/// Prepares an action.
///
/// An action that is handed to a worker passes `args` to it and names the action
/// that starts the worker; any other runs `all_args`. The platform's properties are
/// put in order, and both the action and its command name them. `digest_command`
/// gives the digest under which a command is stored.
pub fn re_create_action<'a, D, G, F: Fn(&Command) -> TDigest>(
    args: Vec<String>,
    all_args: Vec<String>,
    outputs: &Vec<(String, OutputType)>,
    working_directory: &String,
    environment: &SortedVectorMap<String, String>,
    input_digest: &TDigest,
    timeout: Option<Duration>,
    platform: Platform,
    do_not_cache: bool,
    digest_command: &F,
    output_paths_behavior: OutputPathsBehavior,
    network_access: Option<NetworkAccess>,
    remote_execution_dependencies: &'a Vec<D>,
    re_gang_workers: &'a Vec<G>,
    worker: &Option<RemoteWorkerSpec>,
) -> (prepared: Result<PreparedAction<'a, D, G>, Error>)
    requires
        forall|command: &Command| #[trigger] call_requires(*digest_command, (command,)),
    ensures
        prepared is Ok == (timeout matches Some(span) ==> fits_wire_duration(span@)),
        prepared matches Err(error) ==> timeout_does_not_fit(error),
        prepared matches Ok(made) ==> prepares(
            made,
            if worker is Some {
                args@
            } else {
                all_args@
            },
            outputs@,
            *working_directory,
            *environment,
            *input_digest,
            timeout,
            platform@,
            do_not_cache,
            *digest_command,
            output_paths_behavior,
            *worker,
        ),
        prepared matches Ok(made) ==> {
            &&& made.network_access == network_access
            &&& made.remote_execution_dependencies == remote_execution_dependencies
            &&& made.re_gang_workers == re_gang_workers
        },
{
    let platform = sorted_platform(platform);
    let (worker_tool_init_action, command_args) = match worker {
        Some(worker) => {
            let command = Command {
                arguments: copy_texts(&worker.init),
                environment_variables: environment_variables(&worker.env),
                output_files: Vec::new(),
                output_directories: Vec::new(),
                output_paths: Vec::new(),
                platform: Some(platform.clone()),
                working_directory: working_directory.clone(),
            };
            match action_for(
                &command,
                platform.clone(),
                digest_command,
                &worker.input_digest,
                timeout,
                do_not_cache,
            ) {
                Ok(action) => (Some(ActionDigestAndBlobs { action, command }), args),
                Err(error) => {
                    return Err(error);
                },
            }
        },
        None => (None, all_args),
    };
    let command = Command {
        arguments: command_args,
        environment_variables: environment_variables(environment),
        output_files: Vec::new(),
        output_directories: Vec::new(),
        output_paths: Vec::new(),
        platform: Some(platform.clone()),
        working_directory: working_directory.clone(),
    };
    let command = list_outputs(command, outputs, output_paths_behavior);
    match action_for(
        &command,
        platform.clone(),
        digest_command,
        input_digest,
        timeout,
        do_not_cache,
    ) {
        Ok(action) => Ok(
            PreparedAction {
                action_and_blobs: ActionDigestAndBlobs { action, command },
                platform,
                remote_execution_dependencies,
                re_gang_workers,
                worker_tool_init_action,
                network_access,
            },
        ),
        Err(error) => Err(error),
    }
}

/// A worker that serves actions of this request.
#[derive(Debug)]
pub struct WorkerSpec {
    pub exe: Vec<String>,
    /// What tells remote workers of one kind from those of another.
    pub remote_key: Option<TDigest>,
}

/// A request to run a command.
#[derive(Debug)]
pub struct CommandExecutionRequest<D, G> {
    pub exe: Vec<String>,
    pub args: Vec<String>,
    pub output_paths: Vec<(String, OutputType)>,
    pub working_directory: String,
    pub env: SortedVectorMap<String, String>,
    /// The digest of the directory that the command starts from.
    pub input_digest: TDigest,
    pub timeout: Option<Duration>,
    pub worker: Option<WorkerSpec>,
    pub remote_worker: Option<RemoteWorkerSpec>,
    pub network_access: Option<NetworkAccess>,
    pub remote_execution_dependencies: Vec<D>,
    pub re_gang_workers: Vec<G>,
}

impl<D, G> CommandExecutionRequest<D, G> {
    /// The command line: the executable with the arguments behind it.
    pub fn all_args_vec(&self) -> (all_args: Vec<String>)
        ensures
            all_args@ == self.exe@ + self.args@,
    {
        joined_texts(&self.exe, &self.args)
    }
}

/// Which separator paths are written with.
#[derive(Clone, Copy, Debug, PartialEq, Eq, Structural)]
pub enum PathSeparatorKind {
    Unix,
    Windows,
}

/// How commands are made out.
#[derive(Clone, Copy, Debug, PartialEq, Eq, Structural)]
pub struct CommandGenerationOptions {
    pub path_separator: PathSeparatorKind,
    pub output_paths_behavior: OutputPathsBehavior,
    pub use_bazel_protocol_remote_persistent_workers: bool,
    /// What a request that does not say may reach.
    pub network_access: Option<NetworkAccess>,
}

/// Two lists of texts in one.
fn joined_texts(first: &Vec<String>, second: &Vec<String>) -> (joined: Vec<String>)
    ensures
        joined@ == first@ + second@,
{
    let mut joined = copy_texts(first);
    let mut rest = copy_texts(second);
    joined.append(&mut rest);
    joined
}

/// Reports whether `arg` hands a file of arguments over.
fn is_argfile(arg: &String) -> (is: bool)
    ensures
        is == names_argfile(arg@),
{
    starts_with(arg.as_str(), "@") || starts_with(arg.as_str(), "-flagfile") || starts_with(
        arg.as_str(),
        "--flagfile",
    )
}

/// An argument that hands a file of arguments over.
pub open spec fn names_argfile(arg: Seq<char>) -> bool {
    has_prefix(arg, "@"@) || has_prefix(arg, "-flagfile"@) || has_prefix(arg, "--flagfile"@)
}

/// Every argument hands a file of arguments over.
pub open spec fn names_argfiles_only(args: Seq<String>) -> bool {
    forall|i: int| 0 <= i < args.len() ==> names_argfile((#[trigger] args[i])@)
}

/// Where file names are resolved for an executor.
#[derive(Debug)]
pub struct ExecutorFs<'a, A> {
    pub fs: &'a A,
    pub path_separator: PathSeparatorKind,
}

/// Runs commands that are prepared.
pub trait PreparedCommandExecutor {
    /// How a command likes to be run.
    type Preference;

    /// Whether a command with this preference could run on this machine.
    fn is_local_execution_possible(&self, preference: Self::Preference) -> bool;

    /// Whether local and remote runs may race.
    fn is_full_hybrid_enabled(&self) -> bool;
}

/// Makes requests out for remote workers of one platform, and knows what runs them.
#[derive(Debug)]
pub struct CommandExecutor<A, X: PreparedCommandExecutor> {
    pub inner: X,
    pub artifact_fs: A,
    pub options: CommandGenerationOptions,
    pub re_platform: Platform,
}

impl<A, X: PreparedCommandExecutor> CommandExecutor<A, X> {
    /// The key of the persistent remote worker that serves `request`, if such
    /// workers are in use and it has one.
    pub open spec fn persistent_worker_key<D, G>(
        self,
        request: CommandExecutionRequest<D, G>,
    ) -> Option<TDigest> {
        if self.options.use_bazel_protocol_remote_persistent_workers {
            match request.worker {
                Some(worker) => worker.remote_key,
                None => None,
            }
        } else {
            None
        }
    }

    /// The properties that a worker for `request` must have, the key of its
    /// persistent worker last.
    pub open spec fn wanted_platform<D, G>(
        self,
        request: CommandExecutionRequest<D, G>,
    ) -> Seq<PropertyValue> {
        match self.persistent_worker_key(request) {
            Some(key) => self.re_platform@.push(("persistentWorkerKey"@, digest_text(key@))),
            None => self.re_platform@,
        }
    }

    /// The command line of `request`: behind the worker's executable where a
    /// persistent worker serves it, behind its own otherwise.
    pub open spec fn command_line<D, G>(
        self,
        request: CommandExecutionRequest<D, G>,
    ) -> Seq<String> {
        if request.remote_worker is Some {
            request.args@
        } else if self.persistent_worker_key(request) is Some {
            request.worker->0.exe@ + request.args@
        } else {
            request.exe@ + request.args@
        }
    }

    /// The arguments of `request` cannot be handed to its persistent worker.
    pub open spec fn refuses_arguments<D, G>(self, request: CommandExecutionRequest<D, G>) -> bool {
        self.persistent_worker_key(request) is Some && !names_argfiles_only(request.args@)
    }

    /// An executor that runs commands on `inner`.
    pub fn new(
        inner: X,
        artifact_fs: A,
        options: CommandGenerationOptions,
        re_platform: Platform,
    ) -> (executor: Self)
        ensures
            executor.inner == inner,
            executor.artifact_fs == artifact_fs,
            executor.options == options,
            executor.re_platform == re_platform,
    {
        CommandExecutor { inner, artifact_fs, options, re_platform }
    }

    /// Where artifacts are found.
    pub fn fs(&self) -> (fs: &A)
        ensures
            *fs == self.artifact_fs,
    {
        &self.artifact_fs
    }

    /// Where file names are resolved for commands of this executor.
    pub fn executor_fs(&self) -> (fs: ExecutorFs<'_, A>)
        ensures
            *fs.fs == self.artifact_fs,
            fs.path_separator == self.options.path_separator,
    {
        ExecutorFs { fs: &self.artifact_fs, path_separator: self.options.path_separator }
    }

    /// The properties that a worker must have.
    pub fn re_platform(&self) -> (platform: &Platform)
        ensures
            *platform == self.re_platform,
    {
        &self.re_platform
    }

    /// Whether a command with this preference could run on this machine.
    pub fn is_local_execution_possible(&self, executor_preference: X::Preference) -> (possible:
        bool)
        ensures
            call_ensures(
                X::is_local_execution_possible,
                (&self.inner, executor_preference),
                possible,
            ),
    {
        self.inner.is_local_execution_possible(executor_preference)
    }

    /// Whether local and remote runs may race.
    pub fn is_full_hybrid_enabled(&self) -> (enabled: bool)
        ensures
            call_ensures(X::is_full_hybrid_enabled, (&self.inner,), enabled),
    {
        self.inner.is_full_hybrid_enabled()
    }

    /// Prepares the action that runs `request`.
    ///
    /// Where a persistent worker serves the request, its key becomes a property of
    /// the platform, and every argument must hand a file of arguments over.
    pub fn prepare_action<'a, D, G, F: Fn(&Command) -> TDigest>(
        &self,
        request: &'a CommandExecutionRequest<D, G>,
        digest_command: &F,
    ) -> (prepared: Result<PreparedAction<'a, D, G>, Error>)
        requires
            forall|command: &Command| #[trigger] call_requires(*digest_command, (command,)),
        ensures
            prepared is Ok == (!self.refuses_arguments(*request) && (
            request.timeout matches Some(span) ==> fits_wire_duration(span@))),
            prepared matches Err(error) ==> if self.refuses_arguments(*request) {
                error.says(
                    "Remote persistent worker arguments must be passed as `@argfile`, `-flagfile=argfile`, or `--flagfile=argfile`."@,
                )
            } else {
                timeout_does_not_fit(error)
            },
            prepared matches Ok(made) ==> prepares(
                made,
                self.command_line(*request),
                request.output_paths@,
                request.working_directory,
                request.env,
                request.input_digest,
                request.timeout,
                self.wanted_platform(*request),
                false,
                *digest_command,
                self.options.output_paths_behavior,
                request.remote_worker,
            ),
            prepared matches Ok(made) ==> {
                &&& made.network_access == (if request.network_access is Some {
                    request.network_access
                } else {
                    self.options.network_access
                })
                &&& *made.remote_execution_dependencies == request.remote_execution_dependencies
                &&& *made.re_gang_workers == request.re_gang_workers
            },
    {
        let mut platform = self.re_platform.clone();
        let mut all_args = request.all_args_vec();
        if self.options.use_bazel_protocol_remote_persistent_workers {
            if let Some(worker) = &request.worker {
                if let Some(key) = &worker.remote_key {
                    let ghost before = platform.properties@;
                    platform.properties.push(
                        Property {
                            name: "persistentWorkerKey".to_string(),
                            value: key.to_text(),
                        },
                    );
                    assert(platform@ =~= property_values(before).push(
                        ("persistentWorkerKey"@, digest_text(key@)),
                    ));
                    let mut i: usize = 0;
                    while i < request.args.len()
                        invariant
                            i <= request.args@.len(),
                            self.persistent_worker_key(*request) is Some,
                            forall|k: int|
                                0 <= k < i ==> names_argfile((#[trigger] request.args@[k])@),
                        decreases request.args@.len() - i,
                    {
                        if !is_argfile(&request.args[i]) {
                            return Err(
                                Error::msg(
                                    "Remote persistent worker arguments must be passed as `@argfile`, `-flagfile=argfile`, or `--flagfile=argfile`.".to_string(),
                                ),
                            );
                        }
                        i = i + 1;
                    }
                    all_args = joined_texts(&worker.exe, &request.args);
                }
            }
        }
        let network_access = match request.network_access {
            Some(access) => Some(access),
            None => self.options.network_access,
        };
        re_create_action(
            copy_texts(&request.args),
            all_args,
            &request.output_paths,
            &request.working_directory,
            &request.env,
            &request.input_digest,
            request.timeout,
            platform,
            false,
            digest_command,
            self.options.output_paths_behavior,
            network_access,
            &request.remote_execution_dependencies,
            &request.re_gang_workers,
            &request.remote_worker,
        )
    }
}

/// An action and its command name the same properties, in the one order that they
/// have, whichever order they were given in.
pub proof fn actions_and_commands_name_one_platform<D, G, F: Fn(&Command) -> TDigest>(
    prepared: PreparedAction<D, G>,
    arguments: Seq<String>,
    outputs: Seq<(String, OutputType)>,
    working_directory: String,
    environment: SortedVectorMap<String, String>,
    input_digest: TDigest,
    timeout: Option<Duration>,
    platform: Seq<PropertyValue>,
    do_not_cache: bool,
    digest_command: F,
    behavior: OutputPathsBehavior,
    worker: Option<RemoteWorkerSpec>,
    ordered: Seq<PropertyValue>,
)
    requires
        prepares(
            prepared,
            arguments,
            outputs,
            working_directory,
            environment,
            input_digest,
            timeout,
            platform,
            do_not_cache,
            digest_command,
            behavior,
            worker,
        ),
        is_ordering_of(ordered, platform),
    ensures
        prepared.action_and_blobs.action.platform matches Some(named) && named@ == ordered,
        prepared.action_and_blobs.command.platform matches Some(named) && named@ == ordered,
        prepared.platform@ == ordered,
        prepared.worker_tool_init_action matches Some(init) ==> {
            &&& init.action.platform matches Some(named)
            &&& named@ == ordered
            &&& init.command.platform matches Some(named)
            &&& named@ == ordered
        },
{
    orderings_are_unique(prepared.action_and_blobs.command.platform->0@, ordered);
    if let Some(init) = prepared.worker_tool_init_action {
        orderings_are_unique(init.command.platform->0@, ordered);
    }
}

proof fn listed_paths_keep_their_order(
    outputs: Seq<(String, OutputType)>,
    listed: spec_fn(OutputType) -> bool,
    picked: spec_fn((String, OutputType)) -> bool,
)
    requires
        forall|output: (String, OutputType)| #[trigger] picked(output) == listed(output.1),
    ensures
        listed_paths(outputs, listed) == outputs.filter(picked).map_values(
            |output: (String, OutputType)| output.0,
        ),
    decreases outputs.len(),
{
    reveal(Seq::filter);
    let path = |output: (String, OutputType)| output.0;
    if outputs.len() > 0 {
        let before = outputs.drop_last();
        listed_paths_keep_their_order(before, listed, picked);
        if picked(outputs.last()) {
            assert(outputs.filter(picked).map_values(path) =~= before.filter(picked).map_values(
                path,
            ).push(outputs.last().0));
        }
    } else {
        assert(outputs.filter(picked).map_values(path) =~= Seq::empty());
    }
}

/// Outputs are listed in order, each under the headings for its kind: where all go by
/// their path, all of them there and nowhere else. Otherwise a file is listed as a file
/// and a directory as a directory; what may be either is listed as a file, and in the
/// compatible way as a directory too.
pub proof fn outputs_are_listed_by_kind(
    command: Command,
    outputs: Seq<(String, OutputType)>,
    behavior: OutputPathsBehavior,
)
    requires
        lists_outputs(command, outputs, behavior),
    ensures
        behavior is OutputPaths ==> {
            &&& command.output_files@.len() == 0
            &&& command.output_directories@.len() == 0
            &&& command.output_paths@ == outputs.map_values(
                |output: (String, OutputType)| output.0,
            )
        },
        !(behavior is OutputPaths) ==> {
            &&& command.output_paths@.len() == 0
            &&& command.output_files@ == outputs.filter(
                |output: (String, OutputType)| output.1 is File || output.1 is FileOrDirectory,
            ).map_values(|output: (String, OutputType)| output.0)
        },
        behavior is Strict ==> command.output_directories@ == outputs.filter(
            |output: (String, OutputType)| output.1 is Directory,
        ).map_values(|output: (String, OutputType)| output.0),
        behavior is Compatibility ==> command.output_directories@ == outputs.filter(
            |output: (String, OutputType)| output.1 is Directory || output.1 is FileOrDirectory,
        ).map_values(|output: (String, OutputType)| output.0),
{
    let path = |output: (String, OutputType)| output.0;
    let none = |output: (String, OutputType)| false;
    let every = |output: (String, OutputType)| true;
    let file = |output: OutputType| listed_as_file(behavior, output);
    let directory = |output: OutputType| listed_as_directory(behavior, output);
    let as_path = |output: OutputType| behavior is OutputPaths;
    nothing_is_picked(outputs, none);
    everything_is_picked(outputs, every);
    if behavior is OutputPaths {
        listed_paths_keep_their_order(outputs, file, none);
        listed_paths_keep_their_order(outputs, directory, none);
        listed_paths_keep_their_order(outputs, as_path, every);
    } else {
        listed_paths_keep_their_order(outputs, as_path, none);
        listed_paths_keep_their_order(
            outputs,
            file,
            |output: (String, OutputType)| output.1 is File || output.1 is FileOrDirectory,
        );
        if behavior is Strict {
            listed_paths_keep_their_order(
                outputs,
                directory,
                |output: (String, OutputType)| output.1 is Directory,
            );
        } else {
            listed_paths_keep_their_order(
                outputs,
                directory,
                |output: (String, OutputType)|
                    output.1 is Directory || output.1 is FileOrDirectory,
            );
        }
    }
}

proof fn nothing_is_picked(
    outputs: Seq<(String, OutputType)>,
    none: spec_fn((String, OutputType)) -> bool,
)
    requires
        forall|output: (String, OutputType)| !(#[trigger] none(output)),
    ensures
        outputs.filter(none).len() == 0,
    decreases outputs.len(),
{
    reveal(Seq::filter);
    if outputs.len() > 0 {
        nothing_is_picked(outputs.drop_last(), none);
    }
}

proof fn everything_is_picked(
    outputs: Seq<(String, OutputType)>,
    every: spec_fn((String, OutputType)) -> bool,
)
    requires
        forall|output: (String, OutputType)| #[trigger] every(output),
    ensures
        outputs.filter(every) == outputs,
    decreases outputs.len(),
{
    reveal(Seq::filter);
    if outputs.len() > 0 {
        everything_is_picked(outputs.drop_last(), every);
        assert(outputs.drop_last().push(outputs.last()) =~= outputs);
    }
}

/// A prepared action says what was asked for: the command line, the directory and the
/// environment in the command, the digest of that command, the inputs and the timeout
/// in the action, and the properties, none lost and none added, in both.
pub proof fn prepared_actions_say_what_was_asked<D, G, F: Fn(&Command) -> TDigest>(
    prepared: PreparedAction<D, G>,
    arguments: Seq<String>,
    outputs: Seq<(String, OutputType)>,
    working_directory: String,
    environment: SortedVectorMap<String, String>,
    input_digest: TDigest,
    timeout: Option<Duration>,
    platform: Seq<PropertyValue>,
    do_not_cache: bool,
    digest_command: F,
    behavior: OutputPathsBehavior,
    worker: Option<RemoteWorkerSpec>,
)
    requires
        prepares(
            prepared,
            arguments,
            outputs,
            working_directory,
            environment,
            input_digest,
            timeout,
            platform,
            do_not_cache,
            digest_command,
            behavior,
            worker,
        ),
    ensures
        ({
            let action = prepared.action_and_blobs.action;
            let command = prepared.action_and_blobs.command;
            &&& command.arguments@ == arguments
            &&& command.working_directory@ == working_directory@
            &&& command.environment_variables@.map_values(
                |variable: EnvironmentVariable| (variable.name@, variable.value@),
            ) == environment_entries(environment)
            &&& lists_outputs(command, outputs, behavior)
            &&& action.command_digest is Some
            &&& exists|digest: TDigest| #[trigger]
                call_ensures(digest_command, (&command,), digest)
                    && action.command_digest->0.hash@ == digest.hash@
                    && action.command_digest->0.size_bytes == digest.size_in_bytes
            &&& action.input_root_digest is Some
            &&& action.input_root_digest->0.hash@ == input_digest.hash@
            &&& action.input_root_digest->0.size_bytes == input_digest.size_in_bytes
            &&& action.do_not_cache == do_not_cache
            &&& action.timeout is Some <==> timeout is Some
            &&& timeout is Some ==> action.timeout->0.seconds * 1_000_000_000
                + action.timeout->0.nanos == timeout->0@
            &&& command.platform is Some
            &&& command.platform->0@.to_multiset() == platform.to_multiset()
            &&& action.platform is Some
            &&& action.platform->0@ == command.platform->0@
            &&& prepared.platform@ == command.platform->0@
            &&& prepared.worker_tool_init_action is Some <==> worker is Some
        }),
{
    let command = prepared.action_and_blobs.command;
    assert(command.environment_variables@.map_values(
        |variable: EnvironmentVariable| (variable.name@, variable.value@),
    ) =~= variable_values(command.environment_variables@));
}

/// The action that starts a worker runs the worker's own command line with its own
/// environment and inputs, lists no outputs, and is held to the same timeout.
pub proof fn workers_are_started_by_their_own_command<D, G, F: Fn(&Command) -> TDigest>(
    prepared: PreparedAction<D, G>,
    arguments: Seq<String>,
    outputs: Seq<(String, OutputType)>,
    working_directory: String,
    environment: SortedVectorMap<String, String>,
    input_digest: TDigest,
    timeout: Option<Duration>,
    platform: Seq<PropertyValue>,
    do_not_cache: bool,
    digest_command: F,
    behavior: OutputPathsBehavior,
    worker: RemoteWorkerSpec,
)
    requires
        prepares(
            prepared,
            arguments,
            outputs,
            working_directory,
            environment,
            input_digest,
            timeout,
            platform,
            do_not_cache,
            digest_command,
            behavior,
            Some(worker),
        ),
    ensures
        prepared.worker_tool_init_action is Some,
        ({
            let init = prepared.worker_tool_init_action->0;
            &&& init.command.arguments@ == worker.init@
            &&& init.command.working_directory@ == working_directory@
            &&& variable_values(init.command.environment_variables@) == environment_entries(
                worker.env,
            )
            &&& init.command.output_files@.len() == 0
            &&& init.command.output_directories@.len() == 0
            &&& init.command.output_paths@.len() == 0
            &&& init.action.input_root_digest is Some
            &&& init.action.input_root_digest->0@ == worker.input_digest@
            &&& init.action.do_not_cache == do_not_cache
            &&& init.action.timeout is Some <==> timeout is Some
            &&& timeout is Some ==> init.action.timeout->0.seconds * 1_000_000_000
                + init.action.timeout->0.nanos == timeout->0@
            &&& init.action.platform is Some
            &&& init.action.platform->0@.to_multiset() == platform.to_multiset()
        }),
{
}

/// A request is refused only for arguments that its persistent worker cannot take, or
/// for a timeout that the wire cannot carry; and is never marked as one not to cache.
/// It runs behind the executable of its persistent worker where it has one, passes just
/// its arguments to a worker that is started for it, and runs its own executable
/// otherwise. What it may reach is up to the request first.
pub proof fn requests_run_on_their_worker<
    A,
    X: PreparedCommandExecutor,
    D,
    G,
    F: Fn(&Command) -> TDigest,
>(
    executor: CommandExecutor<A, X>,
    request: CommandExecutionRequest<D, G>,
    digest_command: F,
    prepared: Result<PreparedAction<D, G>, Error>,
)
    requires
        call_ensures(
            CommandExecutor::<A, X>::prepare_action::<D, G, F>,
            (&executor, &request, &digest_command),
            prepared,
        ),
    ensures
        ({
            let persistent = executor.options.use_bazel_protocol_remote_persistent_workers
                && request.worker is Some && request.worker->0.remote_key is Some;
            let refused = persistent && exists|i: int|
                0 <= i < request.args@.len() && !names_argfile((#[trigger] request.args@[i])@);
            let too_long = request.timeout is Some && request.timeout->0@ / 1_000_000_000nat
                > i64::MAX;
            &&& prepared is Err <==> refused || too_long
            &&& refused ==> prepared->Err_0.says(
                "Remote persistent worker arguments must be passed as `@argfile`, `-flagfile=argfile`, or `--flagfile=argfile`."@,
            )
            &&& too_long && !refused ==> prepared->Err_0.root.text_spec()
                == "failed to convert duration out of range"@
            &&& prepared matches Ok(made) ==> {
                let command = made.action_and_blobs.command;
                &&& !made.action_and_blobs.action.do_not_cache
                &&& made.action_and_blobs.action.input_root_digest is Some
                &&& made.action_and_blobs.action.input_root_digest->0@ == request.input_digest@
                &&& command.working_directory@ == request.working_directory@
                &&& request.remote_worker is Some ==> command.arguments@ == request.args@
                &&& request.remote_worker is None && persistent ==> command.arguments@
                    == request.worker->0.exe@ + request.args@
                &&& request.remote_worker is None && !persistent ==> command.arguments@
                    == request.exe@ + request.args@
                &&& persistent ==> command.platform->0@.to_multiset()
                    == executor.re_platform@.push(
                    (
                        "persistentWorkerKey"@,
                        digest_text(request.worker->0.remote_key->0@),
                    ),
                ).to_multiset()
                &&& !persistent ==> command.platform->0@.to_multiset()
                    == executor.re_platform@.to_multiset()
                &&& lists_outputs(
                    command,
                    request.output_paths@,
                    executor.options.output_paths_behavior,
                )
                &&& request.network_access is Some ==> made.network_access
                    == request.network_access
                &&& request.network_access is None ==> made.network_access
                    == executor.options.network_access
            }
        }),
{
}

/// An argument hands a file of arguments over exactly where it starts with one of the
/// marks for that.
pub proof fn argument_files_are_marked(arg: Seq<char>)
    ensures
        names_argfile(arg) <==> "@"@.is_prefix_of(arg) || "-flagfile"@.is_prefix_of(arg)
            || "--flagfile"@.is_prefix_of(arg),
{
    prefixes_stand_in_front(arg, "@"@);
    prefixes_stand_in_front(arg, "-flagfile"@);
    prefixes_stand_in_front(arg, "--flagfile"@);
}

/// A command is started by its program, and what the program is given comes behind it.
pub proof fn programs_stand_in_front<D, G>(
    request: CommandExecutionRequest<D, G>,
    all_args: Vec<String>,
    i: int,
)
    requires
        call_ensures(CommandExecutionRequest::<D, G>::all_args_vec, (&request,), all_args),
    ensures
        all_args@.len() == request.exe@.len() + request.args@.len(),
        0 <= i < request.exe@.len() ==> all_args@[i] == request.exe@[i],
        0 <= i < request.args@.len() ==> all_args@[request.exe@.len() + i] == request.args@[i],
{
}

/// An action whose timeout is beyond what the wire can hold is not made out, and every
/// other one is.
pub proof fn only_overlong_timeouts_fail(timeout: Duration, error: Error)
    requires
        timeout_does_not_fit(error),
    ensures
        fits_wire_duration(timeout@) <==> timeout@ < 9_223_372_036_854_775_808
            * 1_000_000_000,
        error.root.text_spec() == "failed to convert duration out of range"@,
        error.layers().len() == 1,
        error.layers()[0] == "Cannot convert timeout to GRPC"@,
{
}

/// An action took as long as its command.
pub proof fn actions_take_as_long_as_their_command(command: CommandExecutionMetadata)
    ensures
        <ActionExecutionTimingData as FromSpec<CommandExecutionMetadata>>::obeys_from_spec(),
        <ActionExecutionTimingData as FromSpec<CommandExecutionMetadata>>::from_spec(
            command,
        ).wall_time == command.time_span.duration,
{
}

} // verus!
