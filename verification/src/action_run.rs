//! What is recorded of an action that ran, for the build and for its log.
use vstd::prelude::*;
use vstd::string::*;

use crate::attribution::{
    attach_cas_missing_recovery_outcome, charged_batch, charged_states, charges,
    inputs_for_cas_missing_recovery, only_selected_and_armed_runs_are_charged,
    record_cas_missing_recovery_repair, recovery_applies, ActionOutputs, ArtifactGroupValues,
    ArtifactValue, ExecuteError, RecoveryNotice, RunActionKnobs,
};
use crate::cas_missing_recovery::{
    ActionKey, BatchState, CasRecoveryBatch, RecoveryStates, UserComputationData,
};
use crate::convert::{is_wire_span, wire_span, WireDuration};
use crate::duration::Duration;
use crate::missing_cas_digests::BuildError;
use crate::text::{contains, has_substring, substrings_split_the_text};

verus! {

/// Where an action's result came from.
#[derive(Clone, Copy, Debug, PartialEq, Eq, Structural)]
pub enum ActionExecutionKind {
    NotSet,
    Local,
    Remote,
    ActionCache,
    Simple,
    Deferred,
    LocalDepFile,
    LocalWorker,
    RemoteDepFileCache,
    LocalActionCache,
}

impl ActionExecutionKind {
    /// The result was made or found on this machine.
    pub open spec fn is_local_spec(self) -> bool {
        ||| self is Local
        ||| self is LocalWorker
        ||| self is LocalDepFile
        ||| self is LocalActionCache
    }

    /// Reports whether the result was made or found on this machine.
    pub fn is_local(&self) -> (local: bool)
        ensures
            local == self.is_local_spec(),
    {
        match self {
            ActionExecutionKind::Local
            | ActionExecutionKind::LocalWorker
            | ActionExecutionKind::LocalDepFile
            | ActionExecutionKind::LocalActionCache => true,
            _ => false,
        }
    }
}

/// How storing a result in a cache went.
#[derive(Clone, Copy, Debug, PartialEq, Eq, Structural)]
pub enum UploadResult {
    NotAttempted,
    NonCommandAction,
    ActionNotSuccessful,
    Uploaded,
    Rejected,
}

/// Whether an action's result may stand in for that of another.
#[derive(Clone, Copy, Debug, PartialEq, Eq, Structural)]
pub enum EligibleForDedupe {
    Eligible,
    IneligibleOutput,
    IneligibleInput,
}

/// Whether the author of an action expects that.
#[derive(Clone, Copy, Debug, PartialEq, Eq, Structural)]
pub enum ExpectedEligibleForDedupe {
    UnknownEligibility,
    ExpectedEligible,
    ExpectedIneligible,
}

/// Whether an action's result may stand in for that of another: its outputs must be
/// known by content, and all of its inputs must allow it. Otherwise the reason is that
/// of the outputs or of the first input that does not allow it.
pub open spec fn dedupe_verdict(
    outputs_are_content_based: bool,
    inputs: Seq<EligibleForDedupe>,
) -> EligibleForDedupe
    decreases inputs.len(),
{
    if !outputs_are_content_based {
        EligibleForDedupe::IneligibleOutput
    } else if inputs.len() == 0 {
        EligibleForDedupe::Eligible
    } else if inputs[0] != EligibleForDedupe::Eligible {
        inputs[0]
    } else {
        dedupe_verdict(outputs_are_content_based, inputs.drop_first())
    }
}

/// Decides whether an action's result may stand in for that of another.
pub fn is_action_eligible_for_dedupe(
    outputs_are_content_based: bool,
    inputs: &Vec<EligibleForDedupe>,
) -> (verdict: EligibleForDedupe)
    ensures
        verdict == dedupe_verdict(outputs_are_content_based, inputs@),
{
    if !outputs_are_content_based {
        return EligibleForDedupe::IneligibleOutput;
    }
    let mut i: usize = 0;
    assert(inputs@.skip(0) =~= inputs@);
    while i < inputs.len()
        invariant
            outputs_are_content_based,
            i <= inputs@.len(),
            dedupe_verdict(true, inputs@) == dedupe_verdict(true, inputs@.skip(i as int)),
        decreases inputs@.len() - i,
    {
        if inputs[i] != EligibleForDedupe::Eligible {
            return inputs[i];
        }
        assert(inputs@.skip(i as int).drop_first() =~= inputs@.skip(i + 1));
        i = i + 1;
    }
    EligibleForDedupe::Eligible
}

/// An action's result may stand in for that of another exactly when its outputs and
/// all of its inputs allow it.
pub proof fn dedupe_needs_everything(
    outputs_are_content_based: bool,
    inputs: Seq<EligibleForDedupe>,
)
    ensures
        dedupe_verdict(outputs_are_content_based, inputs) == EligibleForDedupe::Eligible
            <==> outputs_are_content_based && forall|i: int|
            0 <= i < inputs.len() ==> #[trigger] inputs[i] == EligibleForDedupe::Eligible,
    decreases inputs.len(),
{
    if outputs_are_content_based && inputs.len() > 0 && inputs[0] == EligibleForDedupe::Eligible {
        dedupe_needs_everything(outputs_are_content_based, inputs.drop_first());
        assert forall|i: int| 0 <= i < inputs.len() && dedupe_verdict(true, inputs)
            == EligibleForDedupe::Eligible implies #[trigger] inputs[i]
            == EligibleForDedupe::Eligible by {
            if i > 0 {
                assert(inputs.drop_first()[i - 1] == EligibleForDedupe::Eligible);
            }
        }
    }
}

/// What ran a command.
#[derive(Debug)]
pub struct CommandExecutionKind {
    pub kind: ActionExecutionKind,
    /// The platform that ran it, where it ran remotely.
    pub re_platform_name: Option<String>,
}

/// How a command ended.
#[derive(Debug)]
pub enum CommandExecutionStatus {
    Success { kind: CommandExecutionKind },
    Cancelled { execution_kind: Option<CommandExecutionKind> },
    Failure { kind: CommandExecutionKind },
    WorkerFailure { kind: CommandExecutionKind },
    TimedOut { kind: CommandExecutionKind, duration: Duration },
    Error { execution_kind: Option<CommandExecutionKind>, stage: String, error: BuildError },
}

impl CommandExecutionStatus {
    /// What ran the command, if anything did.
    pub open spec fn kind_spec(self) -> Option<CommandExecutionKind> {
        match self {
            CommandExecutionStatus::Success { kind } => Some(kind),
            CommandExecutionStatus::Cancelled { execution_kind } => execution_kind,
            CommandExecutionStatus::Failure { kind } => Some(kind),
            CommandExecutionStatus::WorkerFailure { kind } => Some(kind),
            CommandExecutionStatus::TimedOut { kind, .. } => Some(kind),
            CommandExecutionStatus::Error { execution_kind, .. } => execution_kind,
        }
    }

    /// What ran the command, if anything did.
    pub fn execution_kind(&self) -> (kind: Option<&CommandExecutionKind>)
        ensures
            match self.kind_spec() {
                Some(k) => kind == Some(&k),
                None => kind is None,
            },
    {
        match self {
            CommandExecutionStatus::Success { kind } => Some(kind),
            CommandExecutionStatus::Cancelled { execution_kind } => execution_kind.as_ref(),
            CommandExecutionStatus::Failure { kind } => Some(kind),
            CommandExecutionStatus::WorkerFailure { kind } => Some(kind),
            CommandExecutionStatus::TimedOut { kind, .. } => Some(kind),
            CommandExecutionStatus::Error { execution_kind, .. } => execution_kind.as_ref(),
        }
    }
}

/// What was measured of a command while it waited and ran.
#[derive(Clone, Copy, Debug, PartialEq, Eq, Structural)]
pub struct CommandTiming {
    pub duration: Duration,
    pub queue_duration: Option<Duration>,
    pub memory_peak: Option<u64>,
}

/// How one command of an action went.
#[derive(Debug)]
pub struct CommandExecutionReport {
    pub status: CommandExecutionStatus,
    pub exit_code: Option<i32>,
    pub timing: CommandTiming,
    pub additional_message: Option<String>,
    pub environment_id: Option<u64>,
}

/// What a command printed.
#[derive(Debug)]
pub struct StdStreams {
    pub stdout: String,
    pub stderr: String,
}

/// What ran a command, as the log shows it.
#[derive(Clone, Copy, Debug, PartialEq, Eq, Structural)]
pub struct LoggedKind {
    pub kind: ActionExecutionKind,
    /// Whether what is not relevant is left out.
    pub details_omitted: bool,
}

/// The details of a command, as the log shows them.
#[derive(Debug)]
pub struct CommandExecutionDetails {
    pub cmd_stdout: String,
    pub cmd_stderr: String,
    pub command_kind: Option<LoggedKind>,
    pub signed_exit_code: Option<i32>,
    pub metadata: CommandTiming,
    pub additional_message: Option<String>,
}

/// How a command ended, as the log shows it.
#[derive(Debug)]
pub enum LoggedStatus {
    Success,
    Cancelled,
    Failure,
    WorkerFailure,
    Timeout { duration: Option<WireDuration> },
    Error { stage: String, error: String },
}

/// A command, as the log shows it.
#[derive(Debug)]
pub struct CommandExecution {
    pub details: CommandExecutionDetails,
    pub status: LoggedStatus,
    pub environment_id: Option<u64>,
}

impl Clone for CommandExecutionDetails {
    fn clone(&self) -> (res: Self)
        ensures
            res == *self,
    {
        CommandExecutionDetails {
            cmd_stdout: self.cmd_stdout.clone(),
            cmd_stderr: self.cmd_stderr.clone(),
            command_kind: self.command_kind,
            signed_exit_code: self.signed_exit_code,
            metadata: self.metadata,
            additional_message: clone_text(&self.additional_message),
        }
    }
}

impl Clone for LoggedStatus {
    fn clone(&self) -> (res: Self)
        ensures
            res == *self,
    {
        match self {
            LoggedStatus::Success => LoggedStatus::Success,
            LoggedStatus::Cancelled => LoggedStatus::Cancelled,
            LoggedStatus::Failure => LoggedStatus::Failure,
            LoggedStatus::WorkerFailure => LoggedStatus::WorkerFailure,
            LoggedStatus::Timeout { duration } => LoggedStatus::Timeout { duration: *duration },
            LoggedStatus::Error { stage, error } => LoggedStatus::Error {
                stage: stage.clone(),
                error: error.clone(),
            },
        }
    }
}

impl Clone for CommandExecution {
    fn clone(&self) -> (res: Self)
        ensures
            res == *self,
    {
        CommandExecution {
            details: self.details.clone(),
            status: self.status.clone(),
            environment_id: self.environment_id,
        }
    }
}

/// What is not relevant of a command is left out where the action succeeded and so did
/// the command. Where the action failed, nothing is left out.
pub open spec fn omits_details(report: CommandExecutionReport, allow_omit_details: bool) -> bool {
    allow_omit_details && report.status is Success
}

/// Reports whether a command's standard output need not be fetched.
pub fn omits_command_details(report: &CommandExecutionReport, allow_omit_details: bool) -> (omits:
    bool)
    ensures
        omits == omits_details(*report, allow_omit_details),
{
    allow_omit_details && match report.status {
        CommandExecutionStatus::Success { .. } => true,
        _ => false,
    }
}

/// `details` are those of `report`, with what it printed.
pub open spec fn are_details(
    report: CommandExecutionReport,
    allow_omit_details: bool,
    streams: StdStreams,
    details: CommandExecutionDetails,
) -> bool {
    &&& details.cmd_stdout@ == if omits_details(report, allow_omit_details) {
        Seq::empty()
    } else {
        streams.stdout@
    }
    &&& details.cmd_stderr == streams.stderr
    &&& details.command_kind == match report.status.kind_spec() {
        Some(kind) => Some(
            LoggedKind {
                kind: kind.kind,
                details_omitted: omits_details(report, allow_omit_details),
            },
        ),
        None => None,
    }
    &&& details.signed_exit_code == report.exit_code
    &&& details.metadata == report.timing
    &&& details.additional_message == report.additional_message
}

/// The details of a command, as the log shows them.
pub fn command_details(
    command: &CommandExecutionReport,
    allow_omit_details: bool,
    streams: StdStreams,
) -> (details: CommandExecutionDetails)
    ensures
        are_details(*command, allow_omit_details, streams, details),
{
    let omit_details = omits_command_details(command, allow_omit_details);
    let cmd_stdout = if omit_details {
        String::new()
    } else {
        streams.stdout
    };
    let command_kind = match command.status.execution_kind() {
        Some(kind) => Some(LoggedKind { kind: kind.kind, details_omitted: omit_details }),
        None => None,
    };
    CommandExecutionDetails {
        cmd_stdout,
        cmd_stderr: streams.stderr,
        command_kind,
        signed_exit_code: command.exit_code,
        metadata: command.timing,
        additional_message: clone_text(&command.additional_message),
    }
}

/// `logged` is how the log shows `status`.
pub open spec fn logs_status(status: CommandExecutionStatus, logged: LoggedStatus) -> bool {
    match status {
        CommandExecutionStatus::Success { .. } => logged is Success,
        CommandExecutionStatus::Cancelled { .. } => logged is Cancelled,
        CommandExecutionStatus::Failure { .. } => logged is Failure,
        CommandExecutionStatus::WorkerFailure { .. } => logged is WorkerFailure,
        CommandExecutionStatus::TimedOut { duration, .. } => {
            &&& logged matches LoggedStatus::Timeout { duration: wire }
            &&& is_wire_span(duration@, wire)
        },
        CommandExecutionStatus::Error { stage, error, .. } => {
            &&& logged matches LoggedStatus::Error { stage: at, error: text }
            &&& at == stage
            &&& text@ == error.text_spec()
        },
    }
}

/// A command, as the log shows it.
pub fn command_execution_report_to_proto(
    report: &CommandExecutionReport,
    allow_omit_details: bool,
    streams: StdStreams,
) -> (command: CommandExecution)
    ensures
        are_details(*report, allow_omit_details, streams, command.details),
        logs_status(report.status, command.status),
        command.environment_id == report.environment_id,
{
    let details = command_details(report, allow_omit_details, streams);
    let status = match &report.status {
        CommandExecutionStatus::Success { .. } => LoggedStatus::Success,
        CommandExecutionStatus::Cancelled { .. } => LoggedStatus::Cancelled,
        CommandExecutionStatus::Failure { .. } => LoggedStatus::Failure,
        CommandExecutionStatus::WorkerFailure { .. } => LoggedStatus::WorkerFailure,
        CommandExecutionStatus::TimedOut { duration, .. } => LoggedStatus::Timeout {
            duration: wire_span(*duration),
        },
        CommandExecutionStatus::Error { stage, error, .. } => LoggedStatus::Error {
            stage: stage.clone(),
            error: error.to_text(),
        },
    };
    CommandExecution { details, status, environment_id: report.environment_id }
}

/// `commands` are `reports` as the log shows them, with what each printed.
pub open spec fn logs_commands(
    reports: Seq<CommandExecutionReport>,
    streams: Seq<StdStreams>,
    action_succeeded: bool,
    commands: Seq<CommandExecution>,
) -> bool {
    &&& commands.len() == reports.len()
    &&& forall|i: int|
        #![trigger commands[i]]
        0 <= i < commands.len() ==> {
            &&& are_details(reports[i], action_succeeded, streams[i], commands[i].details)
            &&& logs_status(reports[i].status, commands[i].status)
            &&& commands[i].environment_id == reports[i].environment_id
        }
}

fn clone_text(text: &Option<String>) -> (copy: Option<String>)
    ensures
        copy == *text,
{
    match text {
        Some(text) => Some(text.clone()),
        None => None,
    }
}

/// What an error of the infrastructure is.
#[derive(Clone, Copy, Debug, PartialEq, Eq, Structural)]
pub enum InfraErrorTag {
    IoNotConnected,
    ActionOom,
}

/// A text in lower case.
pub uninterp spec fn lower_case(text: Seq<char>) -> Seq<char>;

/// `str::to_lowercase`: the text in lower case, which depends on the text alone. How
/// each character changes is left unsaid.
#[verifier::external_body]
fn to_lower_case(text: &str) -> (lower: String)
    ensures
        lower@ == lower_case(text@),
{
    text.to_lowercase()
}

/// What a text in lower case says about the infrastructure: the first of the known
/// patterns that it holds.
pub open spec fn infra_error(lower: Seq<char>) -> Option<InfraErrorTag> {
    if has_substring(lower, "transport endpoint is not connected"@) {
        Some(InfraErrorTag::IoNotConnected)
    } else if has_substring(lower, "out of memory"@) {
        Some(InfraErrorTag::ActionOom)
    } else {
        None
    }
}

/// Finds the first of the known patterns in a text in lower case.
pub fn match_infra_error(lower: &str) -> (tag: Option<InfraErrorTag>)
    ensures
        tag == infra_error(lower@),
{
    if contains(lower, "transport endpoint is not connected") {
        Some(InfraErrorTag::IoNotConnected)
    } else if contains(lower, "out of memory") {
        Some(InfraErrorTag::ActionOom)
    } else {
        None
    }
}

/// What the last command printed as errors.
pub open spec fn last_stderr(last_command: Option<&CommandExecution>) -> Seq<char> {
    match last_command {
        Some(command) => command.details.cmd_stderr@,
        None => Seq::empty(),
    }
}

/// Finds signs of a failing infrastructure in what the last command printed.
pub fn check_infra_error_patterns(last_command: Option<&CommandExecution>) -> (tag: Option<
    InfraErrorTag,
>)
    ensures
        tag == infra_error(lower_case(last_stderr(last_command))),
{
    let stderr = match last_command {
        Some(command) => command.details.cmd_stderr.as_str(),
        None => {
            proof {
                reveal_strlit("");
            }
            assert(""@ =~= Seq::<char>::empty());
            ""
        },
    };
    match_infra_error(to_lower_case(stderr).as_str())
}

/// One error that an error handler made out.
#[derive(Debug)]
pub struct ActionSubError {
    pub category: String,
    pub message: Option<String>,
    pub file: Option<String>,
    pub lineno: Option<u64>,
}

/// What an error handler had to say.
#[derive(Debug)]
pub enum ActionErrorDiagnostics {
    SubErrors(Vec<ActionSubError>),
    HandlerInvocationError(String),
}

impl Clone for ActionSubError {
    fn clone(&self) -> (res: Self)
        ensures
            res == *self,
    {
        ActionSubError {
            category: self.category.clone(),
            message: clone_text(&self.message),
            file: clone_text(&self.file),
            lineno: self.lineno,
        }
    }
}

/// Two diagnostics, if there are any, say the same.
pub open spec fn same_diagnostics(
    left: Option<ActionErrorDiagnostics>,
    right: Option<ActionErrorDiagnostics>,
) -> bool {
    match (left, right) {
        (None, None) => true,
        (
            Some(ActionErrorDiagnostics::SubErrors(ours)),
            Some(ActionErrorDiagnostics::SubErrors(theirs)),
        ) => ours@ == theirs@,
        (
            Some(ActionErrorDiagnostics::HandlerInvocationError(ours)),
            Some(ActionErrorDiagnostics::HandlerInvocationError(theirs)),
        ) => ours == theirs,
        _ => false,
    }
}

fn copy_diagnostics(diagnostics: &Option<ActionErrorDiagnostics>) -> (copy: Option<
    ActionErrorDiagnostics,
>)
    ensures
        same_diagnostics(*diagnostics, copy),
{
    match diagnostics {
        None => None,
        Some(ActionErrorDiagnostics::SubErrors(errors)) => {
            let mut copies: Vec<ActionSubError> = Vec::new();
            let mut i: usize = 0;
            while i < errors.len()
                invariant
                    i <= errors@.len(),
                    copies@ == errors@.take(i as int),
                decreases errors@.len() - i,
            {
                copies.push(errors[i].clone());
                assert(copies@ =~= errors@.take(i + 1));
                i = i + 1;
            }
            assert(copies@ =~= errors@);
            Some(ActionErrorDiagnostics::SubErrors(copies))
        },
        Some(ActionErrorDiagnostics::HandlerInvocationError(text)) => Some(
            ActionErrorDiagnostics::HandlerInvocationError(text.clone()),
        ),
    }
}

/// How running an error handler went.
#[derive(Debug)]
pub enum HandlerOutcome {
    /// The handler's surroundings could not be set up.
    NotSetUp(BuildError),
    /// The handler came to errors.
    Returned(Vec<ActionSubError>),
    /// The handler came to something else; this is what is said of it.
    WrongType(String),
    /// The handler failed.
    Failed(BuildError),
}

/// `diagnostics` is what running an error handler, if there is one, comes to.
pub open spec fn diagnoses(
    handler: Option<HandlerOutcome>,
    diagnostics: Option<ActionErrorDiagnostics>,
) -> bool {
    match handler {
        None => diagnostics is None,
        Some(HandlerOutcome::NotSetUp(error)) => {
            &&& diagnostics matches Some(ActionErrorDiagnostics::HandlerInvocationError(text))
            &&& text@ == error.text_spec()
        },
        Some(HandlerOutcome::Returned(errors)) => diagnostics == Some(
            ActionErrorDiagnostics::SubErrors(errors),
        ),
        Some(HandlerOutcome::WrongType(said)) => diagnostics == Some(
            ActionErrorDiagnostics::HandlerInvocationError(said),
        ),
        Some(HandlerOutcome::Failed(error)) => {
            &&& diagnostics matches Some(ActionErrorDiagnostics::HandlerInvocationError(text))
            &&& text@ == "Error handler failed"@ + ": "@ + error.text_spec()
        },
    }
}

/// What running an error handler, if there is one, comes to: the errors that it made
/// out, or why it could not be run.
pub fn try_run_error_handler(handler: Option<HandlerOutcome>) -> (diagnostics: Option<
    ActionErrorDiagnostics,
>)
    ensures
        diagnoses(handler, diagnostics),
{
    match handler {
        None => None,
        Some(HandlerOutcome::NotSetUp(error)) => Some(
            ActionErrorDiagnostics::HandlerInvocationError(error.to_text()),
        ),
        Some(HandlerOutcome::Returned(errors)) => Some(ActionErrorDiagnostics::SubErrors(errors)),
        Some(HandlerOutcome::WrongType(said)) => Some(
            ActionErrorDiagnostics::HandlerInvocationError(said),
        ),
        Some(HandlerOutcome::Failed(error)) => {
            let mut text = "Error handler failed".to_owned();
            text.append(": ");
            text.append(error.to_text().as_str());
            Some(ActionErrorDiagnostics::HandlerInvocationError(text))
        },
    }
}

/// An action, as far as its run is recorded.
#[derive(Debug)]
pub struct RegisteredAction {
    pub key: ActionKey,
    /// Who declared the action, as messages name them.
    pub owner: String,
    pub kind: i32,
    pub category: String,
    pub identifier: Option<String>,
    pub always_print_stderr: bool,
    pub expected_eligible_for_dedupe: Option<bool>,
}

/// The name of an action, as the log shows it.
#[derive(Debug)]
pub struct LoggedName {
    pub category: String,
    pub identifier: String,
}

/// `name` is how the log names `action`.
pub open spec fn names(action: RegisteredAction, name: LoggedName) -> bool {
    &&& name.category == action.category
    &&& name.identifier@ == match action.identifier {
        Some(identifier) => identifier@,
        None => Seq::empty(),
    }
}

/// The start of an action, as the log shows it.
#[derive(Debug)]
pub struct ActionExecutionStart {
    pub key: ActionKey,
    pub kind: i32,
    pub name: LoggedName,
}

impl RegisteredAction {
    /// How the log names the action.
    pub fn logged_name(&self) -> (name: LoggedName)
        ensures
            names(*self, name),
    {
        LoggedName {
            category: self.category.clone(),
            identifier: match &self.identifier {
                Some(identifier) => identifier.clone(),
                None => String::new(),
            },
        }
    }

    /// The start of the action, as the log shows it.
    pub fn start_event(&self) -> (start: ActionExecutionStart)
        ensures
            start.key == self.key,
            start.kind == self.kind,
            names(*self, start.name),
    {
        ActionExecutionStart {
            key: self.key.clone(),
            kind: self.kind,
            name: self.logged_name(),
        }
    }

    /// Whether the author expects that the result may stand in for another.
    pub open spec fn expects_dedupe(self) -> ExpectedEligibleForDedupe {
        match self.expected_eligible_for_dedupe {
            Some(expected) => if expected {
                ExpectedEligibleForDedupe::ExpectedEligible
            } else {
                ExpectedEligibleForDedupe::ExpectedIneligible
            },
            None => ExpectedEligibleForDedupe::UnknownEligibility,
        }
    }
}

/// What waiting an action did.
#[derive(Debug)]
pub struct WaitingData {
    pub categories: Vec<String>,
}

/// What is known of the command of an action that succeeded.
#[derive(Debug)]
pub struct CommandFacts {
    pub prefers_local: bool,
    pub requires_local: bool,
    pub allows_cache_upload: bool,
    pub cache_upload_result: UploadResult,
    pub allows_dep_file_cache_upload: bool,
    pub dep_file_cache_upload_result: UploadResult,
    pub dep_file_key: Option<String>,
    pub eligible_for_full_hybrid: bool,
    pub scheduling_mode: Option<i32>,
    pub incremental_kind: i32,
}

/// What is known of an action that succeeded.
#[derive(Debug)]
pub struct ActionExecutionMetadata {
    pub execution_kind: ActionExecutionKind,
    pub wall_time: Duration,
    pub input_files_bytes: Option<u64>,
    pub waiting_data: WaitingData,
    pub command: Option<CommandFacts>,
    /// The size of the outputs together.
    pub output_bytes: u64,
}

/// Why an action failed, with what belongs to the report.
#[derive(Debug)]
pub struct ActionError {
    pub error: ExecuteError,
    pub name: LoggedName,
    pub key: ActionKey,
    pub last_command: Option<CommandExecution>,
    pub diagnostics: Option<ActionErrorDiagnostics>,
    pub infra_error_tag: Option<InfraErrorTag>,
    /// What is said of the error where it was shown before.
    pub emitted_text: String,
}

/// Whether an input changed that something depends on.
#[derive(Clone, Copy, Debug, PartialEq, Eq, Structural)]
pub enum InvalidationPath {
    Clean,
    Unknown,
    Invalidated,
}

/// What made an action run: whether anything changed, and whether a file did.
#[derive(Clone, Copy, Debug, PartialEq, Eq, Structural)]
pub struct CommandInvalidationInfo {
    pub changed_any: bool,
    pub changed_file: bool,
}

/// What changed, where that is tracked.
pub fn invalidation_info(paths: Option<(InvalidationPath, InvalidationPath)>) -> (info: Option<
    CommandInvalidationInfo,
>)
    ensures
        match paths {
            None => info is None,
            Some((normal, high)) => info == Some(
                CommandInvalidationInfo {
                    changed_any: normal is Invalidated,
                    changed_file: high is Invalidated,
                },
            ),
        },
{
    match paths {
        None => None,
        Some((normal, high)) => Some(
            CommandInvalidationInfo {
                changed_any: match normal {
                    InvalidationPath::Invalidated => true,
                    _ => false,
                },
                changed_file: match high {
                    InvalidationPath::Invalidated => true,
                    _ => false,
                },
            },
        ),
    }
}

/// What is known of the machine and of the program on it.
#[derive(Debug)]
pub struct HostFacts {
    pub hostname: Option<String>,
    pub buck2_revision: Option<String>,
    pub buck2_build_time: Option<String>,
}

/// What is known of a run beside how it ended.
#[derive(Debug)]
pub struct RunFacts {
    pub target_rule_type_name: Option<String>,
    pub invalidation: Option<CommandInvalidationInfo>,
    pub host: HostFacts,
}

/// What the commands of an action say of it together.
#[derive(Debug)]
pub struct CommandMeasures {
    pub action_digest: Option<String>,
    pub execution_time_ms: Option<u64>,
}

/// What is kept of an action for the critical path.
#[derive(Debug)]
pub struct ActionExtraData {
    pub execution_kind: ActionExecutionKind,
    pub execution_time_ms: Option<u64>,
    pub output_size: u64,
    pub target_rule_type_name: Option<String>,
    pub action_digest: Option<String>,
    pub invalidation_info: Option<CommandInvalidationInfo>,
    /// The platform that ran the action, where it ran remotely.
    pub re_platform_name: Option<String>,
}

/// What an action that ran comes to.
#[derive(Debug)]
pub struct ActionExecutionData {
    pub action_result: Result<ActionOutputs, ActionError>,
    pub wall_time: Option<Duration>,
    pub queue_duration: Option<Duration>,
    pub memory_peak: Option<u64>,
    pub extra_data: ActionExtraData,
    pub waiting_data: WaitingData,
}

/// The end of an action, as the log shows it. An error is shown in the log's own form.
#[derive(Debug)]
pub struct ActionExecutionEnd<L> {
    pub key: ActionKey,
    pub kind: i32,
    pub name: LoggedName,
    pub failed: bool,
    pub error: Option<L>,
    pub always_print_stderr: bool,
    pub wall_time: Option<WireDuration>,
    pub execution_kind: ActionExecutionKind,
    pub output_size: u64,
    pub commands: Vec<CommandExecution>,
    /// The short digests of the outputs that have one.
    pub outputs: Vec<String>,
    pub prefers_local: bool,
    pub requires_local: bool,
    pub allows_cache_upload: bool,
    pub cache_upload_result: UploadResult,
    pub allows_dep_file_cache_upload: bool,
    pub dep_file_cache_upload_result: UploadResult,
    pub dep_file_key: Option<String>,
    pub eligible_for_full_hybrid: Option<bool>,
    pub buck2_revision: Option<String>,
    pub buck2_build_time: Option<String>,
    pub hostname: Option<String>,
    pub error_diagnostics: Option<ActionErrorDiagnostics>,
    pub input_files_bytes: Option<u64>,
    pub invalidation_info: Option<CommandInvalidationInfo>,
    pub target_rule_type_name: Option<String>,
    pub scheduling_mode: Option<i32>,
    pub incremental_kind: Option<i32>,
    pub eligible_for_dedupe: EligibleForDedupe,
    pub expected_eligible_for_dedupe: ExpectedEligibleForDedupe,
}

/// The short digests of the outputs that have a digest, in order.
pub open spec fn tiny_digests(outputs: Seq<(String, ArtifactValue)>) -> Seq<Seq<char>>
    decreases outputs.len(),
{
    if outputs.len() == 0 {
        Seq::empty()
    } else {
        let before = tiny_digests(outputs.drop_last());
        match outputs.last().1.tiny_digest {
            Some(digest) => before.push(digest@),
            None => before,
        }
    }
}

fn list_tiny_digests(outputs: &ActionOutputs) -> (digests: Vec<String>)
    ensures
        digests.deep_view() == tiny_digests(outputs.outputs@),
{
    let mut digests: Vec<String> = Vec::new();
    let mut i: usize = 0;
    assert(digests.deep_view() =~= Seq::empty());
    assert(outputs.outputs@.take(0) =~= Seq::empty());
    while i < outputs.outputs.len()
        invariant
            i <= outputs.outputs@.len(),
            digests.deep_view() == tiny_digests(outputs.outputs@.take(i as int)),
        decreases outputs.outputs@.len() - i,
    {
        assert(outputs.outputs@.take(i + 1).drop_last() =~= outputs.outputs@.take(i as int));
        if let Some(digest) = &outputs.outputs[i].1.tiny_digest {
            let ghost before = digests.deep_view();
            digests.push(digest.clone());
            assert(digests.deep_view() =~= before.push(digest@));
        }
        i = i + 1;
    }
    assert(outputs.outputs@.take(i as int) =~= outputs.outputs@);
    digests
}

/// The last report, if there is one.
pub open spec fn last_report(reports: Seq<CommandExecutionReport>) -> Option<CommandExecutionReport> {
    if reports.len() > 0 {
        Some(reports.last())
    } else {
        None
    }
}

/// What ran the last command, if anything did.
pub open spec fn last_kind(reports: Seq<CommandExecutionReport>) -> Option<CommandExecutionKind> {
    match last_report(reports) {
        Some(report) => report.status.kind_spec(),
        None => None,
    }
}

/// The command failed, so that its outputs are handed to an error handler.
pub open spec fn is_command_failure(error: ExecuteError) -> bool {
    error is CommandExecutionError
}

/// What both an action that succeeded and one that failed leave behind.
pub open spec fn records_run<L>(
    action: RegisteredAction,
    reports: Seq<CommandExecutionReport>,
    facts: RunFacts,
    measures: CommandMeasures,
    data: ActionExecutionData,
    end: ActionExecutionEnd<L>,
) -> bool {
    &&& data.queue_duration == (match last_report(reports) {
        Some(report) => report.timing.queue_duration,
        None => None,
    })
    &&& data.memory_peak == (match last_report(reports) {
        Some(report) => report.timing.memory_peak,
        None => None,
    })
    &&& data.extra_data.execution_kind == end.execution_kind
    &&& data.extra_data.execution_time_ms == measures.execution_time_ms
    &&& data.extra_data.output_size == end.output_size
    &&& data.extra_data.target_rule_type_name == facts.target_rule_type_name
    &&& data.extra_data.action_digest == measures.action_digest
    &&& data.extra_data.invalidation_info == facts.invalidation
    &&& data.extra_data.re_platform_name == (match last_kind(reports) {
        Some(kind) => kind.re_platform_name,
        None => None,
    })
    &&& end.key == action.key
    &&& end.kind == action.kind
    &&& names(action, end.name)
    &&& end.failed == (data.action_result is Err)
    &&& end.failed == (end.error is Some)
    &&& end.always_print_stderr == action.always_print_stderr
    &&& match data.wall_time {
        Some(wall_time) => is_wire_span(wall_time@, end.wall_time),
        None => end.wall_time is None,
    }
    &&& end.invalidation_info == facts.invalidation
    &&& end.target_rule_type_name == facts.target_rule_type_name
    &&& end.expected_eligible_for_dedupe == action.expects_dedupe()
}

/// What an action that succeeded leaves behind.
pub open spec fn records_success<L>(
    outputs: ActionOutputs,
    meta: ActionExecutionMetadata,
    facts: RunFacts,
    data: ActionExecutionData,
    end: ActionExecutionEnd<L>,
) -> bool {
    &&& data.action_result == Ok::<ActionOutputs, ActionError>(outputs)
    &&& data.wall_time == Some(meta.wall_time)
    &&& data.waiting_data == meta.waiting_data
    &&& end.execution_kind == meta.execution_kind
    &&& end.output_size == meta.output_bytes
    &&& end.outputs.deep_view() == tiny_digests(outputs.outputs@)
    &&& end.hostname == if meta.execution_kind.is_local_spec() {
        facts.host.hostname
    } else {
        None
    }
    &&& end.buck2_revision is None
    &&& end.buck2_build_time is None
    &&& end.error_diagnostics is None
    &&& end.input_files_bytes == meta.input_files_bytes
    &&& match meta.command {
        Some(command) => {
            &&& end.prefers_local == command.prefers_local
            &&& end.requires_local == command.requires_local
            &&& end.allows_cache_upload == command.allows_cache_upload
            &&& end.cache_upload_result == command.cache_upload_result
            &&& end.allows_dep_file_cache_upload == command.allows_dep_file_cache_upload
            &&& end.dep_file_cache_upload_result == command.dep_file_cache_upload_result
            &&& end.dep_file_key == command.dep_file_key
            &&& end.eligible_for_full_hybrid == Some(command.eligible_for_full_hybrid)
            &&& end.scheduling_mode == command.scheduling_mode
            &&& end.incremental_kind == Some(command.incremental_kind)
        },
        None => {
            &&& lacks_command(end)
            &&& end.cache_upload_result == UploadResult::NonCommandAction
        },
    }
}

/// The log shows nothing of a command.
pub open spec fn lacks_command<L>(end: ActionExecutionEnd<L>) -> bool {
    &&& !end.prefers_local
    &&& !end.requires_local
    &&& !end.allows_cache_upload
    &&& !end.allows_dep_file_cache_upload
    &&& end.dep_file_cache_upload_result == UploadResult::NotAttempted
    &&& end.dep_file_key is None
    &&& end.eligible_for_full_hybrid is None
    &&& end.scheduling_mode is None
    &&& end.incremental_kind is None
}

/// What an action that failed leaves behind.
pub open spec fn records_failure<L>(
    error: ActionError,
    reports: Seq<CommandExecutionReport>,
    facts: RunFacts,
    data: ActionExecutionData,
    end: ActionExecutionEnd<L>,
) -> bool {
    &&& data.action_result == Err::<ActionOutputs, ActionError>(error)
    &&& data.wall_time == (match last_report(reports) {
        Some(report) => Some(report.timing.duration),
        None => None,
    })
    &&& data.waiting_data.categories@.len() == 0
    &&& end.execution_kind == (match last_kind(reports) {
        Some(kind) => kind.kind,
        None => ActionExecutionKind::NotSet,
    })
    &&& end.output_size == 0
    &&& end.outputs@.len() == 0
    &&& end.hostname == facts.host.hostname
    &&& end.buck2_revision == facts.host.buck2_revision
    &&& end.buck2_build_time == facts.host.buck2_build_time
    &&& same_diagnostics(error.diagnostics, end.error_diagnostics)
    &&& end.input_files_bytes is None
    &&& lacks_command(end)
    &&& end.cache_upload_result == if is_command_failure(error.error) {
        UploadResult::ActionNotSuccessful
    } else {
        UploadResult::NonCommandAction
    }
}

/// How an action ended: with outputs, or with an error.
#[derive(Debug)]
pub enum ActionOutcome {
    Succeeded(ActionOutputs, ActionExecutionMetadata),
    Failed(ActionError),
}

/// The error of an action that failed, once its error handler was run.
///
/// The infrastructure's errors are looked for in what the last command printed.
pub fn action_error(
    action: &RegisteredAction,
    error: ExecuteError,
    last_command: Option<&CommandExecution>,
    handler: Option<HandlerOutcome>,
) -> (failure: ActionError)
    ensures
        failure.error == error,
        names(*action, failure.name),
        failure.key == action.key,
        failure.last_command == (match last_command {
            Some(command) => Some(*command),
            None => None,
        }),
        diagnoses(handler, failure.diagnostics),
        failure.infra_error_tag == infra_error(lower_case(last_stderr(last_command))),
        failure.emitted_text@ == "Failed to build '"@ + action.owner@ + "'"@,
{
    let diagnostics = try_run_error_handler(handler);
    let infra_error_tag = check_infra_error_patterns(last_command);
    let mut emitted_text = "Failed to build '".to_owned();
    emitted_text.append(action.owner.as_str());
    emitted_text.append("'");
    let last_command = match last_command {
        Some(command) => Some(command.clone()),
        None => None,
    };
    ActionError {
        error,
        name: action.logged_name(),
        key: action.key.clone(),
        last_command,
        diagnostics,
        infra_error_tag,
        emitted_text,
    }
}

/// The commands of an action as the log shows them. Each report comes with what its
/// command printed.
pub fn log_commands(
    reports: &Vec<CommandExecutionReport>,
    streams: Vec<StdStreams>,
    action_succeeded: bool,
) -> (commands: Vec<CommandExecution>)
    requires
        streams@.len() == reports@.len(),
    ensures
        logs_commands(reports@, streams@, action_succeeded, commands@),
{
    let mut commands: Vec<CommandExecution> = Vec::new();
    let ghost printed = streams@;
    for stream in it: streams.into_iter()
        invariant
            it.seq() == printed,
            printed.len() == reports@.len(),
            logs_commands(
                reports@.take(it.index() as int),
                printed.take(it.index() as int),
                action_succeeded,
                commands@,
            ),
    {
        let i: usize = commands.len();
        let command = command_execution_report_to_proto(&reports[i], action_succeeded, stream);
        commands.push(command);
    }
    assert(reports@.take(reports@.len() as int) =~= reports@);
    assert(printed.take(printed.len() as int) =~= printed);
    commands
}

/// The last command, if there is one.
pub open spec fn last_command<'a>(commands: Seq<CommandExecution>) -> Option<&'a CommandExecution> {
    if commands.len() > 0 {
        Some(&commands.last())
    } else {
        None
    }
}

/// The outputs that a failed action hands to its error handler.
pub open spec fn outputs_of_failure<'a>(error: ExecuteError) -> Option<&'a ActionOutputs> {
    match error {
        ExecuteError::CommandExecutionError { action_outputs, .. } => Some(&action_outputs),
        ExecuteError::Other(_) => None,
    }
}

/// What follows a run that came to `execute_result`: from the states and the batch in
/// `before` to those in `after`, it leads to `built`.
pub open spec fn ends_run<
    L,
    M: FnOnce(&Vec<CommandExecution>) -> CommandMeasures,
    D: FnOnce(&ActionError) -> L,
    H: FnOnce(Option<&CommandExecution>, Option<&ActionOutputs>) -> Option<HandlerOutcome>,
>(
    knobs: RunActionKnobs,
    action: RegisteredAction,
    outputs_are_content_based: bool,
    input_eligibility: Seq<EligibleForDedupe>,
    ensured_inputs: &Vec<ArtifactGroupValues>,
    execute_result: Result<(ActionOutputs, ActionExecutionMetadata), ExecuteError>,
    reports: Seq<CommandExecutionReport>,
    streams: Seq<StdStreams>,
    facts: RunFacts,
    measure: M,
    run_error_handler: H,
    log_error: D,
    before: (RecoveryStates, BatchState),
    after: (RecoveryStates, BatchState),
    built: (ActionExecutionData, ActionExecutionEnd<L>, Option<RecoveryNotice>),
) -> bool {
    let charged = charged_states(before.0, before.1, action.key@);
    &&& logs_commands(reports, streams, execute_result is Ok, built.1.commands@)
    &&& exists|measures: CommandMeasures| #[trigger]
        call_ensures(measure, (&built.1.commands,), measures) && records_run(
            action,
            reports,
            facts,
            measures,
            built.0,
            built.1,
        )
    &&& built.1.eligible_for_dedupe == dedupe_verdict(outputs_are_content_based, input_eligibility)
    &&& after.1 == charged_batch(before.0, before.1, action.key@)
    &&& match execute_result {
        Ok((outputs, meta)) => {
            &&& records_success(outputs, meta, facts, built.0, built.1)
            &&& after.0 == charged
            &&& built.2 is None
        },
        Err(error) => {
            &&& built.0.action_result matches Err(failure)
            &&& records_failure(failure, reports, facts, built.0, built.1)
            &&& recovery_applies(
                charged,
                error,
                if knobs.cas_missing_recovery_enabled {
                    Some(ensured_inputs)
                } else {
                    None
                },
                after.0,
                failure.error,
                built.2,
            )
            &&& exists|outcome: Option<HandlerOutcome>|
                #[trigger] call_ensures(
                    run_error_handler,
                    (last_command(built.1.commands@), outputs_of_failure(failure.error)),
                    outcome,
                ) && diagnoses(outcome, failure.diagnostics)
            &&& built.1.error is Some
            &&& call_ensures(log_error, (&failure,), built.1.error->0)
            &&& names(action, failure.name)
            &&& failure.key == action.key
            &&& failure.last_command == (match last_command(built.1.commands@) {
                Some(command) => Some(*command),
                None => None,
            })
            &&& failure.infra_error_tag == infra_error(
                lower_case(last_stderr(last_command(built.1.commands@))),
            )
            &&& failure.emitted_text@ == "Failed to build '"@ + action.owner@ + "'"@
        },
    }
}

/// What follows the run of an action, up to what it comes to and what the log shows
/// of its end.
///
/// The run is charged to the action if the batch selected it for repair. The commands
/// are logged with what each printed, and `measure` is told of them. Where the run
/// failed, recovery is brought to bear, the action's error handler is run on the last
/// command and on what the failed command left, and the infrastructure's errors are
/// looked for; `log_error` then brings the error into the log's form.
pub fn build_action_inner<
    L,
    M: FnOnce(&Vec<CommandExecution>) -> CommandMeasures,
    D: FnOnce(&ActionError) -> L,
    H: FnOnce(Option<&CommandExecution>, Option<&ActionOutputs>) -> Option<HandlerOutcome>,
>(
    data: &mut UserComputationData,
    batch: &mut CasRecoveryBatch,
    knobs: &RunActionKnobs,
    action: &RegisteredAction,
    outputs_are_content_based: bool,
    input_eligibility: &Vec<EligibleForDedupe>,
    ensured_inputs: &Vec<ArtifactGroupValues>,
    execute_result: Result<(ActionOutputs, ActionExecutionMetadata), ExecuteError>,
    reports: &Vec<CommandExecutionReport>,
    streams: Vec<StdStreams>,
    facts: RunFacts,
    measure: M,
    run_error_handler: H,
    log_error: D,
) -> (built: (ActionExecutionData, ActionExecutionEnd<L>, Option<RecoveryNotice>))
    requires
        streams@.len() == reports@.len(),
        old(data).registry is Some,
        charges(old(data).registry->0@, old(batch)@, action.key@)
            ==> old(data).registry->0@[action.key@].attempts < u32::MAX,
        forall|commands: &Vec<CommandExecution>| #[trigger] call_requires(measure, (commands,)),
        execute_result is Err ==> forall|
            last: Option<&CommandExecution>,
            outputs: Option<&ActionOutputs>,
        | #[trigger] call_requires(run_error_handler, (last, outputs)),
        execute_result is Err ==> forall|failure: &ActionError| #[trigger]
            call_requires(log_error, (failure,)),
    ensures
        final(data).registry is Some,
        final(data).batch == old(data).batch,
        final(data).config == old(data).config,
        ends_run(
            *knobs,
            *action,
            outputs_are_content_based,
            input_eligibility@,
            ensured_inputs,
            execute_result,
            reports@,
            streams@,
            facts,
            measure,
            run_error_handler,
            log_error,
            (old(data).registry->0@, old(batch)@),
            (final(data).registry->0@, final(batch)@),
            built,
        ),
{
    let eligible_for_dedupe = is_action_eligible_for_dedupe(
        outputs_are_content_based,
        input_eligibility,
    );
    let inputs_for_recovery = inputs_for_cas_missing_recovery(knobs, ensured_inputs);
    record_cas_missing_recovery_repair(data, batch, &action.key);
    let commands = log_commands(reports, streams, execute_result.is_ok());
    let measures = measure(&commands);
    assert(call_ensures(measure, (&commands,), measures));
    let mut notice: Option<RecoveryNotice> = None;
    let outcome = match execute_result {
        Ok((outputs, meta)) => ActionOutcome::Succeeded(outputs, meta),
        Err(error) => {
            let (error, told) = attach_cas_missing_recovery_outcome(
                data,
                error,
                inputs_for_recovery,
            );
            notice = told;
            let last: Option<&CommandExecution> = if commands.len() > 0 {
                Some(&commands[commands.len() - 1])
            } else {
                None
            };
            let outputs = match &error {
                ExecuteError::CommandExecutionError { action_outputs, .. } => Some(action_outputs),
                ExecuteError::Other(_) => None,
            };
            let handled = run_error_handler(last, outputs);
            assert(call_ensures(
                run_error_handler,
                (last_command(commands@), outputs_of_failure(error)),
                handled,
            ));
            ActionOutcome::Failed(action_error(action, error, last, handled))
        },
    };
    let (run, mut end) = record_action(action, reports, outcome, facts, measures, log_error);
    end.commands = commands;
    end.eligible_for_dedupe = eligible_for_dedupe;
    (run, end, notice)
}

/// Records how an action ended: what it comes to, and what the log shows of its end.
/// The commands and whether the result may stand in for another are filled in later.
fn record_action<L, D: FnOnce(&ActionError) -> L>(
    action: &RegisteredAction,
    reports: &Vec<CommandExecutionReport>,
    outcome: ActionOutcome,
    facts: RunFacts,
    measures: CommandMeasures,
    log_error: D,
) -> (recorded: (ActionExecutionData, ActionExecutionEnd<L>))
    requires
        outcome is Failed ==> forall|failure: &ActionError| #[trigger]
            call_requires(log_error, (failure,)),
    ensures
        records_run(*action, reports@, facts, measures, recorded.0, recorded.1),
        match outcome {
            ActionOutcome::Succeeded(outputs, meta) => records_success(
                outputs,
                meta,
                facts,
                recorded.0,
                recorded.1,
            ),
            ActionOutcome::Failed(error) => {
                &&& records_failure(error, reports@, facts, recorded.0, recorded.1)
                &&& recorded.1.error is Some
                &&& call_ensures(log_error, (&error,), recorded.1.error->0)
            },
        },
{
    let last: Option<&CommandExecutionReport> = if reports.len() > 0 {
        Some(&reports[reports.len() - 1])
    } else {
        None
    };
    let queue_duration = match last {
        Some(report) => report.timing.queue_duration,
        None => None,
    };
    let memory_peak: Option<u64> = match last {
        Some(report) => report.timing.memory_peak,
        None => None,
    };
    let ran: Option<&CommandExecutionKind> = match last {
        Some(report) => report.status.execution_kind(),
        None => None,
    };
    let re_platform_name = match ran {
        Some(kind) => clone_text(&kind.re_platform_name),
        None => None,
    };
    let expected_eligible_for_dedupe = match action.expected_eligible_for_dedupe {
        Some(expected) => if expected {
            ExpectedEligibleForDedupe::ExpectedEligible
        } else {
            ExpectedEligibleForDedupe::ExpectedIneligible
        },
        None => ExpectedEligibleForDedupe::UnknownEligibility,
    };
    let RunFacts { target_rule_type_name, invalidation, host } = facts;
    let mut end: ActionExecutionEnd<L> = ActionExecutionEnd {
        key: action.key.clone(),
        kind: action.kind,
        name: action.logged_name(),
        failed: false,
        error: None,
        always_print_stderr: action.always_print_stderr,
        wall_time: None,
        execution_kind: ActionExecutionKind::NotSet,
        output_size: 0,
        commands: Vec::new(),
        outputs: Vec::new(),
        prefers_local: false,
        requires_local: false,
        allows_cache_upload: false,
        cache_upload_result: UploadResult::NonCommandAction,
        allows_dep_file_cache_upload: false,
        dep_file_cache_upload_result: UploadResult::NotAttempted,
        dep_file_key: None,
        eligible_for_full_hybrid: None,
        buck2_revision: None,
        buck2_build_time: None,
        hostname: None,
        error_diagnostics: None,
        input_files_bytes: None,
        invalidation_info: invalidation,
        target_rule_type_name: clone_text(&target_rule_type_name),
        scheduling_mode: None,
        incremental_kind: None,
        eligible_for_dedupe: EligibleForDedupe::Eligible,
        expected_eligible_for_dedupe,
    };
    let mut waiting_data = WaitingData { categories: Vec::new() };
    let wall_time: Option<Duration>;
    let action_result: Result<ActionOutputs, ActionError>;
    match outcome {
        ActionOutcome::Succeeded(outputs, meta) => {
            end.output_size = meta.output_bytes;
            end.outputs = list_tiny_digests(&outputs);
            end.execution_kind = meta.execution_kind;
            if meta.execution_kind.is_local() {
                end.hostname = host.hostname;
            }
            end.input_files_bytes = meta.input_files_bytes;
            if let Some(command) = meta.command {
                end.prefers_local = command.prefers_local;
                end.requires_local = command.requires_local;
                end.allows_cache_upload = command.allows_cache_upload;
                end.cache_upload_result = command.cache_upload_result;
                end.allows_dep_file_cache_upload = command.allows_dep_file_cache_upload;
                end.dep_file_cache_upload_result = command.dep_file_cache_upload_result;
                end.dep_file_key = command.dep_file_key;
                end.eligible_for_full_hybrid = Some(command.eligible_for_full_hybrid);
                end.scheduling_mode = command.scheduling_mode;
                end.incremental_kind = Some(command.incremental_kind);
            }
            waiting_data = meta.waiting_data;
            wall_time = Some(meta.wall_time);
            action_result = Ok(outputs);
        },
        ActionOutcome::Failed(error) => {
            end.failed = true;
            end.error = Some(log_error(&error));
            if let Some(kind) = ran {
                end.execution_kind = kind.kind;
            }
            end.buck2_revision = host.buck2_revision;
            end.buck2_build_time = host.buck2_build_time;
            end.hostname = host.hostname;
            end.error_diagnostics = copy_diagnostics(&error.diagnostics);
            if let ExecuteError::CommandExecutionError { .. } = &error.error {
                end.cache_upload_result = UploadResult::ActionNotSuccessful;
            }
            wall_time = match last {
                Some(report) => Some(report.timing.duration),
                None => None,
            };
            action_result = Err(error);
        },
    }
    end.wall_time = match wall_time {
        Some(wall_time) => wire_span(wall_time),
        None => None,
    };
    let data = ActionExecutionData {
        action_result,
        wall_time,
        queue_duration,
        memory_peak,
        extra_data: ActionExtraData {
            execution_kind: end.execution_kind,
            execution_time_ms: measures.execution_time_ms,
            output_size: end.output_size,
            target_rule_type_name,
            action_digest: measures.action_digest,
            invalidation_info: invalidation,
            re_platform_name,
        },
        waiting_data,
    };
    (data, end)
}

/// The name of the machine is not shown for a result that was made or found elsewhere.
pub proof fn hostnames_are_for_local_work<L>(
    action: RegisteredAction,
    reports: Seq<CommandExecutionReport>,
    outputs: ActionOutputs,
    meta: ActionExecutionMetadata,
    facts: RunFacts,
    measures: CommandMeasures,
    data: ActionExecutionData,
    end: ActionExecutionEnd<L>,
)
    requires
        records_run(action, reports, facts, measures, data, end),
        records_success(outputs, meta, facts, data, end),
        !meta.execution_kind.is_local_spec(),
    ensures
        end.hostname is None,
        !end.failed,
{
}

/// What is measured of an action.
#[derive(Debug)]
pub struct ActionExecutionMetrics {
    pub key: ActionKey,
    pub execution_time_ms: u64,
    pub execution_kind: ActionExecutionKind,
    pub output_size_bytes: u64,
    pub memory_peak: Option<u64>,
    pub re_platform_name: Option<String>,
}

/// How long an action took.
#[derive(Clone, Copy, Debug, PartialEq, Eq, Structural)]
pub struct NodeDuration {
    pub user: Duration,
    pub total: Duration,
    pub queue: Option<Duration>,
}

/// An action and what is kept of its run.
#[derive(Debug)]
pub struct ActionWithExtraData {
    pub action: RegisteredAction,
    pub extra_data: ActionExtraData,
}

/// What is kept of a computation for the critical path.
#[derive(Debug)]
pub struct BuildKeyActivationData {
    pub action_with_extra_data: ActionWithExtraData,
    pub duration: NodeDuration,
    pub waiting_data: WaitingData,
    pub spans: Vec<u64>,
}

/// What is measured of an action that ran, what is kept of it, and what it comes to.
pub fn build_action_no_redirect(
    action: RegisteredAction,
    data: ActionExecutionData,
    total: Duration,
    spans: Vec<u64>,
) -> (built: (
    ActionExecutionMetrics,
    BuildKeyActivationData,
    Result<ActionOutputs, ActionError>,
))
    ensures
        built.0.key == action.key,
        built.0.execution_time_ms == match data.extra_data.execution_time_ms {
            Some(ms) => ms,
            None => 0,
        },
        built.0.execution_kind == data.extra_data.execution_kind,
        built.0.output_size_bytes == data.extra_data.output_size,
        built.0.memory_peak == data.memory_peak,
        built.0.re_platform_name == data.extra_data.re_platform_name,
        built.1.action_with_extra_data == (ActionWithExtraData {
            action,
            extra_data: data.extra_data,
        }),
        built.1.duration.user@ == match data.wall_time {
            Some(wall_time) => wall_time@,
            None => 0,
        },
        built.1.duration.total == total,
        built.1.duration.queue == data.queue_duration,
        built.1.waiting_data == data.waiting_data,
        built.1.spans == spans,
        built.2 == data.action_result,
{
    let execution_time_ms: u64 = match data.extra_data.execution_time_ms {
        Some(ms) => ms,
        None => 0,
    };
    let metrics = ActionExecutionMetrics {
        key: action.key.clone(),
        execution_time_ms,
        execution_kind: data.extra_data.execution_kind,
        output_size_bytes: data.extra_data.output_size,
        memory_peak: data.memory_peak,
        re_platform_name: clone_text(&data.extra_data.re_platform_name),
    };
    let user = match data.wall_time {
        Some(wall_time) => wall_time,
        None => Duration::zero(),
    };
    let activation = BuildKeyActivationData {
        action_with_extra_data: ActionWithExtraData { action, extra_data: data.extra_data },
        duration: NodeDuration { user, total, queue: data.queue_duration },
        waiting_data: data.waiting_data,
        spans,
    };
    (metrics, activation, data.action_result)
}

/// A result was made or found on this machine by a local run, a local worker, a local
/// dep file or the local cache, and by nothing else.
pub proof fn local_kinds_are_these(kind: ActionExecutionKind, local: bool)
    requires
        call_ensures(ActionExecutionKind::is_local, (&kind,), local),
    ensures
        kind is Local || kind is LocalWorker || kind is LocalDepFile || kind is LocalActionCache
            ==> local,
        kind is NotSet || kind is Remote || kind is ActionCache || kind is Simple
            || kind is Deferred || kind is RemoteDepFileCache ==> !local,
{
}

/// Where a result may not stand in for another, the outputs are the reason, or else the
/// first input that does not allow it.
pub proof fn the_first_ineligible_input_is_the_reason(
    outputs_are_content_based: bool,
    inputs: Seq<EligibleForDedupe>,
    first: int,
)
    ensures
        !outputs_are_content_based ==> dedupe_verdict(outputs_are_content_based, inputs)
            is IneligibleOutput,
        outputs_are_content_based && 0 <= first < inputs.len() && !(inputs[first] is Eligible) && (
        forall|i: int| 0 <= i < first ==> (#[trigger] inputs[i]) is Eligible) ==> dedupe_verdict(
            outputs_are_content_based,
            inputs,
        ) == inputs[first],
    decreases inputs.len(),
{
    if outputs_are_content_based && 0 < first < inputs.len() && (forall|i: int|
        0 <= i < first ==> (#[trigger] inputs[i]) is Eligible) {
        let rest = inputs.drop_first();
        assert(inputs[0] is Eligible);
        assert forall|i: int| 0 <= i < first - 1 implies (#[trigger] rest[i]) is Eligible by {
            assert(inputs[i + 1] is Eligible);
        }
        assert(rest[first - 1] == inputs[first]);
        the_first_ineligible_input_is_the_reason(outputs_are_content_based, rest, first - 1);
    }
}

/// What ran a command is known of every command that ran to an end of its own, and of a
/// cancelled or broken one where anything had started it.
pub proof fn commands_know_what_ran_them(
    status: CommandExecutionStatus,
    ran: Option<&CommandExecutionKind>,
)
    requires
        call_ensures(CommandExecutionStatus::execution_kind, (&status,), ran),
    ensures
        status matches CommandExecutionStatus::Success { kind } ==> ran == Some(&kind),
        status matches CommandExecutionStatus::Failure { kind } ==> ran == Some(&kind),
        status matches CommandExecutionStatus::WorkerFailure { kind } ==> ran == Some(&kind),
        status matches CommandExecutionStatus::TimedOut { kind, .. } ==> ran == Some(&kind),
        status matches CommandExecutionStatus::Cancelled { execution_kind }
            ==> execution_kind matches Some(kind) ==> ran == Some(&kind),
        status matches CommandExecutionStatus::Cancelled { execution_kind }
            ==> execution_kind is None ==> ran is None,
        status matches CommandExecutionStatus::Error { execution_kind, .. }
            ==> execution_kind matches Some(kind) ==> ran == Some(&kind),
        status matches CommandExecutionStatus::Error { execution_kind, .. }
            ==> execution_kind is None ==> ran is None,
{
}

/// The log shows a command under its own status, exit code, timing and message, always
/// with what it printed as errors. What else it printed is left out just where both the
/// command and its action succeeded.
pub proof fn commands_are_logged_as_they_ended(
    report: CommandExecutionReport,
    action_succeeded: bool,
    streams: StdStreams,
    command: CommandExecution,
)
    requires
        call_ensures(
            command_execution_report_to_proto,
            (&report, action_succeeded, streams),
            command,
        ),
    ensures
        command.environment_id == report.environment_id,
        command.details.cmd_stderr@ == streams.stderr@,
        command.details.signed_exit_code == report.exit_code,
        command.details.metadata == report.timing,
        command.details.additional_message == report.additional_message,
        action_succeeded && report.status is Success ==> command.details.cmd_stdout@.len() == 0,
        !(action_succeeded && report.status is Success) ==> command.details.cmd_stdout@
            == streams.stdout@,
        report.status is Success <==> command.status is Success,
        report.status is Cancelled <==> command.status is Cancelled,
        report.status is Failure <==> command.status is Failure,
        report.status is WorkerFailure <==> command.status is WorkerFailure,
        report.status is TimedOut <==> command.status is Timeout,
        report.status is Error <==> command.status is Error,
        report.status matches CommandExecutionStatus::Error { stage, error, .. } ==> {
            &&& command.status->Error_stage@ == stage@
            &&& command.status->Error_error@ == error.text_spec()
        },
        report.status matches CommandExecutionStatus::TimedOut { duration, .. }
            ==> command.status->Timeout_duration matches Some(wire) ==> wire.seconds
            * 1_000_000_000 + wire.nanos == duration@,
        report.status matches CommandExecutionStatus::Success { kind } ==> {
            &&& command.details.command_kind is Some
            &&& command.details.command_kind->0.kind == kind.kind
            &&& command.details.command_kind->0.details_omitted == action_succeeded
        },
        report.status matches CommandExecutionStatus::Failure { kind } ==> {
            &&& command.details.command_kind is Some
            &&& command.details.command_kind->0.kind == kind.kind
            &&& !command.details.command_kind->0.details_omitted
        },
{
}

/// Every command is logged once, in order.
pub proof fn every_command_is_logged(
    reports: Seq<CommandExecutionReport>,
    streams: Seq<StdStreams>,
    action_succeeded: bool,
    commands: Seq<CommandExecution>,
    i: int,
)
    requires
        logs_commands(reports, streams, action_succeeded, commands),
    ensures
        commands.len() == reports.len(),
        0 <= i < reports.len() ==> {
            &&& commands[i].environment_id == reports[i].environment_id
            &&& commands[i].details.cmd_stderr@ == streams[i].stderr@
            &&& commands[i].details.signed_exit_code == reports[i].exit_code
            &&& !action_succeeded ==> commands[i].details.cmd_stdout@ == streams[i].stdout@
            &&& reports[i].status is Success <==> commands[i].status is Success
        },
{
}

/// A failing infrastructure is recognised by what stands anywhere in the text: a lost
/// transport first, then a lack of memory.
pub proof fn infrastructure_errors_are_recognised(lower: &str, tag: Option<InfraErrorTag>)
    requires
        call_ensures(match_infra_error, (lower,), tag),
    ensures
        ({
            let lost = exists|front: Seq<char>, back: Seq<char>|
                lower@ == #[trigger] (front + "transport endpoint is not connected"@ + back);
            let starved = exists|front: Seq<char>, back: Seq<char>|
                lower@ == #[trigger] (front + "out of memory"@ + back);
            &&& lost ==> tag == Some(InfraErrorTag::IoNotConnected)
            &&& !lost && starved ==> tag == Some(InfraErrorTag::ActionOom)
            &&& !lost && !starved ==> tag is None
        }),
{
    substrings_split_the_text(lower@, "transport endpoint is not connected"@);
    substrings_split_the_text(lower@, "out of memory"@);
}

/// An error handler's errors are taken as they are; a handler that could not be run, or
/// came to something else, is told of instead; and without a handler nothing is said.
pub proof fn handlers_are_taken_at_their_word(
    handler: Option<HandlerOutcome>,
    diagnostics: Option<ActionErrorDiagnostics>,
)
    requires
        call_ensures(try_run_error_handler, (handler,), diagnostics),
    ensures
        handler is None <==> diagnostics is None,
        handler matches Some(HandlerOutcome::Returned(errors)) ==> diagnostics == Some(
            ActionErrorDiagnostics::SubErrors(errors),
        ),
        handler matches Some(HandlerOutcome::WrongType(said)) ==> diagnostics == Some(
            ActionErrorDiagnostics::HandlerInvocationError(said),
        ),
        handler matches Some(HandlerOutcome::NotSetUp(error)) ==> diagnostics is Some
            && diagnostics->0 is HandlerInvocationError
            && diagnostics->0->HandlerInvocationError_0@ == error.text_spec(),
        handler matches Some(HandlerOutcome::Failed(error)) ==> diagnostics is Some
            && diagnostics->0 is HandlerInvocationError
            && diagnostics->0->HandlerInvocationError_0@ == "Error handler failed"@ + ": "@
            + error.text_spec(),
{
}

/// An action starts, and is named, under its own key, kind, category and identifier; one
/// without an identifier has an empty one.
pub proof fn actions_go_by_their_name(
    action: RegisteredAction,
    name: LoggedName,
    start: ActionExecutionStart,
)
    requires
        call_ensures(RegisteredAction::logged_name, (&action,), name),
        call_ensures(RegisteredAction::start_event, (&action,), start),
    ensures
        name.category@ == action.category@,
        action.identifier matches Some(identifier) ==> name.identifier@ == identifier@,
        action.identifier is None ==> name.identifier@.len() == 0,
        start.key == action.key,
        start.kind == action.kind,
        start.name.category@ == action.category@,
        start.name.identifier@ == name.identifier@,
{
}

/// Something changed exactly where an input was invalidated, and a file exactly where
/// one of the high inputs was.
pub proof fn invalidated_inputs_changed(
    paths: Option<(InvalidationPath, InvalidationPath)>,
    info: Option<CommandInvalidationInfo>,
)
    requires
        call_ensures(invalidation_info, (paths,), info),
    ensures
        paths is None <==> info is None,
        paths matches Some((normal, high)) ==> {
            &&& info->0.changed_any <==> normal is Invalidated
            &&& info->0.changed_file <==> high is Invalidated
        },
{
}

/// The short digests are those of the outputs that have one, in order.
pub proof fn short_digests_keep_their_order(outputs: Seq<(String, ArtifactValue)>)
    ensures
        tiny_digests(outputs) == outputs.filter(
            |output: (String, ArtifactValue)| output.1.tiny_digest is Some,
        ).map_values(|output: (String, ArtifactValue)| output.1.tiny_digest->0@),
    decreases outputs.len(),
{
    reveal(Seq::filter);
    let known = |output: (String, ArtifactValue)| output.1.tiny_digest is Some;
    let digest = |output: (String, ArtifactValue)| output.1.tiny_digest->0@;
    if outputs.len() > 0 {
        let before = outputs.drop_last();
        short_digests_keep_their_order(before);
        if known(outputs.last()) {
            assert(outputs.filter(known).map_values(digest) =~= before.filter(known).map_values(
                digest,
            ).push(digest(outputs.last())));
        }
    } else {
        assert(outputs.filter(known).map_values(digest) =~= Seq::empty());
    }
}

/// Whatever became of an action, its record names the action, says whether it failed,
/// and takes the waiting time, the memory and the platform from the last command that
/// ran; without a command there are none.
pub proof fn records_go_by_the_last_command<L>(
    action: RegisteredAction,
    reports: Seq<CommandExecutionReport>,
    facts: RunFacts,
    measures: CommandMeasures,
    data: ActionExecutionData,
    end: ActionExecutionEnd<L>,
)
    requires
        records_run(action, reports, facts, measures, data, end),
    ensures
        end.key == action.key,
        end.kind == action.kind,
        end.name.category@ == action.category@,
        end.failed <==> data.action_result is Err,
        end.failed <==> end.error is Some,
        end.always_print_stderr == action.always_print_stderr,
        reports.len() > 0 ==> data.queue_duration == reports.last().timing.queue_duration
            && data.memory_peak == reports.last().timing.memory_peak,
        reports.len() == 0 ==> data.queue_duration is None && data.memory_peak is None
            && data.extra_data.re_platform_name is None,
        reports.len() > 0 ==> (reports.last().status matches CommandExecutionStatus::Success {
            kind,
        } ==> data.extra_data.re_platform_name == kind.re_platform_name),
        reports.len() > 0 ==> (reports.last().status matches CommandExecutionStatus::Failure {
            kind,
        } ==> data.extra_data.re_platform_name == kind.re_platform_name),
        data.extra_data.execution_kind == end.execution_kind,
        data.extra_data.output_size == end.output_size,
        data.extra_data.execution_time_ms == measures.execution_time_ms,
        data.extra_data.action_digest == measures.action_digest,
        data.extra_data.target_rule_type_name == facts.target_rule_type_name,
        data.extra_data.invalidation_info == facts.invalidation,
        end.invalidation_info == facts.invalidation,
        end.target_rule_type_name == facts.target_rule_type_name,
        data.wall_time is None ==> end.wall_time is None,
        data.wall_time matches Some(span) ==> end.wall_time matches Some(wire) ==> wire.seconds
            * 1_000_000_000 + wire.nanos == span@,
        action.expected_eligible_for_dedupe == Some(true)
            <==> end.expected_eligible_for_dedupe is ExpectedEligible,
        action.expected_eligible_for_dedupe == Some(false)
            <==> end.expected_eligible_for_dedupe is ExpectedIneligible,
        action.expected_eligible_for_dedupe is None
            <==> end.expected_eligible_for_dedupe is UnknownEligibility,
{
}

/// The record of an action that succeeded holds its outputs and what is known of its
/// run: the kind, the size, the times, and all that is known of its command. The machine
/// is named just where the work was done on it.
pub proof fn successes_are_recorded<L>(
    outputs: ActionOutputs,
    meta: ActionExecutionMetadata,
    facts: RunFacts,
    data: ActionExecutionData,
    end: ActionExecutionEnd<L>,
)
    requires
        records_success(outputs, meta, facts, data, end),
    ensures
        data.action_result == Ok::<ActionOutputs, ActionError>(outputs),
        data.wall_time == Some(meta.wall_time),
        data.waiting_data == meta.waiting_data,
        end.execution_kind == meta.execution_kind,
        end.output_size == meta.output_bytes,
        end.input_files_bytes == meta.input_files_bytes,
        end.error_diagnostics is None,
        end.buck2_revision is None,
        end.buck2_build_time is None,
        meta.execution_kind is Local || meta.execution_kind is LocalWorker
            || meta.execution_kind is LocalDepFile || meta.execution_kind is LocalActionCache
            ==> end.hostname == facts.host.hostname,
        !(meta.execution_kind is Local || meta.execution_kind is LocalWorker
            || meta.execution_kind is LocalDepFile || meta.execution_kind is LocalActionCache)
            ==> end.hostname is None,
        end.outputs.deep_view() == outputs.outputs@.filter(
            |output: (String, ArtifactValue)| output.1.tiny_digest is Some,
        ).map_values(|output: (String, ArtifactValue)| output.1.tiny_digest->0@),
        meta.command matches Some(command) ==> {
            &&& end.prefers_local == command.prefers_local
            &&& end.requires_local == command.requires_local
            &&& end.allows_cache_upload == command.allows_cache_upload
            &&& end.cache_upload_result == command.cache_upload_result
            &&& end.allows_dep_file_cache_upload == command.allows_dep_file_cache_upload
            &&& end.dep_file_cache_upload_result == command.dep_file_cache_upload_result
            &&& end.dep_file_key == command.dep_file_key
            &&& end.eligible_for_full_hybrid == Some(command.eligible_for_full_hybrid)
            &&& end.scheduling_mode == command.scheduling_mode
            &&& end.incremental_kind == Some(command.incremental_kind)
        },
        meta.command is None ==> {
            &&& end.cache_upload_result is NonCommandAction
            &&& end.dep_file_cache_upload_result is NotAttempted
            &&& !end.prefers_local
            &&& !end.requires_local
            &&& !end.allows_cache_upload
            &&& !end.allows_dep_file_cache_upload
            &&& end.dep_file_key is None
            &&& end.eligible_for_full_hybrid is None
            &&& end.scheduling_mode is None
            &&& end.incremental_kind is None
        },
{
    short_digests_keep_their_order(outputs.outputs@);
}

/// The record of an action that failed holds its error, the time and the kind of the
/// last command, and the machine and program that it failed on; it has no outputs. The
/// failure of a command says so where its result would have been stored.
pub proof fn failures_are_recorded<L>(
    error: ActionError,
    reports: Seq<CommandExecutionReport>,
    facts: RunFacts,
    data: ActionExecutionData,
    end: ActionExecutionEnd<L>,
)
    requires
        records_failure(error, reports, facts, data, end),
    ensures
        data.action_result == Err::<ActionOutputs, ActionError>(error),
        reports.len() > 0 ==> data.wall_time == Some(reports.last().timing.duration),
        reports.len() == 0 ==> data.wall_time is None && end.execution_kind is NotSet,
        reports.len() > 0 ==> (reports.last().status matches CommandExecutionStatus::Failure {
            kind,
        } ==> end.execution_kind == kind.kind),
        reports.len() > 0 ==> (reports.last().status matches CommandExecutionStatus::TimedOut {
            kind,
            ..
        } ==> end.execution_kind == kind.kind),
        data.waiting_data.categories@.len() == 0,
        end.output_size == 0,
        end.outputs@.len() == 0,
        end.input_files_bytes is None,
        end.hostname == facts.host.hostname,
        end.buck2_revision == facts.host.buck2_revision,
        end.buck2_build_time == facts.host.buck2_build_time,
        error.error is CommandExecutionError <==> end.cache_upload_result is ActionNotSuccessful,
        error.error is Other <==> end.cache_upload_result is NonCommandAction,
        end.dep_file_cache_upload_result is NotAttempted,
        !end.prefers_local,
        !end.requires_local,
        !end.allows_cache_upload,
        !end.allows_dep_file_cache_upload,
        end.dep_file_key is None,
        end.eligible_for_full_hybrid is None,
        end.scheduling_mode is None,
        end.incremental_kind is None,
        error.diagnostics is None <==> end.error_diagnostics is None,
        error.diagnostics matches Some(ActionErrorDiagnostics::SubErrors(errors)) ==> {
            &&& end.error_diagnostics->0 is SubErrors
            &&& end.error_diagnostics->0->SubErrors_0@ == errors@
        },
        error.diagnostics matches Some(ActionErrorDiagnostics::HandlerInvocationError(text)) ==> {
            &&& end.error_diagnostics->0 is HandlerInvocationError
            &&& end.error_diagnostics->0->HandlerInvocationError_0@ == text@
        },
{
}

/// The error of a failed action is the one that it failed with, under its name and key,
/// with the last command, what its handler said and the name of its owner.
pub proof fn errors_name_their_action(
    action: RegisteredAction,
    error: ExecuteError,
    last_command: Option<&CommandExecution>,
    handler: Option<HandlerOutcome>,
    failure: ActionError,
)
    requires
        call_ensures(action_error, (&action, error, last_command, handler), failure),
    ensures
        failure.error == error,
        failure.key == action.key,
        failure.name.category@ == action.category@,
        last_command matches Some(command) ==> failure.last_command == Some(*command)
            && failure.infra_error_tag == infra_error(lower_case(command.details.cmd_stderr@)),
        last_command is None ==> failure.last_command is None && failure.infra_error_tag
            == infra_error(lower_case(Seq::empty())),
        handler is None <==> failure.diagnostics is None,
        handler matches Some(HandlerOutcome::Returned(errors)) ==> failure.diagnostics == Some(
            ActionErrorDiagnostics::SubErrors(errors),
        ),
        failure.emitted_text@ == "Failed to build '"@ + action.owner@ + "'"@,
{
}

/// A finished run comes to outputs exactly where the action ran through, charges its
/// action for a repair just where the round selected it and it is armed, and leaves
/// recovery to failures of builds that opted in.
pub proof fn finished_runs_come_to_their_result<
    L,
    M: FnOnce(&Vec<CommandExecution>) -> CommandMeasures,
    D: FnOnce(&ActionError) -> L,
    H: FnOnce(Option<&CommandExecution>, Option<&ActionOutputs>) -> Option<HandlerOutcome>,
>(
    knobs: RunActionKnobs,
    action: RegisteredAction,
    outputs_are_content_based: bool,
    input_eligibility: Seq<EligibleForDedupe>,
    ensured_inputs: &Vec<ArtifactGroupValues>,
    execute_result: Result<(ActionOutputs, ActionExecutionMetadata), ExecuteError>,
    reports: Seq<CommandExecutionReport>,
    streams: Seq<StdStreams>,
    facts: RunFacts,
    measure: M,
    run_error_handler: H,
    log_error: D,
    before: (RecoveryStates, BatchState),
    after: (RecoveryStates, BatchState),
    built: (ActionExecutionData, ActionExecutionEnd<L>, Option<RecoveryNotice>),
)
    requires
        ends_run(
            knobs,
            action,
            outputs_are_content_based,
            input_eligibility,
            ensured_inputs,
            execute_result,
            reports,
            streams,
            facts,
            measure,
            run_error_handler,
            log_error,
            before,
            after,
            built,
        ),
        before.0.contains_key(action.key@) ==> before.0[action.key@].attempts < u32::MAX,
        before.1.repairs_charged < u64::MAX,
    ensures
        execute_result is Ok <==> built.0.action_result is Ok,
        execute_result is Err <==> built.1.failed,
        execute_result matches Ok((outputs, _)) ==> built.0.action_result->Ok_0 == outputs,
        built.1.key == action.key,
        built.1.commands@.len() == reports.len(),
        execute_result is Ok ==> built.2 is None,
        built.1.eligible_for_dedupe is Eligible <==> outputs_are_content_based && forall|i: int|
            0 <= i < input_eligibility.len() ==> (#[trigger] input_eligibility[i]) is Eligible,
        ({
            let key = action.key@;
            let charged = before.1.keys.contains(key) && before.0.contains_key(key)
                && before.0[key].armed;
            &&& charged ==> after.1.repairs_charged == before.1.repairs_charged + 1
            &&& !charged ==> after.1 == before.1
            &&& charged && execute_result is Ok ==> after.0.contains_key(key)
                && !after.0[key].armed && after.0[key].attempts == before.0[key].attempts + 1
            &&& !charged && execute_result is Ok ==> after.0 == before.0
            &&& !charged && !knobs.cas_missing_recovery_enabled ==> after.0 == before.0
        }),
        execute_result matches Err(error) ==> !knobs.cas_missing_recovery_enabled
            ==> built.2 is None && built.0.action_result->Err_0.error == error,
        execute_result matches Err(error) ==> built.0.action_result->Err_0.key == action.key,
        execute_result is Err && reports.len() > 0 ==> (
        built.0.action_result->Err_0.last_command matches Some(command)
            && command == built.1.commands@.last()),
        execute_result is Err && reports.len() == 0 ==> (
        built.0.action_result->Err_0.last_command is None),
        logs_commands(reports, streams, execute_result is Ok, built.1.commands@),
        execute_result matches Ok((outputs, meta)) ==> records_success(
            outputs,
            meta,
            facts,
            built.0,
            built.1,
        ),
        execute_result is Err ==> {
            let failure = built.0.action_result->Err_0;
            &&& records_failure(failure, reports, facts, built.0, built.1)
            &&& failure.name.category == action.category
            &&& action.identifier matches Some(identifier) ==> failure.name.identifier@
                == identifier@
            &&& action.identifier is None ==> failure.name.identifier@.len() == 0
            &&& failure.emitted_text@ == "Failed to build '"@ + action.owner@ + "'"@
            &&& built.1.error is Some
            &&& call_ensures(log_error, (&failure,), built.1.error->0)
            &&& exists|outcome: Option<HandlerOutcome>|
                #[trigger] call_ensures(
                    run_error_handler,
                    (last_command(built.1.commands@), outputs_of_failure(failure.error)),
                    outcome,
                ) && (outcome is None <==> failure.diagnostics is None)
        },
        exists|measures: CommandMeasures| #[trigger]
            call_ensures(measure, (&built.1.commands,), measures) && records_run(
                action,
                reports,
                facts,
                measures,
                built.0,
                built.1,
            ),
{
    dedupe_needs_everything(outputs_are_content_based, input_eligibility);
    only_selected_and_armed_runs_are_charged(before.0, before.1, action.key@, action.key@);
}

/// What is measured and kept of an action that ran is what its run came to; a time that
/// was not taken counts as none.
pub proof fn measures_follow_the_run(
    action: RegisteredAction,
    data: ActionExecutionData,
    total: Duration,
    spans: Vec<u64>,
    built: (
        ActionExecutionMetrics,
        BuildKeyActivationData,
        Result<ActionOutputs, ActionError>,
    ),
)
    requires
        call_ensures(build_action_no_redirect, (action, data, total, spans), built),
    ensures
        built.2 == data.action_result,
        built.0.key == action.key,
        data.extra_data.execution_time_ms matches Some(ms) ==> built.0.execution_time_ms == ms,
        data.extra_data.execution_time_ms is None ==> built.0.execution_time_ms == 0,
        built.0.execution_kind == data.extra_data.execution_kind,
        built.0.output_size_bytes == data.extra_data.output_size,
        built.0.memory_peak == data.memory_peak,
        built.0.re_platform_name == data.extra_data.re_platform_name,
        built.1.action_with_extra_data.action == action,
        built.1.action_with_extra_data.extra_data == data.extra_data,
        data.wall_time matches Some(span) ==> built.1.duration.user@ == span@,
        data.wall_time is None ==> built.1.duration.user@ == 0,
        built.1.duration.total == total,
        built.1.duration.queue == data.queue_duration,
        built.1.waiting_data == data.waiting_data,
        built.1.spans == spans,
{
}

} // verus!
