//! Action results in the shape callers use and in the shape the wire uses.
use vstd::prelude::*;
use vstd::string::*;

use crate::digest::{optional_tdigest_from, optional_tdigest_to, tdigest_from, tdigest_to, Digest, TDigest};
use crate::duration::{saturated_nanos, span_text, Duration, NANOS_PER_SEC};
use crate::error::{Error, REClientError, TCodeReasonGroup};

verus! {

/// The status code of a success.
pub const TCODE_OK: i32 = 0;

/// A status as callers hold it.
#[derive(Debug)]
pub struct TStatus {
    pub code: i32,
    pub message: String,
}

/// A status as the wire carries it.
#[derive(Debug)]
pub struct RpcStatus {
    pub code: i32,
    pub message: String,
}

/// A point in time, in seconds and nanoseconds since the Unix epoch, as callers
/// hold it.
#[derive(Clone, Copy, Debug, PartialEq, Eq, Structural)]
pub struct TTimestamp {
    pub seconds: i64,
    pub nanos: i32,
}

/// A point in time as the wire carries it.
#[derive(Clone, Copy, Debug, PartialEq, Eq, Structural)]
pub struct Timestamp {
    pub seconds: i64,
    pub nanos: i32,
}

/// A span of time as the wire carries it.
#[derive(Clone, Copy, Debug, PartialEq, Eq, Structural)]
pub struct WireDuration {
    pub seconds: i64,
    pub nanos: i32,
}

impl TStatus {
    /// The status of a success with the given message.
    pub open spec fn is_ok_with(self, message: Seq<char>) -> bool {
        self.code == TCODE_OK && self.message@ == message
    }
}

/// The status of a success.
pub fn tstatus_ok() -> (status: TStatus)
    ensures
        status.is_ok_with(Seq::empty()),
{
    TStatus { code: TCODE_OK, message: String::new() }
}

/// Fails with what the service reported, unless it reported success.
pub fn check_status(status: RpcStatus) -> (checked: Result<(), REClientError>)
    ensures
        status.code == 0 ==> checked is Ok,
        status.code != 0 ==> checked == Err::<(), REClientError>(
            (REClientError {
                code: status.code,
                message: status.message,
                group: TCodeReasonGroup::Unknown,
            }),
        ),
{
    if status.code == 0 {
        return Ok(());
    }
    Err(
        REClientError {
            code: status.code,
            message: status.message,
            group: TCodeReasonGroup::Unknown,
        },
    )
}

impl TTimestamp {
    /// The start of the Unix epoch.
    pub fn unix_epoch() -> (ts: TTimestamp)
        ensures
            ts == (TTimestamp { seconds: 0, nanos: 0 }),
    {
        TTimestamp { seconds: 0, nanos: 0 }
    }

    /// Nanoseconds since the Unix epoch.
    pub open spec fn since_epoch(self) -> int {
        self.seconds * NANOS_PER_SEC + self.nanos
    }

    /// The time from `earlier` to `self`, empty where `self` does not come later.
    pub fn saturating_duration_since(&self, earlier: &TTimestamp) -> (d: Duration)
        ensures
            d@ == if self.since_epoch() >= earlier.since_epoch() {
                saturated_nanos((self.since_epoch() - earlier.since_epoch()) as nat)
            } else {
                0
            },
    {
        let seconds: i128 = self.seconds as i128 - earlier.seconds as i128;
        let nanos: i128 = seconds * 1_000_000_000 + (self.nanos as i128 - earlier.nanos as i128);
        if nanos < 0 {
            return Duration::zero();
        }
        Duration::saturating_from_nanos(nanos as u128)
    }
}

/// The wire form of a point in time.
pub fn ttimestamp_to(ts: TTimestamp) -> (timestamp: Timestamp)
    ensures
        timestamp == wire_time(ts),
{
    Timestamp { seconds: ts.seconds, nanos: ts.nanos }
}

/// The caller's form of a point in time; the epoch where it is absent.
pub fn ttimestamp_from(ts: Option<Timestamp>) -> (timestamp: TTimestamp)
    ensures
        timestamp == caller_time(ts),
{
    match ts {
        Some(timestamp) => TTimestamp { seconds: timestamp.seconds, nanos: timestamp.nanos },
        None => TTimestamp::unix_epoch(),
    }
}

/// The wire form of a point in time.
pub open spec fn wire_time(ts: TTimestamp) -> Timestamp {
    Timestamp { seconds: ts.seconds, nanos: ts.nanos }
}

/// The caller's form of a point in time; the epoch where it is absent.
pub open spec fn caller_time(ts: Option<Timestamp>) -> TTimestamp {
    match ts {
        Some(timestamp) => TTimestamp { seconds: timestamp.seconds, nanos: timestamp.nanos },
        None => TTimestamp { seconds: 0, nanos: 0 },
    }
}

/// A file that an action left, as the wire carries it.
#[derive(Debug)]
pub struct OutputFile {
    pub path: String,
    pub digest: Option<Digest>,
    pub is_executable: bool,
    pub contents: Vec<u8>,
}

/// A symlink that an action left, as the wire carries it.
#[derive(Debug)]
pub struct OutputSymlink {
    pub path: String,
    pub target: String,
}

/// A directory that an action left, as the wire carries it.
#[derive(Debug)]
pub struct OutputDirectory {
    pub path: String,
    pub tree_digest: Option<Digest>,
    pub is_topologically_sorted: bool,
    pub root_directory_digest: Option<Digest>,
}

/// Where and when an action ran, as the wire carries it.
#[derive(Debug)]
pub struct ExecutedActionMetadata {
    pub worker: String,
    pub queued_timestamp: Option<Timestamp>,
    pub worker_start_timestamp: Option<Timestamp>,
    pub worker_completed_timestamp: Option<Timestamp>,
    pub input_fetch_start_timestamp: Option<Timestamp>,
    pub input_fetch_completed_timestamp: Option<Timestamp>,
    pub execution_start_timestamp: Option<Timestamp>,
    pub execution_completed_timestamp: Option<Timestamp>,
    pub virtual_execution_duration: Option<WireDuration>,
    pub output_upload_start_timestamp: Option<Timestamp>,
    pub output_upload_completed_timestamp: Option<Timestamp>,
}

/// What an action left, as the wire carries it.
#[derive(Debug)]
pub struct ActionResult {
    pub output_files: Vec<OutputFile>,
    pub output_symlinks: Vec<OutputSymlink>,
    pub output_directories: Vec<OutputDirectory>,
    pub exit_code: i32,
    pub stdout_raw: Vec<u8>,
    pub stdout_digest: Option<Digest>,
    pub stderr_raw: Vec<u8>,
    pub stderr_digest: Option<Digest>,
    pub execution_metadata: Option<ExecutedActionMetadata>,
}

/// A digest and how storing it went.
#[derive(Debug)]
pub struct DigestWithStatus {
    pub status: TStatus,
    pub digest: TDigest,
}

/// A file that an action left, as callers hold it.
#[derive(Debug)]
pub struct TFile {
    pub digest: DigestWithStatus,
    pub name: String,
    pub existed: bool,
    pub executable: bool,
    pub ttl: i64,
}

/// A symlink that an action left, as callers hold it.
#[derive(Debug)]
pub struct TSymlink {
    pub name: String,
    pub target: String,
}

/// A directory that an action left, as callers hold it.
#[derive(Debug)]
pub struct TDirectory2 {
    pub path: String,
    pub tree_digest: TDigest,
    pub root_directory_digest: TDigest,
}

/// Where and when an action ran, as callers hold it.
#[derive(Debug)]
pub struct TExecutedActionMetadata {
    pub worker: String,
    pub queued_timestamp: TTimestamp,
    pub worker_start_timestamp: TTimestamp,
    pub worker_completed_timestamp: TTimestamp,
    pub input_fetch_start_timestamp: TTimestamp,
    pub input_fetch_completed_timestamp: TTimestamp,
    pub execution_start_timestamp: TTimestamp,
    pub execution_completed_timestamp: TTimestamp,
    pub output_upload_start_timestamp: TTimestamp,
    pub output_upload_completed_timestamp: TTimestamp,
    pub input_analyzing_start_timestamp: TTimestamp,
    pub input_analyzing_completed_timestamp: TTimestamp,
    pub execution_dir: String,
    pub execution_attempts: i32,
    pub last_queued_timestamp: TTimestamp,
}

/// What an action left, as callers hold it.
#[derive(Debug)]
pub struct TActionResult2 {
    pub output_files: Vec<TFile>,
    pub output_symlinks: Vec<TSymlink>,
    pub output_directories: Vec<TDirectory2>,
    pub exit_code: i32,
    pub stdout_raw: Option<Vec<u8>>,
    pub stdout_digest: Option<TDigest>,
    pub stderr_raw: Option<Vec<u8>>,
    pub stderr_digest: Option<TDigest>,
    pub execution_metadata: TExecutedActionMetadata,
}

/// The caller's form of a digest that may be absent.
pub open spec fn caller_digest(digest: Option<Digest>) -> Option<TDigest> {
    match digest {
        Some(d) => Some(TDigest { hash: d.hash, size_in_bytes: d.size_bytes }),
        None => None,
    }
}

/// The wire form of a digest.
pub open spec fn wire_digest(digest: TDigest) -> Digest {
    Digest { hash: digest.hash, size_bytes: digest.size_in_bytes }
}

/// The wire form of a digest that may be absent.
pub open spec fn optional_wire_digest(digest: Option<TDigest>) -> Option<Digest> {
    match digest {
        Some(d) => Some(wire_digest(d)),
        None => None,
    }
}

/// `file` is the caller's form of `wire`.
pub open spec fn is_caller_file(wire: OutputFile, file: TFile) -> bool {
    &&& wire.digest is Some
    &&& Some(file.digest.digest) == caller_digest(wire.digest)
    &&& file.digest.status.is_ok_with(Seq::empty())
    &&& file.name == wire.path
    &&& !file.existed
    &&& file.executable == wire.is_executable
    &&& file.ttl == 0
}

/// `directory` is the caller's form of `wire`.
pub open spec fn is_caller_directory(wire: OutputDirectory, directory: TDirectory2) -> bool {
    &&& wire.tree_digest is Some
    &&& directory.path == wire.path
    &&& Some(directory.tree_digest) == caller_digest(wire.tree_digest)
    &&& directory.root_directory_digest == directory.tree_digest
}

/// `times` is the caller's form of `wire`.
pub open spec fn is_caller_metadata(
    wire: ExecutedActionMetadata,
    times: TExecutedActionMetadata,
) -> bool {
    &&& times.worker == wire.worker
    &&& times.queued_timestamp == caller_time(wire.queued_timestamp)
    &&& times.worker_start_timestamp == caller_time(wire.worker_start_timestamp)
    &&& times.worker_completed_timestamp == caller_time(wire.worker_completed_timestamp)
    &&& times.input_fetch_start_timestamp == caller_time(wire.input_fetch_start_timestamp)
    &&& times.input_fetch_completed_timestamp == caller_time(wire.input_fetch_completed_timestamp)
    &&& times.execution_start_timestamp == caller_time(wire.execution_start_timestamp)
    &&& times.execution_completed_timestamp == caller_time(wire.execution_completed_timestamp)
    &&& times.output_upload_start_timestamp == caller_time(wire.output_upload_start_timestamp)
    &&& times.output_upload_completed_timestamp == caller_time(
        wire.output_upload_completed_timestamp,
    )
    &&& times.input_analyzing_start_timestamp == caller_time(None)
    &&& times.input_analyzing_completed_timestamp == caller_time(None)
    &&& times.execution_dir@ == Seq::<char>::empty()
    &&& times.execution_attempts == 0
    &&& times.last_queued_timestamp == caller_time(None)
}

/// `result` is the caller's form of `wire`.
pub open spec fn is_caller_result(wire: ActionResult, result: TActionResult2) -> bool {
    &&& result.output_files@.len() == wire.output_files@.len()
    &&& forall|i: int|
        0 <= i < wire.output_files@.len() ==> #[trigger] is_caller_file(
            wire.output_files@[i],
            result.output_files@[i],
        )
    &&& result.output_symlinks@.len() == wire.output_symlinks@.len()
    &&& forall|i: int|
        0 <= i < wire.output_symlinks@.len() ==> {
            &&& (#[trigger] result.output_symlinks@[i]).name == wire.output_symlinks@[i].path
            &&& result.output_symlinks@[i].target == wire.output_symlinks@[i].target
        }
    &&& result.output_directories@.len() == wire.output_directories@.len()
    &&& forall|i: int|
        0 <= i < wire.output_directories@.len() ==> #[trigger] is_caller_directory(
            wire.output_directories@[i],
            result.output_directories@[i],
        )
    &&& result.exit_code == wire.exit_code
    &&& result.stdout_raw == Some(wire.stdout_raw)
    &&& result.stdout_digest == caller_digest(wire.stdout_digest)
    &&& result.stderr_raw == Some(wire.stderr_raw)
    &&& result.stderr_digest == caller_digest(wire.stderr_digest)
    &&& wire.execution_metadata matches Some(metadata)
    &&& is_caller_metadata(metadata, result.execution_metadata)
}

/// What is missing from a result off the wire, if anything is.
pub open spec fn missing_from_result(wire: ActionResult) -> Option<Seq<char>> {
    if wire.execution_metadata is None {
        Some("The execution metadata are not defined."@)
    } else if exists|i: int|
        0 <= i < wire.output_files@.len() && (#[trigger] wire.output_files@[i]).digest is None {
        Some("Digest not found."@)
    } else if exists|i: int|
        0 <= i < wire.output_directories@.len() && (
        #[trigger] wire.output_directories@[i]).tree_digest is None {
        Some("Tree digest not defined."@)
    } else {
        None
    }
}

fn convert_output_files(files: Vec<OutputFile>) -> (converted: Result<Vec<TFile>, Error>)
    ensures
        converted matches Ok(out) ==> {
            &&& out@.len() == files@.len()
            &&& forall|i: int|
                0 <= i < files@.len() ==> #[trigger] is_caller_file(files@[i], out@[i])
        },
        converted is Err <==> exists|i: int|
            0 <= i < files@.len() && (#[trigger] files@[i]).digest is None,
        converted matches Err(error) ==> error.says("Digest not found."@),
{
    let mut out: Vec<TFile> = Vec::new();
    let ghost all = files@;
    for output_file in it: files.into_iter()
        invariant
            it.seq() == all,
            out@.len() == it.index(),
            forall|i: int| 0 <= i < it.index() ==> #[trigger] is_caller_file(all[i], out@[i]),
            forall|i: int| 0 <= i < it.index() ==> (#[trigger] all[i]).digest is Some,
    {
        assert(all[it.index() as int] == output_file);
        match output_file.digest {
            None => {
                return Err(Error::msg("Digest not found.".to_owned()));
            },
            Some(digest) => {
                let file = TFile {
                    digest: DigestWithStatus {
                        status: tstatus_ok(),
                        digest: tdigest_from(digest),
                    },
                    name: output_file.path,
                    existed: false,
                    executable: output_file.is_executable,
                    ttl: 0,
                };
                assert(is_caller_file(all[it.index() as int], file));
                out.push(file);
            },
        }
    }
    Ok(out)
}

fn convert_output_symlinks(symlinks: Vec<OutputSymlink>) -> (out: Vec<TSymlink>)
    ensures
        out@.len() == symlinks@.len(),
        forall|i: int|
            0 <= i < symlinks@.len() ==> {
                &&& (#[trigger] out@[i]).name == symlinks@[i].path
                &&& out@[i].target == symlinks@[i].target
            },
{
    let mut out: Vec<TSymlink> = Vec::new();
    let ghost all = symlinks@;
    for output_symlink in it: symlinks.into_iter()
        invariant
            it.seq() == all,
            out@.len() == it.index(),
            forall|i: int|
                0 <= i < it.index() ==> {
                    &&& (#[trigger] out@[i]).name == all[i].path
                    &&& out@[i].target == all[i].target
                },
    {
        out.push(TSymlink { name: output_symlink.path, target: output_symlink.target });
    }
    out
}

fn convert_output_directories(directories: Vec<OutputDirectory>) -> (converted: Result<
    Vec<TDirectory2>,
    Error,
>)
    ensures
        converted matches Ok(out) ==> {
            &&& out@.len() == directories@.len()
            &&& forall|i: int|
                0 <= i < directories@.len() ==> #[trigger] is_caller_directory(
                    directories@[i],
                    out@[i],
                )
        },
        converted is Err <==> exists|i: int|
            0 <= i < directories@.len() && (#[trigger] directories@[i]).tree_digest is None,
        converted matches Err(error) ==> error.says("Tree digest not defined."@),
{
    let mut out: Vec<TDirectory2> = Vec::new();
    let ghost all = directories@;
    for output_directory in it: directories.into_iter()
        invariant
            it.seq() == all,
            out@.len() == it.index(),
            forall|i: int| 0 <= i < it.index() ==> #[trigger] is_caller_directory(all[i], out@[i]),
            forall|i: int| 0 <= i < it.index() ==> (#[trigger] all[i]).tree_digest is Some,
    {
        assert(all[it.index() as int] == output_directory);
        match output_directory.tree_digest {
            None => {
                return Err(Error::msg("Tree digest not defined.".to_owned()));
            },
            Some(tree_digest) => {
                let digest = tdigest_from(tree_digest);
                let directory = TDirectory2 {
                    path: output_directory.path,
                    tree_digest: digest.clone(),
                    root_directory_digest: digest,
                };
                assert(is_caller_directory(all[it.index() as int], directory));
                out.push(directory);
            },
        }
    }
    Ok(out)
}

/// Takes an action result off the wire. Fails where the execution metadata, a
/// file's digest or a directory's digest is missing.
pub fn convert_action_result(action_result: ActionResult) -> (converted: Result<
    TActionResult2,
    Error,
>)
    ensures
        match missing_from_result(action_result) {
            Some(text) => converted is Err && converted->Err_0.says(text),
            None => converted is Ok && is_caller_result(action_result, converted->Ok_0),
        },
        converted matches Ok(result) ==> {
            &&& result.stdout_raw matches Some(stdout) && stdout@ == action_result.stdout_raw@
            &&& result.stderr_raw matches Some(stderr) && stderr@ == action_result.stderr_raw@
            &&& result.exit_code == action_result.exit_code
        },
{
    let execution_metadata = match action_result.execution_metadata {
        Some(metadata) => metadata,
        None => {
            return Err(Error::msg("The execution metadata are not defined.".to_owned()));
        },
    };
    let output_files = match convert_output_files(action_result.output_files) {
        Ok(files) => files,
        Err(error) => {
            return Err(error);
        },
    };
    let output_symlinks = convert_output_symlinks(action_result.output_symlinks);
    let output_directories = match convert_output_directories(action_result.output_directories) {
        Ok(directories) => directories,
        Err(error) => {
            return Err(error);
        },
    };
    Ok(
        TActionResult2 {
            output_files,
            output_symlinks,
            output_directories,
            exit_code: action_result.exit_code,
            stdout_raw: Some(action_result.stdout_raw),
            stdout_digest: optional_tdigest_from(action_result.stdout_digest),
            stderr_raw: Some(action_result.stderr_raw),
            stderr_digest: optional_tdigest_from(action_result.stderr_digest),
            execution_metadata: TExecutedActionMetadata {
                worker: execution_metadata.worker,
                queued_timestamp: ttimestamp_from(execution_metadata.queued_timestamp),
                worker_start_timestamp: ttimestamp_from(execution_metadata.worker_start_timestamp),
                worker_completed_timestamp: ttimestamp_from(
                    execution_metadata.worker_completed_timestamp,
                ),
                input_fetch_start_timestamp: ttimestamp_from(
                    execution_metadata.input_fetch_start_timestamp,
                ),
                input_fetch_completed_timestamp: ttimestamp_from(
                    execution_metadata.input_fetch_completed_timestamp,
                ),
                execution_start_timestamp: ttimestamp_from(
                    execution_metadata.execution_start_timestamp,
                ),
                execution_completed_timestamp: ttimestamp_from(
                    execution_metadata.execution_completed_timestamp,
                ),
                output_upload_start_timestamp: ttimestamp_from(
                    execution_metadata.output_upload_start_timestamp,
                ),
                output_upload_completed_timestamp: ttimestamp_from(
                    execution_metadata.output_upload_completed_timestamp,
                ),
                input_analyzing_start_timestamp: TTimestamp::unix_epoch(),
                input_analyzing_completed_timestamp: TTimestamp::unix_epoch(),
                execution_dir: String::new(),
                execution_attempts: 0,
                last_queued_timestamp: TTimestamp::unix_epoch(),
            },
        },
    )
}

/// The error of a span that does not fit the wire's form.
#[verifier::external_type_specification]
#[verifier::external_body]
pub struct ExDurationError(prost_types::DurationError);

/// `prost_types::Duration::try_from` a `std::time::Duration`: the same seconds and
/// nanoseconds where the seconds fit in an `i64`, an error otherwise.
#[verifier::external_body]
fn wire_duration(secs: u64, subsec_nanos: u32) -> (converted: Result<
    (i64, i32),
    prost_types::DurationError,
>)
    requires
        subsec_nanos < NANOS_PER_SEC,
    ensures
        converted is Ok == (secs <= i64::MAX),
        converted matches Ok(wire) ==> wire.0 == secs && wire.1 == subsec_nanos,
{
    let wire = prost_types::Duration::try_from(std::time::Duration::new(secs, subsec_nanos))?;
    Ok((wire.seconds, wire.nanos))
}

/// The longest span that the wire's form of a duration holds, in nanoseconds.
pub open spec fn fits_wire_duration(nanos: nat) -> bool {
    nanos / NANOS_PER_SEC as nat <= i64::MAX
}

/// The wire's form of a span of time, where it has one.
pub open spec fn is_wire_span(nanos: nat, wire: Option<WireDuration>) -> bool {
    if fits_wire_duration(nanos) {
        &&& wire matches Some(span)
        &&& span.seconds == nanos / NANOS_PER_SEC as nat
        &&& span.nanos == nanos % NANOS_PER_SEC as nat
    } else {
        wire is None
    }
}

/// The wire's form of a span of time, where it has one.
pub fn wire_span(span: Duration) -> (wire: Option<WireDuration>)
    ensures
        is_wire_span(span@, wire),
{
    match wire_duration(span.as_secs(), span.subsec_nanos()) {
        Ok((seconds, nanos)) => Some(WireDuration { seconds, nanos }),
        Err(_) => None,
    }
}

/// The span that the wire's form spells out, in nanoseconds. Below zero is possible.
pub open spec fn wire_nanos(wire: WireDuration) -> int {
    wire.seconds * NANOS_PER_SEC + wire.nanos
}

/// The longest span that the wire's form spells out once it is in range.
pub const MAX_WIRE_NANOS: u128 = 9_223_372_036_854_775_807_999_999_999;

/// The longest span below zero that the wire's form spells out once it is in range.
pub const MAX_NEGATIVE_WIRE_NANOS: u128 = 9_223_372_036_854_775_808_999_999_999;

/// `std::time::Duration::try_from` a `prost_types::Duration`: the span that seconds
/// and nanoseconds together come to, cut off at the longest that is in range; an
/// error where they come to less than nothing. Seconds next to the least one are left
/// out, where the error's own magnitude may overflow.
#[verifier::external_body]
fn span_of_wire(seconds: i64, nanos: i32) -> (converted: Result<
    (u64, u32),
    prost_types::DurationError,
>)
    requires
        seconds > i64::MIN + 2,
    ensures
        converted is Ok == (seconds * NANOS_PER_SEC + nanos >= 0),
        converted matches Ok(span) ==> span.1 < NANOS_PER_SEC,
        converted matches Ok(span) ==> span.0 * NANOS_PER_SEC + span.1 == if seconds * NANOS_PER_SEC
            + nanos <= MAX_WIRE_NANOS {
            seconds * NANOS_PER_SEC + nanos
        } else {
            MAX_WIRE_NANOS as int
        },
{
    let span = std::time::Duration::try_from(prost_types::Duration { seconds, nanos })?;
    Ok((span.as_secs(), span.subsec_nanos()))
}

/// The text of the error over a span below zero.
pub open spec fn negative_span_text(wire: WireDuration) -> Seq<char> {
    "failed to convert negative duration: "@ + span_text(
        if -wire_nanos(wire) <= MAX_NEGATIVE_WIRE_NANOS {
            -wire_nanos(wire) as nat
        } else {
            MAX_NEGATIVE_WIRE_NANOS as nat
        },
    )
}

/// Reads a span in the wire's form.
pub fn duration_from_wire(wire: WireDuration) -> (span: Result<Duration, Error>)
    ensures
        span is Ok == (wire_nanos(wire) >= 0),
        span matches Ok(read) ==> read@ == if wire_nanos(wire) <= MAX_WIRE_NANOS {
            wire_nanos(wire)
        } else {
            MAX_WIRE_NANOS as int
        },
        span matches Err(error) ==> error.says(negative_span_text(wire)),
{
    if wire.seconds > i64::MIN + 2 {
        match span_of_wire(wire.seconds, wire.nanos) {
            Ok((secs, subsec_nanos)) => {
                return Ok(Duration::new(secs, subsec_nanos));
            },
            Err(_) => {},
        }
    }
    let below: i128 = -(wire.seconds as i128 * NANOS_PER_SEC as i128 + wire.nanos as i128);
    let magnitude: u128 = if below as u128 <= MAX_NEGATIVE_WIRE_NANOS {
        below as u128
    } else {
        MAX_NEGATIVE_WIRE_NANOS
    };
    let mut text = "failed to convert negative duration: ".to_string();
    text.append(Duration::saturating_from_nanos(magnitude).to_text().as_str());
    Err(Error::msg(text))
}

/// The time between an action's start and end, as the metadata gives them.
pub open spec fn executed_for(metadata: TExecutedActionMetadata) -> nat {
    let start = metadata.execution_start_timestamp.since_epoch();
    let end = metadata.execution_completed_timestamp.since_epoch();
    if end >= start {
        saturated_nanos((end - start) as nat)
    } else {
        0
    }
}

/// `wire` is the wire's form of `times`.
pub open spec fn is_wire_metadata(
    times: TExecutedActionMetadata,
    wire: ExecutedActionMetadata,
) -> bool {
    &&& wire.worker == times.worker
    &&& wire.queued_timestamp == Some(wire_time(times.queued_timestamp))
    &&& wire.worker_start_timestamp == Some(wire_time(times.worker_start_timestamp))
    &&& wire.worker_completed_timestamp == Some(wire_time(times.worker_completed_timestamp))
    &&& wire.input_fetch_start_timestamp == Some(wire_time(times.input_fetch_start_timestamp))
    &&& wire.input_fetch_completed_timestamp == Some(
        wire_time(times.input_fetch_completed_timestamp),
    )
    &&& wire.execution_start_timestamp == Some(wire_time(times.execution_start_timestamp))
    &&& wire.execution_completed_timestamp == Some(wire_time(times.execution_completed_timestamp))
    &&& wire.virtual_execution_duration matches Some(ran)
    &&& ran.seconds == executed_for(times) / NANOS_PER_SEC as nat
    &&& ran.nanos == executed_for(times) % NANOS_PER_SEC as nat
    &&& wire.output_upload_start_timestamp == Some(wire_time(times.output_upload_start_timestamp))
    &&& wire.output_upload_completed_timestamp == Some(
        wire_time(times.output_upload_completed_timestamp),
    )
}

/// `wire` is the wire's form of `file`.
pub open spec fn is_wire_file(file: TFile, wire: OutputFile) -> bool {
    &&& wire.path == file.name
    &&& wire.digest == Some(wire_digest(file.digest.digest))
    &&& wire.is_executable == file.executable
    &&& wire.contents@ == Seq::<u8>::empty()
}

/// `wire` is the wire's form of `directory`.
pub open spec fn is_wire_directory(directory: TDirectory2, wire: OutputDirectory) -> bool {
    &&& wire.path == directory.path
    &&& wire.tree_digest == Some(wire_digest(directory.tree_digest))
    &&& !wire.is_topologically_sorted
    &&& wire.root_directory_digest is None
}

/// `wire` is the wire's form of `result`.
pub open spec fn is_wire_result(result: TActionResult2, wire: ActionResult) -> bool {
    &&& wire.output_files@.len() == result.output_files@.len()
    &&& forall|i: int|
        0 <= i < result.output_files@.len() ==> #[trigger] is_wire_file(
            result.output_files@[i],
            wire.output_files@[i],
        )
    &&& wire.output_symlinks@.len() == result.output_symlinks@.len()
    &&& forall|i: int|
        0 <= i < result.output_symlinks@.len() ==> {
            &&& (#[trigger] wire.output_symlinks@[i]).path == result.output_symlinks@[i].name
            &&& wire.output_symlinks@[i].target == result.output_symlinks@[i].target
        }
    &&& wire.output_directories@.len() == result.output_directories@.len()
    &&& forall|i: int|
        0 <= i < result.output_directories@.len() ==> #[trigger] is_wire_directory(
            result.output_directories@[i],
            wire.output_directories@[i],
        )
    &&& wire.exit_code == result.exit_code
    &&& wire.stdout_raw@ == Seq::<u8>::empty()
    &&& wire.stdout_digest == optional_wire_digest(result.stdout_digest)
    &&& wire.stderr_raw@ == Seq::<u8>::empty()
    &&& wire.stderr_digest == optional_wire_digest(result.stderr_digest)
    &&& wire.execution_metadata matches Some(metadata)
    &&& is_wire_metadata(result.execution_metadata, metadata)
}

fn wire_output_files(files: Vec<TFile>) -> (out: Vec<OutputFile>)
    ensures
        out@.len() == files@.len(),
        forall|i: int| 0 <= i < files@.len() ==> #[trigger] is_wire_file(files@[i], out@[i]),
{
    let mut out: Vec<OutputFile> = Vec::new();
    let ghost all = files@;
    for output_file in it: files.into_iter()
        invariant
            it.seq() == all,
            out@.len() == it.index(),
            forall|i: int| 0 <= i < it.index() ==> #[trigger] is_wire_file(all[i], out@[i]),
    {
        let file = OutputFile {
            path: output_file.name,
            digest: Some(tdigest_to(output_file.digest.digest)),
            is_executable: output_file.executable,
            contents: Vec::new(),
        };
        assert(is_wire_file(all[it.index() as int], file));
        out.push(file);
    }
    out
}

fn wire_output_symlinks(symlinks: Vec<TSymlink>) -> (out: Vec<OutputSymlink>)
    ensures
        out@.len() == symlinks@.len(),
        forall|i: int|
            0 <= i < symlinks@.len() ==> {
                &&& (#[trigger] out@[i]).path == symlinks@[i].name
                &&& out@[i].target == symlinks@[i].target
            },
{
    let mut out: Vec<OutputSymlink> = Vec::new();
    let ghost all = symlinks@;
    for output_symlink in it: symlinks.into_iter()
        invariant
            it.seq() == all,
            out@.len() == it.index(),
            forall|i: int|
                0 <= i < it.index() ==> {
                    &&& (#[trigger] out@[i]).path == all[i].name
                    &&& out@[i].target == all[i].target
                },
    {
        out.push(OutputSymlink { path: output_symlink.name, target: output_symlink.target });
    }
    out
}

fn wire_output_directories(directories: Vec<TDirectory2>) -> (out: Vec<OutputDirectory>)
    ensures
        out@.len() == directories@.len(),
        forall|i: int|
            0 <= i < directories@.len() ==> #[trigger] is_wire_directory(directories@[i], out@[i]),
{
    let mut out: Vec<OutputDirectory> = Vec::new();
    let ghost all = directories@;
    for output_directory in it: directories.into_iter()
        invariant
            it.seq() == all,
            out@.len() == it.index(),
            forall|i: int| 0 <= i < it.index() ==> #[trigger] is_wire_directory(all[i], out@[i]),
    {
        let directory = OutputDirectory {
            path: output_directory.path,
            tree_digest: Some(tdigest_to(output_directory.tree_digest)),
            is_topologically_sorted: false,
            root_directory_digest: None,
        };
        assert(is_wire_directory(all[it.index() as int], directory));
        out.push(directory);
    }
    out
}

/// Puts an action result on the wire. Fails where the action ran for longer than
/// the wire's form of a duration holds.
pub fn convert_t_action_result2(t_action_result: TActionResult2) -> (converted: Result<
    ActionResult,
    Error,
>)
    ensures
        fits_wire_duration(executed_for(t_action_result.execution_metadata)) ==> {
            &&& converted is Ok
            &&& is_wire_result(t_action_result, converted->Ok_0)
        },
        !fits_wire_duration(executed_for(t_action_result.execution_metadata)) ==> {
            &&& converted is Err
            &&& converted->Err_0.says("failed to convert duration out of range"@)
        },
{
    let metadata = t_action_result.execution_metadata;
    let ran = metadata.execution_completed_timestamp.saturating_duration_since(
        &metadata.execution_start_timestamp,
    );
    let (seconds, nanos) = match wire_duration(ran.as_secs(), ran.subsec_nanos()) {
        Ok(wire) => wire,
        Err(_) => {
            return Err(Error::msg("failed to convert duration out of range".to_owned()));
        },
    };
    let execution_metadata = Some(
        ExecutedActionMetadata {
            worker: metadata.worker,
            queued_timestamp: Some(ttimestamp_to(metadata.queued_timestamp)),
            worker_start_timestamp: Some(ttimestamp_to(metadata.worker_start_timestamp)),
            worker_completed_timestamp: Some(ttimestamp_to(metadata.worker_completed_timestamp)),
            input_fetch_start_timestamp: Some(ttimestamp_to(metadata.input_fetch_start_timestamp)),
            input_fetch_completed_timestamp: Some(
                ttimestamp_to(metadata.input_fetch_completed_timestamp),
            ),
            execution_start_timestamp: Some(ttimestamp_to(metadata.execution_start_timestamp)),
            execution_completed_timestamp: Some(
                ttimestamp_to(metadata.execution_completed_timestamp),
            ),
            virtual_execution_duration: Some(WireDuration { seconds, nanos }),
            output_upload_start_timestamp: Some(
                ttimestamp_to(metadata.output_upload_start_timestamp),
            ),
            output_upload_completed_timestamp: Some(
                ttimestamp_to(metadata.output_upload_completed_timestamp),
            ),
        },
    );
    Ok(
        ActionResult {
            output_files: wire_output_files(t_action_result.output_files),
            output_symlinks: wire_output_symlinks(t_action_result.output_symlinks),
            output_directories: wire_output_directories(t_action_result.output_directories),
            exit_code: t_action_result.exit_code,
            stdout_raw: Vec::new(),
            stdout_digest: optional_tdigest_to(t_action_result.stdout_digest),
            stderr_raw: Vec::new(),
            stderr_digest: optional_tdigest_to(t_action_result.stderr_digest),
            execution_metadata,
        },
    )
}

/// An action result that was put on the wire can be taken off it again, and what
/// comes back names the same outputs, exit code, digests of captured streams, worker
/// and times.
pub proof fn written_results_read_back(
    result: TActionResult2,
    wire: ActionResult,
    back: TActionResult2,
)
    requires
        is_wire_result(result, wire),
        is_caller_result(wire, back),
    ensures
        missing_from_result(wire) is None,
        back.output_files@.len() == result.output_files@.len(),
        forall|i: int|
            0 <= i < result.output_files@.len() ==> {
                &&& (#[trigger] back.output_files@[i]).name == result.output_files@[i].name
                &&& back.output_files@[i].digest.digest == result.output_files@[i].digest.digest
                &&& back.output_files@[i].executable == result.output_files@[i].executable
            },
        back.output_symlinks@ =~= result.output_symlinks@,
        back.output_directories@.len() == result.output_directories@.len(),
        forall|i: int|
            0 <= i < result.output_directories@.len() ==> {
                &&& (#[trigger] back.output_directories@[i]).path
                    == result.output_directories@[i].path
                &&& back.output_directories@[i].tree_digest
                    == result.output_directories@[i].tree_digest
            },
        back.exit_code == result.exit_code,
        back.stdout_digest == result.stdout_digest,
        back.stderr_digest == result.stderr_digest,
        back.execution_metadata.worker == result.execution_metadata.worker,
        back.execution_metadata.queued_timestamp == result.execution_metadata.queued_timestamp,
        back.execution_metadata.worker_start_timestamp
            == result.execution_metadata.worker_start_timestamp,
        back.execution_metadata.worker_completed_timestamp
            == result.execution_metadata.worker_completed_timestamp,
        back.execution_metadata.input_fetch_start_timestamp
            == result.execution_metadata.input_fetch_start_timestamp,
        back.execution_metadata.input_fetch_completed_timestamp
            == result.execution_metadata.input_fetch_completed_timestamp,
        back.execution_metadata.execution_start_timestamp
            == result.execution_metadata.execution_start_timestamp,
        back.execution_metadata.execution_completed_timestamp
            == result.execution_metadata.execution_completed_timestamp,
        back.execution_metadata.output_upload_start_timestamp
            == result.execution_metadata.output_upload_start_timestamp,
        back.execution_metadata.output_upload_completed_timestamp
            == result.execution_metadata.output_upload_completed_timestamp,
{
    assert forall|i: int| 0 <= i < result.output_files@.len() implies {
        &&& (#[trigger] back.output_files@[i]).name == result.output_files@[i].name
        &&& back.output_files@[i].digest.digest == result.output_files@[i].digest.digest
        &&& back.output_files@[i].executable == result.output_files@[i].executable
    } by {
        assert(is_wire_file(result.output_files@[i], wire.output_files@[i]));
        assert(is_caller_file(wire.output_files@[i], back.output_files@[i]));
    }
    assert forall|i: int| 0 <= i < wire.output_files@.len() implies (
    #[trigger] wire.output_files@[i]).digest is Some by {
        assert(is_wire_file(result.output_files@[i], wire.output_files@[i]));
    }
    assert forall|i: int| 0 <= i < result.output_directories@.len() implies {
        &&& (#[trigger] back.output_directories@[i]).path == result.output_directories@[i].path
        &&& back.output_directories@[i].tree_digest == result.output_directories@[i].tree_digest
    } by {
        assert(is_wire_directory(result.output_directories@[i], wire.output_directories@[i]));
        assert(is_caller_directory(wire.output_directories@[i], back.output_directories@[i]));
    }
    assert forall|i: int| 0 <= i < wire.output_directories@.len() implies (
    #[trigger] wire.output_directories@[i]).tree_digest is Some by {
        assert(is_wire_directory(result.output_directories@[i], wire.output_directories@[i]));
    }
    assert forall|i: int| 0 <= i < result.output_symlinks@.len() implies back.output_symlinks@[i]
        == result.output_symlinks@[i] by {
        assert(wire.output_symlinks@[i].path == result.output_symlinks@[i].name);
    }
}

/// A result off the wire is taken over exactly where it has metadata, a digest for every
/// file and one for every directory. Otherwise the first of these that is missing is
/// named.
pub proof fn whole_results_are_taken_off_the_wire(
    wire: ActionResult,
    converted: Result<TActionResult2, Error>,
)
    requires
        call_ensures(convert_action_result, (wire,), converted),
    ensures
        ({
            let files = forall|i: int|
                0 <= i < wire.output_files@.len() ==> (
                #[trigger] wire.output_files@[i]).digest is Some;
            let directories = forall|i: int|
                0 <= i < wire.output_directories@.len() ==> (
                #[trigger] wire.output_directories@[i]).tree_digest is Some;
            &&& converted is Ok <==> wire.execution_metadata is Some && files && directories
            &&& wire.execution_metadata is None ==> converted->Err_0.says(
                "The execution metadata are not defined."@,
            )
            &&& wire.execution_metadata is Some && !files ==> converted->Err_0.says(
                "Digest not found."@,
            )
            &&& wire.execution_metadata is Some && files && !directories
                ==> converted->Err_0.says("Tree digest not defined."@)
        }),
{
}

/// A result off the wire carries the bytes of both captured streams, their digests and
/// the exit code.
pub proof fn captured_streams_are_kept(
    wire: ActionResult,
    converted: Result<TActionResult2, Error>,
)
    requires
        call_ensures(convert_action_result, (wire,), converted),
        converted is Ok,
    ensures
        converted->Ok_0.exit_code == wire.exit_code,
        converted->Ok_0.stdout_raw is Some,
        converted->Ok_0.stdout_raw->0@ == wire.stdout_raw@,
        converted->Ok_0.stderr_raw is Some,
        converted->Ok_0.stderr_raw->0@ == wire.stderr_raw@,
        converted->Ok_0.stdout_digest is Some <==> wire.stdout_digest is Some,
        wire.stdout_digest matches Some(digest) ==> {
            &&& converted->Ok_0.stdout_digest->0.hash@ == digest.hash@
            &&& converted->Ok_0.stdout_digest->0.size_in_bytes == digest.size_bytes
        },
        converted->Ok_0.stderr_digest is Some <==> wire.stderr_digest is Some,
        wire.stderr_digest matches Some(digest) ==> {
            &&& converted->Ok_0.stderr_digest->0.hash@ == digest.hash@
            &&& converted->Ok_0.stderr_digest->0.size_in_bytes == digest.size_bytes
        },
{
}

/// A result off the wire names the same files, symlinks and directories in the same
/// order, each under its path, with its digest, and a file with its executable bit.
pub proof fn outputs_are_kept(wire: ActionResult, converted: Result<TActionResult2, Error>, i: int)
    requires
        call_ensures(convert_action_result, (wire,), converted),
        converted is Ok,
    ensures
        converted->Ok_0.output_files@.len() == wire.output_files@.len(),
        0 <= i < wire.output_files@.len() ==> {
            let file = converted->Ok_0.output_files@[i];
            let given = wire.output_files@[i];
            &&& file.name@ == given.path@
            &&& given.digest is Some
            &&& file.digest.digest.hash@ == given.digest->0.hash@
            &&& file.digest.digest.size_in_bytes == given.digest->0.size_bytes
            &&& file.digest.status.code == 0
            &&& file.digest.status.message@.len() == 0
            &&& file.executable == given.is_executable
            &&& !file.existed
            &&& file.ttl == 0
        },
        converted->Ok_0.output_symlinks@.len() == wire.output_symlinks@.len(),
        0 <= i < wire.output_symlinks@.len() ==> {
            let symlink = converted->Ok_0.output_symlinks@[i];
            &&& symlink.name@ == wire.output_symlinks@[i].path@
            &&& symlink.target@ == wire.output_symlinks@[i].target@
        },
        converted->Ok_0.output_directories@.len() == wire.output_directories@.len(),
        0 <= i < wire.output_directories@.len() ==> {
            let directory = converted->Ok_0.output_directories@[i];
            let given = wire.output_directories@[i];
            &&& directory.path@ == given.path@
            &&& given.tree_digest is Some
            &&& directory.tree_digest.hash@ == given.tree_digest->0.hash@
            &&& directory.tree_digest.size_in_bytes == given.tree_digest->0.size_bytes
            &&& directory.root_directory_digest.hash@ == given.tree_digest->0.hash@
            &&& directory.root_directory_digest.size_in_bytes == given.tree_digest->0.size_bytes
        },
{
    let result = converted->Ok_0;
    if 0 <= i < wire.output_files@.len() {
        assert(is_caller_file(wire.output_files@[i], result.output_files@[i]));
    }
    if 0 <= i < wire.output_directories@.len() {
        assert(is_caller_directory(wire.output_directories@[i], result.output_directories@[i]));
    }
    if 0 <= i < wire.output_symlinks@.len() {
        assert(result.output_symlinks@[i].name == wire.output_symlinks@[i].path);
    }
}

/// A result off the wire keeps the worker and every moment of the run under its own
/// name; a moment that the wire does not give is the epoch.
pub proof fn moments_are_kept(
    wire: ActionResult,
    converted: Result<TActionResult2, Error>,
    given: Option<Timestamp>,
    taken: TTimestamp,
)
    requires
        call_ensures(convert_action_result, (wire,), converted),
        converted is Ok,
        ({
            let theirs = wire.execution_metadata->0;
            let ours = converted->Ok_0.execution_metadata;
            ||| given == theirs.queued_timestamp && taken == ours.queued_timestamp
            ||| given == theirs.worker_start_timestamp && taken == ours.worker_start_timestamp
            ||| given == theirs.worker_completed_timestamp && taken
                == ours.worker_completed_timestamp
            ||| given == theirs.input_fetch_start_timestamp && taken
                == ours.input_fetch_start_timestamp
            ||| given == theirs.input_fetch_completed_timestamp && taken
                == ours.input_fetch_completed_timestamp
            ||| given == theirs.execution_start_timestamp && taken
                == ours.execution_start_timestamp
            ||| given == theirs.execution_completed_timestamp && taken
                == ours.execution_completed_timestamp
            ||| given == theirs.output_upload_start_timestamp && taken
                == ours.output_upload_start_timestamp
            ||| given == theirs.output_upload_completed_timestamp && taken
                == ours.output_upload_completed_timestamp
            ||| given is None && taken == ours.input_analyzing_start_timestamp
            ||| given is None && taken == ours.input_analyzing_completed_timestamp
            ||| given is None && taken == ours.last_queued_timestamp
        }),
    ensures
        given matches Some(moment) ==> taken.seconds == moment.seconds && taken.nanos
            == moment.nanos,
        given is None ==> taken.seconds == 0 && taken.nanos == 0,
        converted->Ok_0.execution_metadata.worker@ == wire.execution_metadata->0.worker@,
        converted->Ok_0.execution_metadata.execution_attempts == 0,
        converted->Ok_0.execution_metadata.execution_dir@.len() == 0,
{
}

/// A result is put on the wire exactly where the time that the action ran fits there. It
/// then says how long that was: the time from its start to its end, or none where the
/// end does not come later.
pub proof fn run_times_are_put_on_the_wire(
    result: TActionResult2,
    converted: Result<ActionResult, Error>,
)
    requires
        call_ensures(convert_t_action_result2, (result,), converted),
    ensures
        ({
            let start = result.execution_metadata.execution_start_timestamp;
            let end = result.execution_metadata.execution_completed_timestamp;
            let ran = (end.seconds - start.seconds) * 1_000_000_000 + (end.nanos - start.nanos);
            let longest = 0x7fff_ffff_ffff_ffff * 1_000_000_000 + 999_999_999;
            &&& converted is Ok <==> ran <= longest
            &&& converted is Err ==> converted->Err_0.says(
                "failed to convert duration out of range"@,
            )
            &&& converted matches Ok(wire) ==> {
                &&& wire.execution_metadata is Some
                &&& wire.execution_metadata->0.virtual_execution_duration is Some
                &&& ({
                    let span = wire.execution_metadata->0.virtual_execution_duration->0;
                    &&& 0 <= span.nanos < 1_000_000_000
                    &&& ran >= 0 ==> span.seconds * 1_000_000_000 + span.nanos == ran
                    &&& ran < 0 ==> span.seconds == 0 && span.nanos == 0
                })
            }
        }),
{
    let start = result.execution_metadata.execution_start_timestamp;
    let end = result.execution_metadata.execution_completed_timestamp;
    let ran = (end.seconds - start.seconds) * 1_000_000_000 + (end.nanos - start.nanos);
    assert(end.since_epoch() - start.since_epoch() == ran);
}

/// A result on the wire names the same files, symlinks and directories in the same
/// order, the exit code and the digests of the captured streams, whose bytes stay
/// behind.
pub proof fn outputs_are_put_on_the_wire(
    result: TActionResult2,
    converted: Result<ActionResult, Error>,
    i: int,
)
    requires
        call_ensures(convert_t_action_result2, (result,), converted),
        converted is Ok,
    ensures
        converted->Ok_0.exit_code == result.exit_code,
        converted->Ok_0.stdout_raw@.len() == 0,
        converted->Ok_0.stderr_raw@.len() == 0,
        converted->Ok_0.stdout_digest is Some <==> result.stdout_digest is Some,
        result.stdout_digest matches Some(digest) ==> {
            &&& converted->Ok_0.stdout_digest->0.hash@ == digest.hash@
            &&& converted->Ok_0.stdout_digest->0.size_bytes == digest.size_in_bytes
        },
        converted->Ok_0.stderr_digest is Some <==> result.stderr_digest is Some,
        result.stderr_digest matches Some(digest) ==> {
            &&& converted->Ok_0.stderr_digest->0.hash@ == digest.hash@
            &&& converted->Ok_0.stderr_digest->0.size_bytes == digest.size_in_bytes
        },
        converted->Ok_0.output_files@.len() == result.output_files@.len(),
        0 <= i < result.output_files@.len() ==> {
            let file = converted->Ok_0.output_files@[i];
            let given = result.output_files@[i];
            &&& file.path@ == given.name@
            &&& file.digest is Some
            &&& file.digest->0.hash@ == given.digest.digest.hash@
            &&& file.digest->0.size_bytes == given.digest.digest.size_in_bytes
            &&& file.is_executable == given.executable
            &&& file.contents@.len() == 0
        },
        converted->Ok_0.output_symlinks@.len() == result.output_symlinks@.len(),
        0 <= i < result.output_symlinks@.len() ==> {
            let symlink = converted->Ok_0.output_symlinks@[i];
            &&& symlink.path@ == result.output_symlinks@[i].name@
            &&& symlink.target@ == result.output_symlinks@[i].target@
        },
        converted->Ok_0.output_directories@.len() == result.output_directories@.len(),
        0 <= i < result.output_directories@.len() ==> {
            let directory = converted->Ok_0.output_directories@[i];
            let given = result.output_directories@[i];
            &&& directory.path@ == given.path@
            &&& directory.tree_digest is Some
            &&& directory.tree_digest->0.hash@ == given.tree_digest.hash@
            &&& directory.tree_digest->0.size_bytes == given.tree_digest.size_in_bytes
            &&& directory.root_directory_digest is None
            &&& !directory.is_topologically_sorted
        },
{
    let wire = converted->Ok_0;
    if 0 <= i < result.output_files@.len() {
        assert(is_wire_file(result.output_files@[i], wire.output_files@[i]));
    }
    if 0 <= i < result.output_directories@.len() {
        assert(is_wire_directory(result.output_directories@[i], wire.output_directories@[i]));
    }
    if 0 <= i < result.output_symlinks@.len() {
        assert(wire.output_symlinks@[i].path == result.output_symlinks@[i].name);
    }
}

/// A result on the wire keeps the worker and every moment of the run under its own name.
pub proof fn moments_are_put_on_the_wire(
    result: TActionResult2,
    converted: Result<ActionResult, Error>,
    given: TTimestamp,
    put: Option<Timestamp>,
)
    requires
        call_ensures(convert_t_action_result2, (result,), converted),
        converted is Ok,
        ({
            let ours = result.execution_metadata;
            let theirs = converted->Ok_0.execution_metadata->0;
            ||| given == ours.queued_timestamp && put == theirs.queued_timestamp
            ||| given == ours.worker_start_timestamp && put == theirs.worker_start_timestamp
            ||| given == ours.worker_completed_timestamp && put
                == theirs.worker_completed_timestamp
            ||| given == ours.input_fetch_start_timestamp && put
                == theirs.input_fetch_start_timestamp
            ||| given == ours.input_fetch_completed_timestamp && put
                == theirs.input_fetch_completed_timestamp
            ||| given == ours.execution_start_timestamp && put
                == theirs.execution_start_timestamp
            ||| given == ours.execution_completed_timestamp && put
                == theirs.execution_completed_timestamp
            ||| given == ours.output_upload_start_timestamp && put
                == theirs.output_upload_start_timestamp
            ||| given == ours.output_upload_completed_timestamp && put
                == theirs.output_upload_completed_timestamp
        }),
    ensures
        put is Some,
        put->0.seconds == given.seconds,
        put->0.nanos == given.nanos,
        converted->Ok_0.execution_metadata->0.worker@ == result.execution_metadata.worker@,
{
}

/// A status off the wire is a success exactly where its code is zero, and a failure
/// keeps its code and what it says.
pub proof fn only_code_zero_is_a_success(
    status: RpcStatus,
    checked: Result<(), REClientError>,
)
    requires
        call_ensures(check_status, (status,), checked),
    ensures
        checked is Ok <==> status.code == 0,
        checked matches Err(error) ==> error.code == status.code && error.message@
            == status.message@,
{
}

/// A span that was put on the wire reads back as the same span.
pub proof fn written_spans_read_back(
    span: Duration,
    wire: WireDuration,
    back: Result<Duration, Error>,
)
    requires
        call_ensures(wire_span, (span,), Some(wire)),
        call_ensures(duration_from_wire, (wire,), back),
    ensures
        back is Ok,
        back->Ok_0@ == span@,
        0 <= wire.nanos < 1_000_000_000,
        wire.seconds >= 0,
        wire.seconds * 1_000_000_000 + wire.nanos == span@,
{
}

/// A span off the wire is what its seconds and nanoseconds come to together; below zero
/// it is refused.
pub proof fn wire_spans_add_up(wire: WireDuration, read: Result<Duration, Error>)
    requires
        call_ensures(duration_from_wire, (wire,), read),
    ensures
        ({
            let nanos = wire.seconds * 1_000_000_000 + wire.nanos;
            let longest = 0x7fff_ffff_ffff_ffff * 1_000_000_000 + 999_999_999;
            &&& read is Ok <==> nanos >= 0
            &&& 0 <= nanos <= longest ==> read->Ok_0@ == nanos
            &&& nanos > longest ==> read->Ok_0@ == longest
            &&& nanos < 0 && -nanos <= longest ==> read->Err_0.says(
                "failed to convert negative duration: "@ + span_text(-nanos as nat),
            )
        }),
{
}

/// The time between two moments is what their seconds and nanoseconds differ by, and
/// none where the second moment does not come later.
pub proof fn time_between_moments(later: TTimestamp, earlier: TTimestamp, span: Duration)
    requires
        call_ensures(TTimestamp::saturating_duration_since, (&later, &earlier), span),
    ensures
        ({
            let nanos = (later.seconds - earlier.seconds) * 1_000_000_000 + (later.nanos
                - earlier.nanos);
            &&& nanos >= 0 ==> span@ == nanos || nanos > 18_446_744_073_709_551_615_999_999_999
            &&& nanos < 0 ==> span@ == 0
        }),
{
    let nanos = (later.seconds - earlier.seconds) * 1_000_000_000 + (later.nanos - earlier.nanos);
    assert(later.since_epoch() - earlier.since_epoch() == nanos);
}

/// A span has a wire form exactly where its seconds fit, and the form adds up to it.
pub proof fn spans_are_put_on_the_wire(span: Duration, wire: Option<WireDuration>)
    requires
        call_ensures(wire_span, (span,), wire),
    ensures
        wire is Some <==> span@ < 9_223_372_036_854_775_808 * 1_000_000_000,
        wire matches Some(held) ==> {
            &&& 0 <= held.nanos < 1_000_000_000
            &&& held.seconds * 1_000_000_000 + held.nanos == span@
        },
{
}

} // verus!
