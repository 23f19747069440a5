//! How an execute stream is read to its end, and how a severed one is recovered.
use std::error::Error as StdError;

use buck2_re_recovery::client::{
    execute_reattach_budget, execute_reattach_concurrency, resolve_optional_secs,
    Buck2OssReConfiguration, EXECUTE_REATTACH_BUDGET_SECS_DEFAULT,
    EXECUTE_REATTACH_CONCURRENCY_DEFAULT, EXECUTE_REATTACH_CONCURRENCY_MIN,
};
use buck2_re_recovery::convert::{ActionResult, ExecutedActionMetadata, RpcStatus, Timestamp, WireDuration};
use buck2_re_recovery::digest::TDigest;
use buck2_re_recovery::duration::Duration;
use buck2_re_recovery::error::{Code, Error, ErrorLink, IoErrorKind, RootCause, Status};
use buck2_re_recovery::execute::{
    decode_operation, wire_execute_request, ExecuteRequest, ExecuteStream,
    ExecuteWithProgressResponse, GExecuteResponse, OpResult, Operation, Stage, StreamAction,
    StreamEvent,
};
use buck2_re_recovery::messages::{ExecutionPolicy, GExecuteRequest};
use buck2_re_recovery::names::InstanceName;
use buck2_re_recovery::reattach::{
    classify, is_wait_execution_unimplemented, jittered_backoff_bound, sample_jittered_backoff,
    DialTarget, ReattachState, RecoveryAction, RecoveryEvent, RetryCause, StreamOrigin,
    EXECUTE_REATTACH_BACKOFF_CAP_SECS,
};

const QUEUED: i32 = 2;
const EXECUTING: i32 = 3;
const INVALID_ARGUMENT: i32 = 3;
const INTERNAL: i32 = 13;

fn io_kind(kind: std::io::ErrorKind) -> IoErrorKind {
    match kind {
        std::io::ErrorKind::ConnectionRefused => IoErrorKind::ConnectionRefused,
        std::io::ErrorKind::ConnectionReset => IoErrorKind::ConnectionReset,
        std::io::ErrorKind::ConnectionAborted => IoErrorKind::ConnectionAborted,
        std::io::ErrorKind::NotConnected => IoErrorKind::NotConnected,
        std::io::ErrorKind::BrokenPipe => IoErrorKind::BrokenPipe,
        std::io::ErrorKind::TimedOut => IoErrorKind::TimedOut,
        std::io::ErrorKind::UnexpectedEof => IoErrorKind::UnexpectedEof,
        std::io::ErrorKind::InvalidData => IoErrorKind::InvalidData,
        _ => IoErrorKind::Other,
    }
}

fn code_of(code: tonic::Code) -> Code {
    match code {
        tonic::Code::Ok => Code::Success,
        tonic::Code::Cancelled => Code::Cancelled,
        tonic::Code::Unknown => Code::Unknown,
        tonic::Code::InvalidArgument => Code::InvalidArgument,
        tonic::Code::DeadlineExceeded => Code::DeadlineExceeded,
        tonic::Code::NotFound => Code::NotFound,
        tonic::Code::AlreadyExists => Code::AlreadyExists,
        tonic::Code::PermissionDenied => Code::PermissionDenied,
        tonic::Code::ResourceExhausted => Code::ResourceExhausted,
        tonic::Code::FailedPrecondition => Code::FailedPrecondition,
        tonic::Code::Aborted => Code::Aborted,
        tonic::Code::OutOfRange => Code::OutOfRange,
        tonic::Code::Unimplemented => Code::Unimplemented,
        tonic::Code::Internal => Code::Internal,
        tonic::Code::Unavailable => Code::Unavailable,
        tonic::Code::DataLoss => Code::DataLoss,
        tonic::Code::Unauthenticated => Code::Unauthenticated,
    }
}

/// What the library reads of a status of the transport.
fn status_of(status: &tonic::Status) -> Status {
    let mut text = status.to_string();
    let mut sources = Vec::new();
    let mut source = status.source();
    while let Some(error) = source {
        text.push_str(&format!(": {error}"));
        sources.push(if let Some(h2) = error.downcast_ref::<h2::Error>() {
            ErrorLink::H2 {
                is_io: h2.is_io(),
                reason: h2.reason().map(u32::from),
            }
        } else if let Some(io) = error.downcast_ref::<std::io::Error>() {
            ErrorLink::Io(io_kind(io.kind()))
        } else if let Some(inner) = error.downcast_ref::<tonic::Status>() {
            ErrorLink::Status(code_of(inner.code()))
        } else {
            ErrorLink::Other
        });
        source = error.source();
    }
    Status {
        code: code_of(status.code()),
        text,
        sources,
    }
}

fn h2_status(reason: h2::Reason) -> Status {
    status_of(&tonic::Status::from_error(Box::new(h2::Error::from(reason))))
}

fn io_status(kind: std::io::ErrorKind) -> Status {
    status_of(&tonic::Status::from_error(Box::new(
        std::io::Error::from(kind),
    )))
}

fn severed_status() -> Status {
    io_status(std::io::ErrorKind::ConnectionReset)
}

fn dial_error(status: &tonic::Status) -> Error {
    Error::new(RootCause::Status(status_of(status)))
}

fn default_reattach_budget() -> Option<Duration> {
    Some(Duration::from_secs(EXECUTE_REATTACH_BUDGET_SECS_DEFAULT))
}

fn test_execute_request(skip_cache_lookup: bool) -> ExecuteRequest {
    ExecuteRequest {
        action_digest: TDigest {
            hash: "aa".to_owned(),
            size_in_bytes: 3,
        },
        skip_cache_lookup,
        execution_policy: None,
    }
}

fn progress_operation(name: &str, stage: i32) -> Operation {
    Operation {
        name: name.to_owned(),
        done: false,
        metadata: Some(Ok(stage)),
        result: None,
    }
}

fn executed_metadata() -> ExecutedActionMetadata {
    ExecutedActionMetadata {
        worker: String::new(),
        queued_timestamp: None,
        worker_start_timestamp: None,
        worker_completed_timestamp: None,
        input_fetch_start_timestamp: None,
        input_fetch_completed_timestamp: None,
        execution_start_timestamp: None,
        execution_completed_timestamp: None,
        virtual_execution_duration: None,
        output_upload_start_timestamp: None,
        output_upload_completed_timestamp: None,
    }
}

fn action_result() -> ActionResult {
    ActionResult {
        output_files: Vec::new(),
        output_symlinks: Vec::new(),
        output_directories: Vec::new(),
        exit_code: 0,
        stdout_raw: Vec::new(),
        stdout_digest: None,
        stderr_raw: Vec::new(),
        stderr_digest: None,
        execution_metadata: Some(executed_metadata()),
    }
}

fn done_with(name: &str, result: Option<OpResult>) -> Operation {
    Operation {
        name: name.to_owned(),
        done: true,
        metadata: Some(Ok(0)),
        result,
    }
}

fn done_operation(name: &str) -> Operation {
    done_with(
        name,
        Some(OpResult::Response(Ok(GExecuteResponse {
            status: Some(RpcStatus {
                code: 0,
                message: String::new(),
            }),
            result: Some(action_result()),
            message: String::new(),
            cached_result: false,
        }))),
    )
}

fn done_error_operation(name: &str, code: i32, message: &str) -> Operation {
    done_with(
        name,
        Some(OpResult::Failed(RpcStatus {
            code,
            message: message.to_owned(),
        })),
    )
}

fn done_bad_status_operation(name: &str, code: i32, message: &str) -> Operation {
    done_with(
        name,
        Some(OpResult::Response(Ok(GExecuteResponse {
            status: Some(RpcStatus {
                code,
                message: message.to_owned(),
            }),
            result: None,
            message: String::new(),
            cached_result: false,
        }))),
    )
}

/// What a scripted stream does next.
enum Item {
    Message(Operation),
    Severed(Status),
    Silence(Duration),
}

type Script = Vec<Item>;

/// Reads scripted streams to their end, with a clock that moves only while waiting.
struct Driver<E, W> {
    execute: E,
    wait_execution: W,
    now: Duration,
    responses: Vec<ExecuteWithProgressResponse>,
}

impl<E, W> Driver<E, W>
where
    E: FnMut(&GExecuteRequest) -> Result<Script, Error>,
    W: FnMut(&str) -> Result<Script, Error>,
{
    fn new(execute: E, wait_execution: W) -> Self {
        Driver {
            execute,
            wait_execution,
            now: Duration::from_secs(1_000),
            responses: Vec::new(),
        }
    }

    fn advance(&mut self, span: Duration) {
        self.now = self.now.saturating_add(span);
    }

    fn run(
        &mut self,
        request: ExecuteRequest,
        budget: Option<Duration>,
        latch: &mut bool,
    ) -> Result<(), Error> {
        let wire = wire_execute_request(&InstanceName(None), &request);
        let mut items = (self.execute)(&wire)?.into_iter();
        let mut stream = ExecuteStream::new(wire, request.action_digest, budget, self.now);
        while !stream.is_finished() {
            let event = match items.next() {
                Some(Item::Silence(span)) => {
                    self.advance(span);
                    continue;
                }
                Some(Item::Message(message)) => StreamEvent::Message(message),
                Some(Item::Severed(status)) => StreamEvent::Failed(status),
                None => StreamEvent::Ended,
            };
            let mut step = match stream.read(event, latch, self.now) {
                StreamAction::Yield(response) => {
                    self.responses.push(response);
                    continue;
                }
                StreamAction::Finish => return Ok(()),
                StreamAction::Fail(error) => return Err(error),
                StreamAction::Recover(step) => step,
            };
            loop {
                let event = match step {
                    RecoveryAction::Sleep(delay) => {
                        self.advance(delay);
                        RecoveryEvent::BackoffElapsed
                    }
                    RecoveryAction::Dial(target) => {
                        let dialed = match &target {
                            DialTarget::WaitExecution(name) => (self.wait_execution)(name),
                            DialTarget::Execute(request) => (self.execute)(request),
                        };
                        match dialed {
                            Ok(script) => {
                                items = script.into_iter();
                                RecoveryEvent::DialSucceeded
                            }
                            Err(error) => RecoveryEvent::DialFailed(error),
                        }
                    }
                    RecoveryAction::Resume => break,
                    RecoveryAction::Fail(error) => return Err(error),
                };
                step = stream.state.recover(event, latch, self.now);
            }
        }
        Ok(())
    }
}

fn no_wait(_name: &str) -> Result<Script, Error> {
    panic!("WaitExecution should not be triggered")
}

fn queued_then_severed(name: &str) -> Script {
    vec![
        Item::Message(progress_operation(name, QUEUED)),
        Item::Severed(severed_status()),
    ]
}

fn done(name: &str) -> Script {
    vec![Item::Message(done_operation(name))]
}

#[test]
fn test_execute_with_progress_skip_cache_lookup() {
    for skip_cache_lookup in [true, false] {
        let mut driver = Driver::new(
            |request: &GExecuteRequest| {
                assert_eq!(request.skip_cache_lookup, skip_cache_lookup);
                Ok(done("op-1"))
            },
            no_wait,
        );
        driver
            .run(
                test_execute_request(skip_cache_lookup),
                default_reattach_budget(),
                &mut false,
            )
            .unwrap();
        assert_eq!(driver.responses.len(), 1);
        assert_eq!(driver.responses[0].stage, Stage::Completed);
    }
}

#[test]
fn test_reattach_wait_execution_after_severance() {
    let mut execute_calls = 0;
    let mut wait_execution_calls = 0;
    let mut driver = Driver::new(
        |_: &GExecuteRequest| {
            execute_calls += 1;
            Ok(queued_then_severed("op-1"))
        },
        |name: &str| {
            assert_eq!(name, "op-1");
            wait_execution_calls += 1;
            Ok(vec![
                Item::Message(progress_operation("op-1", EXECUTING)),
                Item::Message(done_operation("op-1")),
            ])
        },
    );
    driver
        .run(
            test_execute_request(false),
            default_reattach_budget(),
            &mut false,
        )
        .unwrap();
    let responses = driver.responses;
    assert_eq!(responses.len(), 3);
    assert_eq!(responses[0].stage, Stage::Queued);
    assert_eq!(responses[1].stage, Stage::Executing);
    assert_eq!(responses[2].stage, Stage::Completed);
    let terminal = responses[2]
        .execute_response
        .as_ref()
        .expect("terminal response missing execute_response");
    assert_eq!(terminal.action_digest.hash, "aa");
    assert_eq!(terminal.action_digest.size_in_bytes, 3);
    assert_eq!(execute_calls, 1);
    assert_eq!(wait_execution_calls, 1);
    assert_eq!(responses[2].reattach_stats.wait_execution_reattaches, 1);
    assert_eq!(responses[2].reattach_stats.severed_io, 1);
}

#[test]
fn test_reattach_uses_latest_operation_name() {
    let mut names: Vec<String> = Vec::new();
    let mut driver = Driver::new(
        |_: &GExecuteRequest| Ok(queued_then_severed("op-1")),
        |name: &str| {
            names.push(name.to_owned());
            if names.len() == 1 {
                Ok(vec![
                    Item::Message(progress_operation("op-2", EXECUTING)),
                    Item::Severed(severed_status()),
                ])
            } else {
                Ok(done("op-2"))
            }
        },
    );
    driver
        .run(
            test_execute_request(false),
            default_reattach_budget(),
            &mut false,
        )
        .unwrap();
    assert_eq!(driver.responses.len(), 3);
    assert_eq!(names, vec!["op-1".to_owned(), "op-2".to_owned()]);
}

#[test]
fn test_reattach_on_clean_eof() {
    let mut wait_execution_calls = 0;
    let mut driver = Driver::new(
        |_: &GExecuteRequest| Ok(vec![Item::Message(progress_operation("op-1", QUEUED))]),
        |name: &str| {
            assert_eq!(name, "op-1");
            wait_execution_calls += 1;
            Ok(done("op-1"))
        },
    );
    driver
        .run(
            test_execute_request(false),
            default_reattach_budget(),
            &mut false,
        )
        .unwrap();
    assert_eq!(driver.responses.len(), 2);
    assert_eq!(driver.responses[1].stage, Stage::Completed);
    assert_eq!(driver.responses[1].reattach_stats.clean_eof, 1);
    assert_eq!(wait_execution_calls, 1);
}

#[test]
fn test_reattach_not_found_reissues_execute() {
    for skip_cache_lookup in [true, false] {
        let mut requests: Vec<String> = Vec::new();
        let mut wait_execution_calls = 0;
        let mut driver = Driver::new(
            |request: &GExecuteRequest| {
                requests.push(format!("{request:?}"));
                if requests.len() == 1 {
                    Ok(queued_then_severed("op-1"))
                } else {
                    Ok(done("op-1"))
                }
            },
            |name: &str| {
                assert_eq!(name, "op-1");
                wait_execution_calls += 1;
                Err(dial_error(&tonic::Status::not_found("operation gone")))
            },
        );
        driver
            .run(
                test_execute_request(skip_cache_lookup),
                default_reattach_budget(),
                &mut false,
            )
            .unwrap();
        let terminal = driver
            .responses
            .last()
            .expect("expected a terminal response");
        assert_eq!(terminal.stage, Stage::Completed);
        assert_eq!(terminal.reattach_stats.operation_not_found, 1);
        assert_eq!(terminal.reattach_stats.re_executes, 1);
        assert_eq!(requests.len(), 2);
        assert_eq!(requests[0], requests[1]);
        assert_eq!(wait_execution_calls, 1);
    }
}

#[test]
fn test_reattach_call_fails_non_retryably() {
    let mut wait_execution_calls = 0;
    let mut driver = Driver::new(
        |_: &GExecuteRequest| Ok(queued_then_severed("op-1")),
        |name: &str| {
            assert_eq!(name, "op-1");
            wait_execution_calls += 1;
            Err(dial_error(&tonic::Status::permission_denied(
                "credentials expired",
            )))
        },
    );
    let chain = driver
        .run(
            test_execute_request(false),
            default_reattach_budget(),
            &mut false,
        )
        .expect_err("a non-retryable reattach-call failure must propagate immediately")
        .to_text();
    assert!(
        chain.contains("Reattaching RE execute stream via WaitExecution"),
        "chain: {chain}"
    );
    assert!(chain.contains("credentials expired"), "chain: {chain}");
    assert!(
        chain.contains("action `aa`") && chain.contains("operation `op-1`"),
        "chain does not identify the action and operation being reattached: {chain}"
    );
    assert!(
        !chain.contains("Exceeding RE execute reattach budget"),
        "a non-retryable reattach failure must not be framed as a budget timeout: {chain}"
    );
    let reattach_position = chain
        .find("Reattaching RE execute stream via WaitExecution")
        .expect("chain missing the reattach context");
    let severance_position = chain
        .find("connection reset")
        .expect("chain does not name the original severance as its root cause");
    assert!(
        reattach_position < severance_position,
        "the failed WaitExecution attempt must be outer context, the original severance the root \
         cause: {chain}"
    );
    assert_eq!(
        wait_execution_calls, 1,
        "the reattach call must not be retried once classified non-retryable"
    );
}

#[test]
fn test_reattach_wait_execution_unimplemented_latches_reattach_off() {
    let mut latch = false;
    let mut wait_execution_calls = 0;
    let mut driver = Driver::new(
        |_: &GExecuteRequest| Ok(queued_then_severed("op-1")),
        |name: &str| {
            assert_eq!(name, "op-1");
            wait_execution_calls += 1;
            Err(dial_error(&tonic::Status::unimplemented(
                "WaitExecution is not supported",
            )))
        },
    );
    let chain = driver
        .run(
            test_execute_request(false),
            default_reattach_budget(),
            &mut latch,
        )
        .expect_err("an UNIMPLEMENTED WaitExecution reply must still surface an error")
        .to_text();
    assert!(
        chain.contains("Reattaching RE execute stream via WaitExecution"),
        "chain: {chain}"
    );
    assert!(
        chain.contains("connection reset"),
        "chain must name the original severance as its root cause: {chain}"
    );
    assert_eq!(
        wait_execution_calls, 1,
        "an UNIMPLEMENTED reply must not be retried"
    );
    assert!(
        latch,
        "discovering UNIMPLEMENTED must latch reattach off for the client"
    );

    let mut second = Driver::new(
        |_: &GExecuteRequest| Ok(queued_then_severed("op-2")),
        |_: &str| panic!("a latched client must never attempt WaitExecution"),
    );
    let error = second
        .run(
            test_execute_request(false),
            default_reattach_budget(),
            &mut latch,
        )
        .expect_err("a severance on a latched client must still propagate an error");
    assert!(
        error.to_text().contains("connection reset"),
        "a latched client propagates the severance trigger unmodified"
    );
}

#[test]
fn test_reattach_dial_failure_then_recovers() {
    let mut wait_execution_calls = 0;
    let mut driver = Driver::new(
        |_: &GExecuteRequest| Ok(queued_then_severed("op-1")),
        |name: &str| {
            assert_eq!(name, "op-1");
            wait_execution_calls += 1;
            if wait_execution_calls == 1 {
                Err(dial_error(&tonic::Status::from_error(Box::new(
                    std::io::Error::from(std::io::ErrorKind::ConnectionRefused),
                ))))
            } else {
                Ok(done("op-1"))
            }
        },
    );
    driver
        .run(
            test_execute_request(false),
            default_reattach_budget(),
            &mut false,
        )
        .unwrap();
    let terminal = driver
        .responses
        .last()
        .expect("expected a terminal response");
    assert_eq!(terminal.stage, Stage::Completed);
    assert_eq!(terminal.reattach_stats.dial_failures, 1);
    assert_eq!(terminal.reattach_stats.wait_execution_reattaches, 1);
    assert_eq!(
        wait_execution_calls, 2,
        "a dial failure must retry the same reattach call rather than propagate"
    );
}

#[test]
fn test_reattach_before_any_message_uses_execute() {
    let mut execute_calls = 0;
    let mut driver = Driver::new(
        |_: &GExecuteRequest| {
            execute_calls += 1;
            if execute_calls == 1 {
                Ok(vec![Item::Severed(severed_status())])
            } else {
                Ok(done("op-1"))
            }
        },
        no_wait,
    );
    driver
        .run(
            test_execute_request(false),
            default_reattach_budget(),
            &mut false,
        )
        .unwrap();
    assert_eq!(driver.responses.len(), 1);
    assert_eq!(driver.responses[0].stage, Stage::Completed);
    assert_eq!(driver.responses[0].reattach_stats.re_executes, 1);
    assert_eq!(execute_calls, 2);
}

#[test]
fn test_reattach_budget_exceeded_fails() {
    let mut calls = 0;
    let mut driver = Driver::new(
        |_: &GExecuteRequest| Ok(queued_then_severed("op-1")),
        |name: &str| {
            assert_eq!(name, "op-1");
            calls += 1;
            Ok(vec![Item::Severed(severed_status())])
        },
    );
    let chain = driver
        .run(
            test_execute_request(false),
            Some(Duration::from_secs(5)),
            &mut false,
        )
        .expect_err("a permanently severed endpoint must eventually fail")
        .to_text();
    assert!(
        chain.contains("Exceeding RE execute reattach budget of 5s after "),
        "chain: {chain}"
    );
    assert!(
        chain.to_lowercase().contains("reset"),
        "chain does not surface the underlying cause: {chain}"
    );
    assert!(calls > 0, "expected at least one reattach attempt");
    assert!(
        calls < 100,
        "reattach attempts should be budget-bounded, got {calls}"
    );
}

#[test]
fn test_reattach_survives_severance_after_budget_length_silence() {
    let budget = Duration::from_secs(5);
    let mut wait_execution_calls = 0;
    let mut driver = Driver::new(
        |_: &GExecuteRequest| {
            Ok(vec![
                Item::Message(progress_operation("op-1", QUEUED)),
                Item::Silence(budget),
                Item::Severed(severed_status()),
            ])
        },
        |name: &str| {
            assert_eq!(name, "op-1");
            wait_execution_calls += 1;
            Ok(done("op-1"))
        },
    );
    driver
        .run(test_execute_request(false), Some(budget), &mut false)
        .unwrap();
    assert_eq!(
        driver
            .responses
            .last()
            .expect("expected a terminal response")
            .stage,
        Stage::Completed
    );
    assert_eq!(
        wait_execution_calls, 1,
        "a severance after a budget-length silence must still get a reattach attempt"
    );
}

#[test]
fn test_reattach_disabled_propagates_trigger_unmodified() {
    let mut execute_calls = 0;
    let mut driver = Driver::new(
        |_: &GExecuteRequest| {
            execute_calls += 1;
            Ok(queued_then_severed("op-1"))
        },
        no_wait,
    );
    let chain = driver
        .run(test_execute_request(false), None, &mut false)
        .expect_err("a severed stream must still propagate an error when reattach is disabled")
        .to_text();
    assert!(
        chain.starts_with("RE channel error: "),
        "a disabled client must propagate the same trigger a client built without reattach \
         would, not a budget-timeout frame: {chain}"
    );
    assert!(
        !chain.contains("Exceeding RE execute reattach budget"),
        "chain: {chain}"
    );
    assert_eq!(
        execute_calls, 1,
        "reattach must never be attempted while disabled"
    );
}

#[test]
fn test_reattach_disabled_ends_stream_cleanly_on_clean_eof() {
    let mut driver = Driver::new(
        |_: &GExecuteRequest| Ok(vec![Item::Message(progress_operation("op-1", QUEUED))]),
        no_wait,
    );
    driver
        .run(test_execute_request(false), None, &mut false)
        .unwrap();
    assert_eq!(
        driver.responses.len(),
        1,
        "a disabled client must end the stream on clean EOF exactly as a client built without \
         reattach would, leaving end-of-stream handling to the consumer"
    );
    assert_eq!(driver.responses[0].stage, Stage::Queued);
}

#[test]
fn test_execute_reattach_concurrency_zero_is_clamped() {
    let opts = Buck2OssReConfiguration {
        execute_reattach_concurrency: Some(0),
        ..Default::default()
    };
    assert_eq!(
        execute_reattach_concurrency(&opts),
        EXECUTE_REATTACH_CONCURRENCY_MIN,
        "a configured concurrency of 0 would build a limiter that blocks every reattach forever"
    );
}

#[test]
fn test_execute_response_error_propagates_without_retry() {
    let mut execute_calls = 0;
    let mut driver = Driver::new(
        |_: &GExecuteRequest| {
            execute_calls += 1;
            Ok(vec![Item::Message(done_error_operation(
                "op-1", INTERNAL, "boom",
            ))])
        },
        no_wait,
    );
    let error = driver
        .run(
            test_execute_request(false),
            default_reattach_budget(),
            &mut false,
        )
        .expect_err("an application-level operation error must propagate");
    assert!(error.to_text().contains("boom"));
    assert_eq!(execute_calls, 1);
}

#[test]
fn test_execute_response_bad_status_propagates_without_retry() {
    let mut execute_calls = 0;
    let mut driver = Driver::new(
        |_: &GExecuteRequest| {
            execute_calls += 1;
            Ok(vec![Item::Message(done_bad_status_operation(
                "op-1",
                INVALID_ARGUMENT,
                "bad request",
            ))])
        },
        no_wait,
    );
    let error = driver
        .run(
            test_execute_request(false),
            default_reattach_budget(),
            &mut false,
        )
        .expect_err("a non-OK ExecuteResponse status must propagate");
    assert!(error.to_text().contains("bad request"));
    assert_eq!(execute_calls, 1);
}

#[test]
fn test_execute_plain_status_propagates() {
    let mut execute_calls = 0;
    let mut driver = Driver::new(
        |_: &GExecuteRequest| {
            execute_calls += 1;
            Ok(vec![Item::Severed(status_of(&tonic::Status::unavailable(
                "backend is down",
            )))])
        },
        no_wait,
    );
    let error = driver
        .run(
            test_execute_request(false),
            default_reattach_budget(),
            &mut false,
        )
        .expect_err("a server-spoken status with no h2/io source must propagate");
    assert!(error.to_text().contains("backend is down"));
    assert_eq!(execute_calls, 1);
}

#[test]
fn test_reattach_goaway_no_error_retries() {
    let mut wait_execution_calls = 0;
    let mut driver = Driver::new(
        |_: &GExecuteRequest| {
            Ok(vec![
                Item::Message(progress_operation("op-1", QUEUED)),
                Item::Severed(h2_status(h2::Reason::NO_ERROR)),
            ])
        },
        |name: &str| {
            assert_eq!(name, "op-1");
            wait_execution_calls += 1;
            Ok(done("op-1"))
        },
    );
    driver
        .run(
            test_execute_request(false),
            default_reattach_budget(),
            &mut false,
        )
        .unwrap();
    let terminal = driver
        .responses
        .last()
        .expect("expected a terminal response");
    assert_eq!(terminal.stage, Stage::Completed);
    assert_eq!(terminal.reattach_stats.severed_goaway, 1);
    assert_eq!(wait_execution_calls, 1);
}

#[test]
fn test_execute_enhance_your_calm_propagates() {
    let mut execute_calls = 0;
    let mut driver = Driver::new(
        |_: &GExecuteRequest| {
            execute_calls += 1;
            Ok(vec![Item::Severed(h2_status(
                h2::Reason::ENHANCE_YOUR_CALM,
            ))])
        },
        no_wait,
    );
    driver
        .run(
            test_execute_request(false),
            default_reattach_budget(),
            &mut false,
        )
        .expect_err("ENHANCE_YOUR_CALM must not be treated as retryable");
    assert_eq!(execute_calls, 1);
}

#[test]
fn test_post_terminal_poll_returns_none() {
    let mut execute_calls = 0;
    let mut driver = Driver::new(
        |_: &GExecuteRequest| {
            execute_calls += 1;
            let mut script = done("op-1");
            script.push(Item::Severed(severed_status()));
            Ok(script)
        },
        no_wait,
    );
    driver
        .run(
            test_execute_request(false),
            default_reattach_budget(),
            &mut false,
        )
        .unwrap();
    assert_eq!(driver.responses.len(), 1);
    assert_eq!(driver.responses[0].stage, Stage::Completed);
    assert_eq!(execute_calls, 1);
}

#[test]
fn test_reattach_cancelled_during_backoff_sleep() {
    let request = test_execute_request(false);
    let wire = wire_execute_request(&InstanceName(None), &request);
    let now = Duration::from_secs(7);
    let mut stream = ExecuteStream::new(wire, request.action_digest, default_reattach_budget(), now);
    let mut latch = false;
    let first = stream.read(
        StreamEvent::Message(progress_operation("op-1", QUEUED)),
        &mut latch,
        now,
    );
    assert!(matches!(first, StreamAction::Yield(response) if response.stage == Stage::Queued));

    // A severance is answered with a delay: dropping the stream now makes no call.
    let second = stream.read(StreamEvent::Failed(severed_status()), &mut latch, now);
    assert!(matches!(
        second,
        StreamAction::Recover(RecoveryAction::Sleep(_))
    ));
    assert_eq!(stream.state.stats.wait_execution_reattaches, 0);
    assert_eq!(stream.state.stats.re_executes, 0);
}

#[test]
fn test_execute_reattach_budget_resolution() {
    let cases = [
        ("defaults to disabled", None, None, None),
        (
            "a configured budget alone does not enable reattach",
            None,
            Some(30),
            None,
        ),
        (
            "explicit enable uses the default budget",
            Some(true),
            None,
            Some(Duration::from_secs(60)),
        ),
        (
            "explicit enable honors a configured budget",
            Some(true),
            Some(30),
            Some(Duration::from_secs(30)),
        ),
        (
            "explicit enable with a zero budget still disables",
            Some(true),
            Some(0),
            None,
        ),
        (
            "explicit disable wins over a configured budget",
            Some(false),
            Some(30),
            None,
        ),
    ];
    for (name, enabled, budget_secs, expected) in cases {
        let opts = Buck2OssReConfiguration {
            execute_reattach_enabled: enabled,
            execute_reattach_budget_secs: budget_secs,
            ..Default::default()
        };
        assert_eq!(execute_reattach_budget(&opts), expected, "case: {name}");
    }
}

#[test]
fn classifies_goaway_no_error_as_retryable() {
    let status = h2_status(h2::Reason::NO_ERROR);
    assert_eq!(
        classify(&status, StreamOrigin::Execute),
        Some(RetryCause::GracefulGoAway)
    );
}

#[test]
fn classifies_refused_stream_as_retryable() {
    let status = h2_status(h2::Reason::REFUSED_STREAM);
    assert_eq!(
        classify(&status, StreamOrigin::Execute),
        Some(RetryCause::RefusedStream)
    );
}

#[test]
fn classifies_enhance_your_calm_as_fatal() {
    let status = h2_status(h2::Reason::ENHANCE_YOUR_CALM);
    assert_eq!(classify(&status, StreamOrigin::Execute), None);
}

#[test]
fn classifies_other_h2_reasons_as_fatal() {
    for reason in [
        h2::Reason::PROTOCOL_ERROR,
        h2::Reason::CANCEL,
        h2::Reason::INTERNAL_ERROR,
        h2::Reason::FLOW_CONTROL_ERROR,
    ] {
        let status = h2_status(reason);
        assert_eq!(
            classify(&status, StreamOrigin::Execute),
            None,
            "reason: {reason:?}"
        );
    }
}

#[test]
fn classifies_io_disconnect_kinds_as_retryable() {
    for kind in [
        std::io::ErrorKind::ConnectionReset,
        std::io::ErrorKind::ConnectionAborted,
        std::io::ErrorKind::BrokenPipe,
        std::io::ErrorKind::UnexpectedEof,
        std::io::ErrorKind::NotConnected,
        std::io::ErrorKind::TimedOut,
    ] {
        let status = io_status(kind);
        assert_eq!(
            classify(&status, StreamOrigin::Execute),
            Some(RetryCause::Io),
            "kind: {kind:?}"
        );
    }
}

#[test]
fn classifies_connection_refused_as_retryable() {
    let status = io_status(std::io::ErrorKind::ConnectionRefused);
    assert_eq!(
        classify(&status, StreamOrigin::Execute),
        Some(RetryCause::ConnectionRefused)
    );
}

#[test]
fn classifies_unrelated_io_kind_as_fatal() {
    let status = io_status(std::io::ErrorKind::InvalidData);
    assert_eq!(classify(&status, StreamOrigin::Execute), None);
}

#[test]
fn classifies_plain_status_with_no_source_as_fatal() {
    let status = status_of(&tonic::Status::unavailable("backend is down"));
    assert_eq!(classify(&status, StreamOrigin::Execute), None);
    let status = status_of(&tonic::Status::internal("internal error"));
    assert_eq!(classify(&status, StreamOrigin::Execute), None);
    let status = status_of(&tonic::Status::unknown("unknown error"));
    assert_eq!(classify(&status, StreamOrigin::Execute), None);
}

#[test]
fn classifies_not_found_by_origin() {
    let status = status_of(&tonic::Status::not_found("operation gone"));
    assert_eq!(
        classify(&status, StreamOrigin::WaitExecution),
        Some(RetryCause::OperationNotFound)
    );
    assert_eq!(classify(&status, StreamOrigin::Execute), None);
}

#[test]
fn jittered_backoff_bound_grows_and_caps() {
    let cap = Duration::from_secs(EXECUTE_REATTACH_BACKOFF_CAP_SECS);
    assert_eq!(jittered_backoff_bound(1), Duration::from_millis(250));
    assert_eq!(jittered_backoff_bound(2), Duration::from_millis(500));
    assert_eq!(jittered_backoff_bound(3), Duration::from_millis(1000));
    assert_eq!(jittered_backoff_bound(6), Duration::from_secs(8));
    assert_eq!(jittered_backoff_bound(7), cap);
    assert_eq!(jittered_backoff_bound(100), cap);
}

#[test]
fn sampled_backoff_stays_within_bound() {
    for attempt in 1..20 {
        let bound = jittered_backoff_bound(attempt);
        for _ in 0..50 {
            let sample = sample_jittered_backoff(attempt);
            assert!(
                sample.is_shorter_than(&bound),
                "attempt {attempt} sampled {sample:?} outside {bound:?}"
            );
        }
    }
}

#[test]
fn samples_of_the_backoff_differ() {
    let samples: Vec<u128> = (0..50)
        .map(|_| sample_jittered_backoff(10).as_nanos())
        .collect();
    assert!(samples.iter().any(|sample| *sample != samples[0]));
}

#[test]
fn an_h2_error_of_the_transport_is_retryable() {
    let status = Status {
        code: Code::Unknown,
        text: "h2".to_owned(),
        sources: vec![
            ErrorLink::Other,
            ErrorLink::H2 {
                is_io: true,
                reason: None,
            },
            ErrorLink::Io(IoErrorKind::InvalidData),
        ],
    };
    assert_eq!(
        classify(&status, StreamOrigin::Execute),
        Some(RetryCause::Io)
    );
}

#[test]
fn only_wait_execution_shows_that_it_is_unimplemented() {
    let status = status_of(&tonic::Status::unimplemented("no"));
    assert!(is_wait_execution_unimplemented(
        &status,
        StreamOrigin::WaitExecution
    ));
    assert!(!is_wait_execution_unimplemented(
        &status,
        StreamOrigin::Execute
    ));
}

#[test]
fn the_budget_starts_anew_with_every_message() {
    let budget = Duration::from_secs(5);
    let mut waits = 0;
    let mut driver = Driver::new(
        |_: &GExecuteRequest| Ok(queued_then_severed("op-1")),
        |_: &str| {
            waits += 1;
            if waits < 20 {
                Ok(vec![
                    Item::Message(progress_operation("op-1", EXECUTING)),
                    Item::Silence(Duration::from_secs(4)),
                    Item::Severed(severed_status()),
                ])
            } else {
                Ok(done("op-1"))
            }
        },
    );
    driver
        .run(test_execute_request(false), Some(budget), &mut false)
        .unwrap();
    assert_eq!(waits, 20);
}

#[test]
fn a_spent_budget_names_the_first_severance() {
    let mut state = ReattachState::new(
        wire_execute_request(&InstanceName(None), &test_execute_request(false)),
        Some(Duration::from_secs(1)),
        Duration::zero(),
    );
    let mut latch = false;
    let step = state.recover(
        RecoveryEvent::Severed {
            cause: RetryCause::Io,
            trigger: Error::msg("first".to_owned()),
        },
        &mut latch,
        Duration::from_secs(100),
    );
    assert!(matches!(step, RecoveryAction::Sleep(_)));
    let step = state.recover(RecoveryEvent::BackoffElapsed, &mut latch, Duration::from_secs(100));
    assert!(matches!(
        step,
        RecoveryAction::Dial(DialTarget::Execute(_))
    ));
    let step = state.recover(RecoveryEvent::DialSucceeded, &mut latch, Duration::from_secs(100));
    assert!(matches!(step, RecoveryAction::Resume));
    let step = state.recover(
        RecoveryEvent::Severed {
            cause: RetryCause::Io,
            trigger: Error::msg("second".to_owned()),
        },
        &mut latch,
        Duration::from_secs(101),
    );
    match step {
        RecoveryAction::Fail(error) => assert_eq!(
            error.to_text(),
            "Exceeding RE execute reattach budget of 1s after 1 attempt(s) and 1s for action \
             `aa`, operation `<unknown>`: first"
        ),
        other => panic!("unexpected {other:?}"),
    }
}

#[test]
fn requests_go_out_with_their_policies() {
    let mut request = test_execute_request(true);
    request.execution_policy = Some(ExecutionPolicy { priority: 4 });
    let wire = wire_execute_request(&InstanceName(Some("inst".to_owned())), &request);
    assert_eq!(wire.instance_name, "inst");
    assert!(wire.skip_cache_lookup);
    assert_eq!(wire.execution_policy.unwrap().priority, 4);
    assert_eq!(wire.results_cache_policy.unwrap().priority, 0);
    let digest = wire.action_digest.unwrap();
    assert_eq!((digest.hash.as_str(), digest.size_bytes), ("aa", 3));
    let plain = wire_execute_request(&InstanceName(None), &test_execute_request(false));
    assert_eq!(plain.instance_name, "");
    assert_eq!(plain.execution_policy.unwrap().priority, 0);
}

#[test]
fn stages_are_numbered() {
    let stages: Vec<Stage> = (-1..6).map(Stage::from_grpc).collect();
    assert_eq!(
        stages,
        vec![
            Stage::Unknown,
            Stage::Unknown,
            Stage::CacheCheck,
            Stage::Queued,
            Stage::Executing,
            Stage::Completed,
            Stage::Unknown,
        ]
    );
}

fn decoded_error(operation: Operation) -> String {
    decode_operation(operation).unwrap_err().to_text()
}

#[test]
fn malformed_messages_are_errors() {
    assert_eq!(
        decoded_error(done_with("op", None)),
        "Missing `result` when message was `done`"
    );
    assert_eq!(
        decoded_error(done_with(
            "op",
            Some(OpResult::Response(Err(Error::msg("bad bytes".to_owned()))))
        )),
        "bad bytes"
    );
    assert_eq!(
        decoded_error(Operation {
            name: "op".to_owned(),
            done: false,
            metadata: Some(Err(Error::msg("bad metadata".to_owned()))),
            result: None,
        }),
        "bad metadata"
    );
    let bare = decode_operation(Operation {
        name: "op".to_owned(),
        done: false,
        metadata: None,
        result: None,
    })
    .unwrap();
    assert_eq!(bare.stage, Stage::Unknown);
    assert!(bare.execute_response.is_none());
    assert_eq!(
        decoded_error(done_with(
            "op",
            Some(OpResult::Response(Ok(GExecuteResponse {
                status: None,
                result: None,
                message: String::new(),
                cached_result: false,
            })))
        )),
        "The action result is not defined."
    );
}

#[test]
fn a_terminal_response_carries_what_the_service_said() {
    let mut result = action_result();
    result.exit_code = 7;
    result.execution_metadata = Some(ExecutedActionMetadata {
        worker: "w1".to_owned(),
        queued_timestamp: Some(Timestamp {
            seconds: 5,
            nanos: 6,
        }),
        virtual_execution_duration: Some(WireDuration {
            seconds: 1,
            nanos: 0,
        }),
        ..executed_metadata()
    });
    let response = decode_operation(done_with(
        "op",
        Some(OpResult::Response(Ok(GExecuteResponse {
            status: None,
            result: Some(result),
            message: "from cache".to_owned(),
            cached_result: true,
        }))),
    ))
    .unwrap();
    let execute = response.execute_response.unwrap();
    assert!(execute.cached_result);
    assert_eq!(execute.status.code, 0);
    assert_eq!(execute.status.message, "from cache");
    assert_eq!(execute.action_result.exit_code, 7);
    assert_eq!(execute.action_result.execution_metadata.worker, "w1");
    assert_eq!(
        execute.action_result.execution_metadata.queued_timestamp.seconds,
        5
    );
}

#[test]
fn the_number_of_dials_is_configurable() {
    assert_eq!(
        execute_reattach_concurrency(&Buck2OssReConfiguration::default()),
        EXECUTE_REATTACH_CONCURRENCY_DEFAULT
    );
    let opts = Buck2OssReConfiguration {
        execute_reattach_concurrency: Some(3),
        ..Default::default()
    };
    assert_eq!(execute_reattach_concurrency(&opts), 3);
}

#[test]
fn optional_seconds_resolve_to_the_default_or_to_none() {
    assert_eq!(
        resolve_optional_secs(None, 9),
        Some(Duration::from_secs(9))
    );
    assert_eq!(
        resolve_optional_secs(Some(4), 9),
        Some(Duration::from_secs(4))
    );
    assert_eq!(resolve_optional_secs(Some(0), 9), None);
}
