//! Reading an execute stream to its end: each message becomes a progress report or
//! the terminal response, and a severed stream is recovered on the way.
use vstd::prelude::*;
use vstd::string::*;

use crate::convert::{
    check_status, convert_action_result, is_caller_result, missing_from_result, ActionResult,
    RpcStatus, TActionResult2, TStatus, TCODE_OK,
};
use crate::digest::{tdigest_to, TDigest};
use crate::duration::Duration;
use crate::error::{Error, REClientError, RootCause, Status, TCodeReasonGroup};
use crate::messages::{ExecutionPolicy, GExecuteRequest, ResultsCachePolicy};
use crate::names::{instance_text, InstanceName};
use crate::reattach::{
    classify, no_reattaches, status_cause, transport_never_loses_an_operation,
    ExecuteReattachStats, ReattachState, Recovery, RecoveryAction, RecoveryEvent, RetryCause,
    StreamOrigin,
};

verus! {

/// How far the service is with an action.
#[derive(Clone, Copy, Debug, PartialEq, Eq, Structural)]
pub enum Stage {
    Unknown,
    CacheCheck,
    Queued,
    Executing,
    Completed,
}

impl Stage {
    /// The stage that the wire numbers `val`; unknown for any other number.
    pub open spec fn numbered(val: i32) -> Stage {
        if val == 1 {
            Stage::CacheCheck
        } else if val == 2 {
            Stage::Queued
        } else if val == 3 {
            Stage::Executing
        } else if val == 4 {
            Stage::Completed
        } else {
            Stage::Unknown
        }
    }

    /// The stage that the wire numbers `val`; unknown for any other number.
    pub fn from_grpc(val: i32) -> (stage: Stage)
        ensures
            stage == Stage::numbered(val),
    {
        match val {
            1 => Stage::CacheCheck,
            2 => Stage::Queued,
            3 => Stage::Executing,
            4 => Stage::Completed,
            _ => Stage::Unknown,
        }
    }
}

/// The terminal response of the service, as the wire carries it.
#[derive(Debug)]
pub struct GExecuteResponse {
    pub status: Option<RpcStatus>,
    pub result: Option<ActionResult>,
    pub message: String,
    pub cached_result: bool,
}

/// How an operation ended. A response that could not be decoded is what the
/// decoder said.
#[derive(Debug)]
pub enum OpResult {
    Failed(RpcStatus),
    Response(Result<GExecuteResponse, Error>),
}

/// One message of an execute stream. Metadata, where there are any, are the number of
/// the stage, or what the decoder said of them.
#[derive(Debug)]
pub struct Operation {
    pub name: String,
    pub done: bool,
    pub metadata: Option<Result<i32, Error>>,
    pub result: Option<OpResult>,
}

/// What the service answered to a request to execute, as callers hold it.
#[derive(Debug)]
pub struct ExecuteResponse {
    pub action_result: TActionResult2,
    pub action_result_digest: TDigest,
    pub action_result_ttl: i64,
    pub status: TStatus,
    pub cached_result: bool,
    pub action_digest: TDigest,
}

/// A progress report or, with a response, the end of an execution.
#[derive(Debug)]
pub struct ExecuteWithProgressResponse {
    pub stage: Stage,
    pub execute_response: Option<ExecuteResponse>,
    pub reattach_stats: ExecuteReattachStats,
}

/// A request to execute, as callers hold it.
#[derive(Debug)]
pub struct ExecuteRequest {
    pub skip_cache_lookup: bool,
    pub execution_policy: Option<ExecutionPolicy>,
    pub action_digest: TDigest,
}

/// A digest of nothing.
pub open spec fn is_empty_digest(digest: TDigest) -> bool {
    digest@ == (Seq::<char>::empty(), 0i64)
}

/// The failure that a status off the wire reports.
pub open spec fn reported(status: RpcStatus) -> RootCause {
    RootCause::Client(
        REClientError {
            code: status.code,
            message: status.message,
            group: TCodeReasonGroup::Unknown,
        },
    )
}

/// `error` is just its root cause.
pub open spec fn is_bare(error: Error, root: RootCause) -> bool {
    error.root == root && error.layers() == Seq::<Seq<char>>::empty()
}

/// `decoded` is what a terminal response off the wire comes to.
pub open spec fn decodes_response(
    wire: GExecuteResponse,
    decoded: Result<ExecuteWithProgressResponse, Error>,
) -> bool {
    if wire.status is Some && wire.status->0.code != 0 {
        decoded is Err && is_bare(decoded->Err_0, reported(wire.status->0))
    } else {
        match wire.result {
            None => decoded is Err && decoded->Err_0.says("The action result is not defined."@),
            Some(result) => match missing_from_result(result) {
                Some(text) => decoded is Err && decoded->Err_0.says(text),
                None => {
                    &&& decoded matches Ok(response)
                    &&& response.stage == Stage::Completed
                    &&& response.reattach_stats == no_reattaches()
                    &&& response.execute_response matches Some(execute)
                    &&& is_caller_result(result, execute.action_result)
                    &&& is_empty_digest(execute.action_result_digest)
                    &&& execute.action_result_ttl == 0
                    &&& execute.status.code == TCODE_OK
                    &&& execute.status.message == wire.message
                    &&& execute.cached_result == wire.cached_result
                    &&& is_empty_digest(execute.action_digest)
                },
            },
        }
    }
}

/// The number of the stage where a message comes without metadata.
pub const DEFAULT_STAGE: i32 = 0;

/// `decoded` is what a message of an execute stream comes to: the stage while the
/// operation runs, its terminal response or failure once it is done.
pub open spec fn decodes(
    msg: Operation,
    decoded: Result<ExecuteWithProgressResponse, Error>,
) -> bool {
    if msg.done {
        match msg.result {
            None => decoded is Err && decoded->Err_0.says(
                "Missing `result` when message was `done`"@,
            ),
            Some(OpResult::Failed(status)) => decoded is Err && is_bare(
                decoded->Err_0,
                reported(status),
            ),
            Some(OpResult::Response(Err(error))) => decoded == Err::<
                ExecuteWithProgressResponse,
                Error,
            >(error),
            Some(OpResult::Response(Ok(response))) => decodes_response(response, decoded),
        }
    } else {
        match msg.metadata.unwrap_or(Ok(DEFAULT_STAGE)) {
            Err(error) => decoded == Err::<ExecuteWithProgressResponse, Error>(error),
            Ok(stage) => decoded == Ok::<ExecuteWithProgressResponse, Error>(
                ExecuteWithProgressResponse {
                    stage: Stage::numbered(stage),
                    execute_response: None,
                    reattach_stats: no_reattaches(),
                },
            ),
        }
    }
}

fn decode_response(wire: GExecuteResponse) -> (decoded: Result<ExecuteWithProgressResponse, Error>)
    ensures
        decodes_response(wire, decoded),
{
    if let Some(status) = wire.status {
        if let Err(error) = check_status(status) {
            return Err(Error::new(RootCause::Client(error)));
        }
    }
    let action_result = match wire.result {
        Some(result) => result,
        None => {
            return Err(Error::msg("The action result is not defined.".to_owned()));
        },
    };
    let action_result = match convert_action_result(action_result) {
        Ok(result) => result,
        Err(error) => {
            return Err(error);
        },
    };
    let execute_response = ExecuteResponse {
        action_result,
        action_result_digest: TDigest::default(),
        action_result_ttl: 0,
        status: TStatus { code: TCODE_OK, message: wire.message },
        cached_result: wire.cached_result,
        action_digest: TDigest::default(),
    };
    Ok(
        ExecuteWithProgressResponse {
            stage: Stage::Completed,
            execute_response: Some(execute_response),
            reattach_stats: ExecuteReattachStats::default(),
        },
    )
}

/// Turns one message of an execute stream into the stage or the terminal response
/// that it reports. Fails for a malformed message and for a failure of the
/// operation; reattaching recovers from neither.
pub fn decode_operation(msg: Operation) -> (decoded: Result<ExecuteWithProgressResponse, Error>)
    ensures
        decodes(msg, decoded),
{
    if msg.done {
        match msg.result {
            None => Err(Error::msg("Missing `result` when message was `done`".to_owned())),
            Some(OpResult::Failed(status)) => Err(
                Error::new(
                    RootCause::Client(
                        REClientError {
                            code: status.code,
                            message: status.message,
                            group: TCodeReasonGroup::Unknown,
                        },
                    ),
                ),
            ),
            Some(OpResult::Response(Err(error))) => Err(error),
            Some(OpResult::Response(Ok(response))) => decode_response(response),
        }
    } else {
        match msg.metadata.unwrap_or(Ok(DEFAULT_STAGE)) {
            Err(error) => Err(error),
            Ok(stage) => Ok(
                ExecuteWithProgressResponse {
                    stage: Stage::from_grpc(stage),
                    execute_response: None,
                    reattach_stats: ExecuteReattachStats::default(),
                },
            ),
        }
    }
}

/// The priority that a policy asks for; none by default.
pub open spec fn policy_priority(policy: Option<ExecutionPolicy>) -> i32 {
    match policy {
        Some(policy) => policy.priority,
        None => 0,
    }
}

/// `wire` is the wire's form of a request to execute.
pub open spec fn is_wire_request(
    instance: Option<Seq<char>>,
    request: ExecuteRequest,
    wire: GExecuteRequest,
) -> bool {
    &&& wire.instance_name@ == instance_text(instance)
    &&& wire.skip_cache_lookup == request.skip_cache_lookup
    &&& wire.execution_policy == Some(
        ExecutionPolicy { priority: policy_priority(request.execution_policy) },
    )
    &&& wire.results_cache_policy == Some(ResultsCachePolicy { priority: 0 })
    &&& wire.action_digest matches Some(digest)
    &&& digest@ == request.action_digest@
}

/// Puts a request to execute on the wire.
pub fn wire_execute_request(
    instance_name: &InstanceName,
    execute_request: &ExecuteRequest,
) -> (request: GExecuteRequest)
    ensures
        is_wire_request(instance_name@, *execute_request, request),
{
    let priority: i32 = match &execute_request.execution_policy {
        Some(policy) => policy.priority,
        None => 0,
    };
    GExecuteRequest {
        instance_name: instance_name.as_str().to_owned(),
        skip_cache_lookup: execute_request.skip_cache_lookup,
        execution_policy: Some(ExecutionPolicy { priority }),
        results_cache_policy: Some(ResultsCachePolicy { priority: 0 }),
        action_digest: Some(tdigest_to(execute_request.action_digest.clone())),
    }
}

/// What came off the stream that is being read.
#[derive(Debug)]
pub enum StreamEvent {
    Message(Operation),
    /// The stream ended.
    Ended,
    /// The stream failed.
    Failed(Status),
}

/// What to do about what came off the stream.
#[derive(Debug)]
pub enum StreamAction {
    /// Hand the response to the consumer.
    Yield(ExecuteWithProgressResponse),
    /// The stream is over.
    Finish,
    /// Hand the error to the consumer; the stream is over.
    Fail(Error),
    /// The stream was severed: recover it, starting with this.
    Recover(RecoveryAction),
}

/// An execution whose stream is being read.
#[derive(Debug)]
pub struct ExecuteStream {
    pub state: ReattachState,
    /// The digest of the action, until a terminal response has taken it.
    pub action_digest: TDigest,
}

/// `yielded` is `decoded` with the stream's counters and, in a terminal response,
/// the action's digest.
pub open spec fn is_completed_response(
    decoded: ExecuteWithProgressResponse,
    stats: ExecuteReattachStats,
    action_digest: TDigest,
    yielded: ExecuteWithProgressResponse,
) -> bool {
    yielded == (ExecuteWithProgressResponse {
        reattach_stats: stats,
        execute_response: match decoded.execute_response {
            Some(execute) => Some(ExecuteResponse { action_digest, ..execute }),
            None => None,
        },
        ..decoded
    })
}

/// The severance that a failed stream is.
pub open spec fn is_channel_error(error: Error, status: Status) -> bool {
    &&& error.root == RootCause::Status(status)
    &&& error.layers() == seq!["RE channel error"@]
}

impl ExecuteStream {
    /// What reading `event` leads to, from `self` to `next`.
    pub open spec fn reads(
        self,
        event: StreamEvent,
        unimplemented: bool,
        now: Duration,
        next: ExecuteStream,
        next_unimplemented: bool,
        action: StreamAction,
    ) -> bool {
        match event {
            StreamEvent::Message(msg) => {
                let observed = self.state.heard(msg.name, msg.done, now);
                &&& next.state == observed
                &&& next_unimplemented == unimplemented
                &&& exists|decoded: Result<ExecuteWithProgressResponse, Error>| #[trigger]
                    decodes(msg, decoded) && match decoded {
                        Err(error) => action == StreamAction::Fail(error) && next.action_digest
                            == self.action_digest,
                        Ok(response) => {
                            &&& action matches StreamAction::Yield(yielded)
                            &&& is_completed_response(
                                response,
                                self.state.stats,
                                self.action_digest,
                                yielded,
                            )
                            &&& if response.execute_response is Some {
                                is_empty_digest(next.action_digest)
                            } else {
                                next.action_digest == self.action_digest
                            }
                        },
                    }
            },
            StreamEvent::Ended => {
                &&& next.action_digest == self.action_digest
                &&& if self.state.budget_in_effect(unimplemented) is None {
                    &&& next.state == self.state
                    &&& next_unimplemented == unimplemented
                    &&& action is Finish
                } else {
                    &&& action matches StreamAction::Recover(step)
                    &&& exists|trigger: Error|
                        {
                            &&& #[trigger] trigger.says(
                                "the RE execute stream ended before a terminal response"@,
                            )
                            &&& self.state.recovers(
                                RecoveryEvent::Severed { cause: RetryCause::CleanEof, trigger },
                                unimplemented,
                                now,
                                next.state,
                                next_unimplemented,
                                step,
                            )
                        }
                }
            },
            StreamEvent::Failed(status) => {
                &&& next.action_digest == self.action_digest
                &&& match status_cause(status.code, status.sources@, self.state.origin) {
                    None => {
                        &&& next.state == self.state
                        &&& next_unimplemented == unimplemented
                        &&& action matches StreamAction::Fail(error)
                        &&& is_channel_error(error, status)
                    },
                    Some(cause) => {
                        &&& action matches StreamAction::Recover(step)
                        &&& exists|trigger: Error|
                            {
                                &&& #[trigger] is_channel_error(trigger, status)
                                &&& self.state.recovers(
                                    RecoveryEvent::Severed { cause, trigger },
                                    unimplemented,
                                    now,
                                    next.state,
                                    next_unimplemented,
                                    step,
                                )
                            }
                    },
                }
            },
        }
    }

    /// An execution whose first stream `Execute` has just opened with `request`.
    pub fn new(
        request: GExecuteRequest,
        action_digest: TDigest,
        budget: Option<Duration>,
        now: Duration,
    ) -> (stream: Self)
        ensures
            stream.action_digest == action_digest,
            stream.state == (ReattachState {
                request,
                origin: StreamOrigin::Execute,
                op_name: None,
                seen_done: false,
                last_progress: now,
                attempt: 0,
                budget,
                stats: no_reattaches(),
                first_break: None,
                recovery: Recovery::Idle,
            }),
            stream.state.has_room(),
    {
        ExecuteStream { state: ReattachState::new(request, budget, now), action_digest }
    }

    /// Reports whether a terminal message was read, after which nothing more is.
    pub fn is_finished(&self) -> (finished: bool)
        ensures
            finished == self.state.seen_done,
    {
        self.state.seen_done
    }

    /// Decides about what came off the stream: a message is decoded and handed on,
    /// an end or a failure before the terminal message is a severance to recover
    /// from where that is possible.
    pub fn read(
        &mut self,
        event: StreamEvent,
        wait_execution_unimplemented: &mut bool,
        now: Duration,
    ) -> (action: StreamAction)
        requires
            old(self).state.recovery is Idle,
            old(self).state.has_room(),
        ensures
            old(self).reads(
                event,
                *old(wait_execution_unimplemented),
                now,
                *final(self),
                *final(wait_execution_unimplemented),
                action,
            ),
    {
        match event {
            StreamEvent::Message(msg) => {
                self.state.observe_message(&msg.name, msg.done, now);
                let ghost message = msg;
                match decode_operation(msg) {
                    Err(error) => {
                        assert(decodes(message, Err(error)));
                        StreamAction::Fail(error)
                    },
                    Ok(response) => {
                        assert(decodes(message, Ok(response)));
                        let mut response = response;
                        response.reattach_stats = self.state.stats();
                        if let Some(mut execute) = response.execute_response {
                            let mut taken = TDigest::default();
                            std::mem::swap(&mut taken, &mut self.action_digest);
                            execute.action_digest = taken;
                            response.execute_response = Some(execute);
                        }
                        StreamAction::Yield(response)
                    },
                }
            },
            StreamEvent::Ended => {
                if self.state.is_disabled(*wait_execution_unimplemented) {
                    return StreamAction::Finish;
                }
                let trigger = Error::msg(
                    "the RE execute stream ended before a terminal response".to_owned(),
                );
                assert(trigger.says("the RE execute stream ended before a terminal response"@));
                StreamAction::Recover(
                    self.state.recover(
                        RecoveryEvent::Severed { cause: RetryCause::CleanEof, trigger },
                        wait_execution_unimplemented,
                        now,
                    ),
                )
            },
            StreamEvent::Failed(status) => {
                let cause = classify(&status, self.state.origin);
                let ghost failed = status;
                let error = Error::new(RootCause::Status(status)).context(
                    "RE channel error".to_owned(),
                );
                assert(error.layers() =~= seq!["RE channel error"@]);
                assert(is_channel_error(error, failed));
                match cause {
                    Some(cause) => StreamAction::Recover(
                        self.state.recover(
                            RecoveryEvent::Severed { cause, trigger: error },
                            wait_execution_unimplemented,
                            now,
                        ),
                    ),
                    None => StreamAction::Fail(error),
                }
            },
        }
    }
}

/// The wire numbers the stages from one to four, in the order in which an action goes
/// through them; every other number is unknown.
pub proof fn stages_are_numbered_in_order(val: i32)
    ensures
        Stage::numbered(1) is CacheCheck,
        Stage::numbered(2) is Queued,
        Stage::numbered(3) is Executing,
        Stage::numbered(4) is Completed,
        val < 1 || val > 4 <==> Stage::numbered(val) is Unknown,
{
}

/// A message of an operation that still runs is a progress report: it has the stage of
/// its metadata, unknown where it has none, and no response. Metadata that could not be
/// decoded fail with what the decoder said.
pub proof fn running_operations_report_their_stage(
    msg: Operation,
    decoded: Result<ExecuteWithProgressResponse, Error>,
)
    requires
        decodes(msg, decoded),
        !msg.done,
    ensures
        msg.metadata matches Some(Err(error)) ==> decoded == Err::<
            ExecuteWithProgressResponse,
            Error,
        >(error),
        decoded is Err ==> msg.metadata is Some && msg.metadata->0 is Err,
        decoded matches Ok(response) ==> response.execute_response is None,
        msg.metadata is None ==> decoded is Ok && decoded->Ok_0.stage is Unknown,
        msg.metadata matches Some(Ok(number)) ==> decoded is Ok && decoded->Ok_0.stage
            == Stage::numbered(number),
        decoded matches Ok(response) ==> response.reattach_stats.severed_io == 0
            && response.reattach_stats.re_executes == 0,
{
}

/// A message of an operation that is done never reports progress: it is a terminal
/// response or a failure. It is a response exactly where the service sent one without a
/// bad status, and with a result that is whole; a failure has what the service or the
/// decoder said of it.
pub proof fn done_operations_end_the_execution(
    msg: Operation,
    decoded: Result<ExecuteWithProgressResponse, Error>,
)
    requires
        decodes(msg, decoded),
        msg.done,
    ensures
        decoded matches Ok(response) ==> {
            &&& response.stage is Completed
            &&& response.execute_response is Some
            &&& msg.result matches Some(OpResult::Response(Ok(wire)))
            &&& wire.status is None || wire.status->0.code == 0
            &&& wire.result is Some
            &&& response.execute_response->0.cached_result == wire.cached_result
            &&& response.execute_response->0.status.message == wire.message
            &&& response.execute_response->0.status.code == 0
            &&& response.execute_response->0.action_result_ttl == 0
            &&& response.execute_response->0.action_result_digest@ == (Seq::<char>::empty(), 0i64)
            &&& response.execute_response->0.action_digest@ == (Seq::<char>::empty(), 0i64)
            &&& response.reattach_stats.severed_io == 0
            &&& response.reattach_stats.severed_goaway == 0
            &&& response.reattach_stats.dial_failures == 0
            &&& response.reattach_stats.clean_eof == 0
            &&& response.reattach_stats.operation_not_found == 0
            &&& response.reattach_stats.wait_execution_reattaches == 0
            &&& response.reattach_stats.re_executes == 0
            &&& is_caller_result(
                wire.result->0,
                response.execute_response->0.action_result,
            )
        },
        msg.result is None ==> decoded is Err && decoded->Err_0.root is Message
            && decoded->Err_0.root->Message_0@ == "Missing `result` when message was `done`"@,
        msg.result matches Some(OpResult::Failed(status)) ==> {
            &&& decoded is Err
            &&& decoded->Err_0.layers().len() == 0
            &&& decoded->Err_0.root matches RootCause::Client(client)
            &&& client.code == status.code
            &&& client.message == status.message
        },
        msg.result matches Some(OpResult::Response(Err(error))) ==> decoded == Err::<
            ExecuteWithProgressResponse,
            Error,
        >(error),
        msg.result matches Some(OpResult::Response(Ok(wire))) ==> {
            let bad = wire.status is Some && wire.status->0.code != 0;
            &&& bad ==> {
                &&& decoded is Err
                &&& decoded->Err_0.layers().len() == 0
                &&& decoded->Err_0.root matches RootCause::Client(client)
                &&& client.code == wire.status->0.code
                &&& client.message == wire.status->0.message
            }
            &&& !bad && wire.result is None ==> decoded is Err && decoded->Err_0.root is Message
                && decoded->Err_0.root->Message_0@ == "The action result is not defined."@
            &&& !bad && wire.result is Some && missing_from_result(wire.result->0) is None
                ==> decoded is Ok
            &&& !bad && wire.result is Some && missing_from_result(wire.result->0) is Some
                ==> decoded is Err
        },
{
}

/// Whatever a message says, it is progress of the stream; and it never starts a
/// recovery. What it yields carries the stream's counters, and a terminal response the
/// digest of the action, which the stream then gives up.
pub proof fn messages_are_handed_on(
    stream: ExecuteStream,
    msg: Operation,
    unimplemented: bool,
    now: Duration,
    next: ExecuteStream,
    next_unimplemented: bool,
    action: StreamAction,
)
    requires
        stream.reads(
            StreamEvent::Message(msg),
            unimplemented,
            now,
            next,
            next_unimplemented,
            action,
        ),
    ensures
        action is Yield || action is Fail,
        next_unimplemented == unimplemented,
        next.state == stream.state.heard(msg.name, msg.done, now),
        next.state.seen_done == msg.done,
        msg.name@.len() > 0 ==> next.state.op_name == Some(msg.name),
        msg.name@.len() == 0 ==> next.state.op_name == stream.state.op_name,
        action matches StreamAction::Yield(response) ==> {
            &&& response.reattach_stats == stream.state.stats
            &&& response.execute_response is Some <==> msg.done
            &&& response.execute_response matches Some(execute) ==> execute.action_digest
                == stream.action_digest
        },
        !(action is Yield && msg.done) ==> next.action_digest == stream.action_digest,
        !msg.done && msg.metadata is None ==> action is Yield && action->Yield_0.stage is Unknown,
        !msg.done ==> (msg.metadata matches Some(Ok(number)) ==> action is Yield
            && action->Yield_0.stage == Stage::numbered(number)),
        msg.done && msg.result is None ==> action is Fail,
        msg.done ==> (msg.result matches Some(OpResult::Failed(status)) ==> action is Fail),
{
}

/// A stream that ends before the terminal response is recovered where reattach is on,
/// and simply over where it is off.
pub proof fn early_ends_are_recovered(
    stream: ExecuteStream,
    unimplemented: bool,
    now: Duration,
    next: ExecuteStream,
    next_unimplemented: bool,
    action: StreamAction,
)
    requires
        stream.reads(StreamEvent::Ended, unimplemented, now, next, next_unimplemented, action),
    ensures
        next_unimplemented == unimplemented,
        next.action_digest == stream.action_digest,
        unimplemented || stream.state.budget is None <==> action is Finish,
        action is Finish ==> next.state == stream.state,
        !unimplemented && stream.state.budget is Some ==> action is Recover,
        !unimplemented && stream.state.budget is Some && stream.state.budget->0@ > 0
            && stream.state.first_break is None ==> action->Recover_0 is Sleep && (
        next.state.first_break matches Some(first) && first.root is Message
            && first.root->Message_0@
            == "the RE execute stream ended before a terminal response"@)
            && next.state.stats.clean_eof == (stream.state.stats.clean_eof + 1) as u64
            && next.state.stats.severed_io == stream.state.stats.severed_io
            && next.state.op_name == stream.state.op_name,
{
}

/// A stream that failed is recovered exactly where its status says that the connection
/// was severed; otherwise the consumer gets the status, behind one context, and nothing
/// changes. With reattach off a severance comes to the same failure.
pub proof fn deliberate_failures_are_handed_on(
    stream: ExecuteStream,
    status: Status,
    unimplemented: bool,
    now: Duration,
    next: ExecuteStream,
    next_unimplemented: bool,
    action: StreamAction,
)
    requires
        stream.reads(
            StreamEvent::Failed(status),
            unimplemented,
            now,
            next,
            next_unimplemented,
            action,
        ),
    ensures
        next_unimplemented == unimplemented,
        next.action_digest == stream.action_digest,
        action is Recover <==> status_cause(
            status.code,
            status.sources@,
            stream.state.origin,
        ) is Some,
        action is Fail ==> next.state == stream.state && action->Fail_0.root == RootCause::Status(
            status,
        ) && action->Fail_0.layers().len() == 1 && action->Fail_0.layers()[0]
            == "RE channel error"@,
        action is Fail || action is Recover,
        action is Recover && (unimplemented || stream.state.budget is None) ==> next.state
            == stream.state && (action->Recover_0 matches RecoveryAction::Fail(error)
            && error.root == RootCause::Status(status)),
        action is Recover && !unimplemented && stream.state.budget is Some
            && stream.state.budget->0@ > 0 && stream.state.first_break is None
            ==> action->Recover_0 is Sleep && (next.state.first_break matches Some(first)
            && first.root == RootCause::Status(status)) && next.state.last_progress == now,
        action is Recover && action->Recover_0 is Sleep && !(status.code is NotFound)
            ==> next.state.op_name == stream.state.op_name,
        action is Recover && action->Recover_0 is Sleep && status.code is NotFound
            ==> next.state.op_name is None,
{
    if !(status.code is NotFound) {
        transport_never_loses_an_operation(status, stream.state.origin);
    }
}

/// The wire's request asks for the action of the caller's request, in the caller's
/// instance, with the caller's priority and wish about the cache.
pub proof fn wire_requests_ask_for_the_action(
    instance: Option<Seq<char>>,
    request: ExecuteRequest,
    wire: GExecuteRequest,
)
    requires
        is_wire_request(instance, request, wire),
    ensures
        instance matches Some(name) ==> wire.instance_name@ == name,
        instance is None ==> wire.instance_name@.len() == 0,
        wire.skip_cache_lookup == request.skip_cache_lookup,
        wire.execution_policy is Some,
        request.execution_policy matches Some(policy) ==> wire.execution_policy->0.priority
            == policy.priority,
        request.execution_policy is None ==> wire.execution_policy->0.priority == 0,
        wire.results_cache_policy is Some,
        wire.results_cache_policy->0.priority == 0,
        wire.action_digest is Some,
        wire.action_digest->0.hash@ == request.action_digest.hash@,
        wire.action_digest->0.size_bytes == request.action_digest.size_in_bytes,
{
}

} // verus!
