//! Recovery of an execute stream that a proxy or backend restart severed.
//!
//! A rolling upgrade of a proxy or of the backend can sever the long-lived stream
//! that carries `Execute` progress while the operation keeps running. [`classify`]
//! separates such a severance from a status that the server returned deliberately,
//! by the links of the status's source chain. [`ReattachState::recover`] then
//! reattaches to the surviving operation with `WaitExecution`, or issues `Execute`
//! again when the operation's name is unknown or forgotten, within a budget of
//! wall-clock time that fails a dead endpoint.
use vstd::prelude::*;
use vstd::arithmetic::power2::*;
use vstd::string::*;

use crate::chance::random_below;
use crate::duration::{span_text, Duration, NANOS_PER_MILLI, NANOS_PER_SEC};
use crate::error::{Code, Error, ErrorLink, IoErrorKind, RootCause, Status};
use crate::messages::GExecuteRequest;
use crate::text::{decimal, decimal_text};

verus! {

/// The reason code of a graceful HTTP/2 shutdown.
pub const H2_NO_ERROR: u32 = 0;

/// The reason code of a refused HTTP/2 stream.
pub const H2_REFUSED_STREAM: u32 = 7;

/// The backoff window of the first attempt, in milliseconds.
pub const EXECUTE_REATTACH_BACKOFF_BASE_MILLIS: u64 = 250;

/// The largest backoff window, in seconds.
pub const EXECUTE_REATTACH_BACKOFF_CAP_SECS: u64 = 10;

/// Which call produced the stream that is being read.
///
/// `NOT_FOUND` from `WaitExecution` means that the backend lost the operation and
/// a fresh `Execute` recovers it; from `Execute` it is a genuine rejection.
#[derive(Clone, Copy, Debug, PartialEq, Eq, Structural)]
pub enum StreamOrigin {
    Execute,
    WaitExecution,
}

/// Why a severed execute stream can be recovered by reattaching.
#[derive(Clone, Copy, Debug, PartialEq, Eq, Structural)]
pub enum RetryCause {
    /// The transport closed underneath a call in flight.
    Io,
    /// The peer sent an HTTP/2 GOAWAY with reason `NO_ERROR`.
    GracefulGoAway,
    /// The peer refused a new stream on a connection it is shutting down.
    RefusedStream,
    /// The endpoint refused a new connection.
    ConnectionRefused,
    /// The stream ended cleanly before a terminal response arrived.
    CleanEof,
    /// `WaitExecution` reported that the operation no longer exists.
    OperationNotFound,
}

/// How often each kind of severance and of reattachment happened on a stream.
#[derive(Clone, Copy, Debug, PartialEq, Eq, Structural)]
pub struct ExecuteReattachStats {
    pub severed_io: u64,
    pub severed_goaway: u64,
    pub dial_failures: u64,
    pub clean_eof: u64,
    pub operation_not_found: u64,
    pub wait_execution_reattaches: u64,
    pub re_executes: u64,
}

impl Default for ExecuteReattachStats {
    fn default() -> (stats: Self)
        ensures
            stats == no_reattaches(),
    {
        ExecuteReattachStats {
            severed_io: 0,
            severed_goaway: 0,
            dial_failures: 0,
            clean_eof: 0,
            operation_not_found: 0,
            wait_execution_reattaches: 0,
            re_executes: 0,
        }
    }
}

/// The counters of a stream that was never severed.
pub open spec fn no_reattaches() -> ExecuteReattachStats {
    ExecuteReattachStats {
        severed_io: 0,
        severed_goaway: 0,
        dial_failures: 0,
        clean_eof: 0,
        operation_not_found: 0,
        wait_execution_reattaches: 0,
        re_executes: 0,
    }
}

impl ExecuteReattachStats {
    /// Every counter can still go up.
    pub open spec fn has_room(self) -> bool {
        &&& self.severed_io < u64::MAX
        &&& self.severed_goaway < u64::MAX
        &&& self.dial_failures < u64::MAX
        &&& self.clean_eof < u64::MAX
        &&& self.operation_not_found < u64::MAX
        &&& self.wait_execution_reattaches < u64::MAX
        &&& self.re_executes < u64::MAX
    }

    /// The counters after one more severance for `cause`.
    pub open spec fn after_cause(self, cause: RetryCause) -> ExecuteReattachStats {
        match cause {
            RetryCause::Io => ExecuteReattachStats {
                severed_io: (self.severed_io + 1) as u64,
                ..self
            },
            RetryCause::GracefulGoAway | RetryCause::RefusedStream => ExecuteReattachStats {
                severed_goaway: (self.severed_goaway + 1) as u64,
                ..self
            },
            RetryCause::ConnectionRefused => ExecuteReattachStats {
                dial_failures: (self.dial_failures + 1) as u64,
                ..self
            },
            RetryCause::CleanEof => ExecuteReattachStats {
                clean_eof: (self.clean_eof + 1) as u64,
                ..self
            },
            RetryCause::OperationNotFound => ExecuteReattachStats {
                operation_not_found: (self.operation_not_found + 1) as u64,
                ..self
            },
        }
    }

    /// The counters after one more stream from `origin`.
    pub open spec fn after_reattach(self, origin: StreamOrigin) -> ExecuteReattachStats {
        match origin {
            StreamOrigin::WaitExecution => ExecuteReattachStats {
                wait_execution_reattaches: (self.wait_execution_reattaches + 1) as u64,
                ..self
            },
            StreamOrigin::Execute => ExecuteReattachStats {
                re_executes: (self.re_executes + 1) as u64,
                ..self
            },
        }
    }
}

/// The link speaks of the transport, so it settles the classification.
pub open spec fn settles(link: ErrorLink) -> bool {
    link is H2 || link is Io
}

/// What a link of the transport says about recovery.
pub open spec fn link_cause(link: ErrorLink) -> Option<RetryCause> {
    match link {
        ErrorLink::H2 { is_io, reason } => if is_io {
            Some(RetryCause::Io)
        } else if reason == Some(H2_NO_ERROR) {
            Some(RetryCause::GracefulGoAway)
        } else if reason == Some(H2_REFUSED_STREAM) {
            Some(RetryCause::RefusedStream)
        } else {
            None
        },
        ErrorLink::Io(kind) => match kind {
            IoErrorKind::ConnectionReset
            | IoErrorKind::ConnectionAborted
            | IoErrorKind::BrokenPipe
            | IoErrorKind::UnexpectedEof
            | IoErrorKind::NotConnected
            | IoErrorKind::TimedOut => Some(RetryCause::Io),
            IoErrorKind::ConnectionRefused => Some(RetryCause::ConnectionRefused),
            _ => None,
        },
        _ => None,
    }
}

/// What the first link that settles the classification says; nothing without one.
pub open spec fn chain_cause(links: Seq<ErrorLink>) -> Option<RetryCause>
    decreases links.len(),
{
    if links.len() == 0 {
        None
    } else if settles(links[0]) {
        link_cause(links[0])
    } else {
        chain_cause(links.drop_first())
    }
}

/// The classification of a status with code `code` above `sources`.
pub open spec fn status_cause(code: Code, sources: Seq<ErrorLink>, origin: StreamOrigin) -> Option<
    RetryCause,
> {
    if code == Code::NotFound {
        match origin {
            StreamOrigin::WaitExecution => Some(RetryCause::OperationNotFound),
            StreamOrigin::Execute => None,
        }
    } else {
        chain_cause(sources)
    }
}

/// Inspects a status for a signal that the call failed because the connection was
/// severed rather than because the server rejected the request.
///
/// The code alone does not tell: the transport reports severed connections under
/// codes that a server also returns deliberately. `NOT_FOUND` is the one code that
/// is read, because the service defines its meaning for `WaitExecution`.
pub fn classify(status: &Status, origin: StreamOrigin) -> (cause: Option<RetryCause>)
    ensures
        cause == status_cause(status.code, status.sources@, origin),
{
    if status.code == Code::NotFound {
        return match origin {
            StreamOrigin::WaitExecution => Some(RetryCause::OperationNotFound),
            StreamOrigin::Execute => None,
        };
    }
    let mut i: usize = 0;
    assert(status.sources@.skip(0) =~= status.sources@);
    while i < status.sources.len()
        invariant
            i <= status.sources@.len(),
            chain_cause(status.sources@) == chain_cause(status.sources@.skip(i as int)),
            status_cause(status.code, status.sources@, origin) == chain_cause(status.sources@),
        decreases status.sources@.len() - i,
    {
        match status.sources[i] {
            ErrorLink::H2 { is_io, reason } => {
                return if is_io {
                    Some(RetryCause::Io)
                } else {
                    match reason {
                        Some(code) => if code == H2_NO_ERROR {
                            Some(RetryCause::GracefulGoAway)
                        } else if code == H2_REFUSED_STREAM {
                            Some(RetryCause::RefusedStream)
                        } else {
                            None
                        },
                        None => None,
                    }
                };
            },
            ErrorLink::Io(kind) => {
                return match kind {
                    IoErrorKind::ConnectionReset
                    | IoErrorKind::ConnectionAborted
                    | IoErrorKind::BrokenPipe
                    | IoErrorKind::UnexpectedEof
                    | IoErrorKind::NotConnected
                    | IoErrorKind::TimedOut => Some(RetryCause::Io),
                    IoErrorKind::ConnectionRefused => Some(RetryCause::ConnectionRefused),
                    _ => None,
                };
            },
            _ => {},
        }
        assert(status.sources@.skip(i as int).drop_first() =~= status.sources@.skip(i + 1));
        i = i + 1;
    }
    None
}

/// Reports whether a status is a `WaitExecution` call answered with
/// `UNIMPLEMENTED`. That describes the backend, not a passing failure: a server
/// need not implement the call and advertises nowhere whether it does.
pub fn is_wait_execution_unimplemented(status: &Status, origin: StreamOrigin) -> (yes: bool)
    ensures
        yes == (origin == StreamOrigin::WaitExecution && status.code == Code::Unimplemented),
{
    origin == StreamOrigin::WaitExecution && status.code == Code::Unimplemented
}

/// The backoff window of the given attempt in nanoseconds: 250 ms, doubled with
/// every attempt after the first, up to 10 s.
pub open spec fn backoff_window(attempt: nat) -> nat {
    let doublings = if attempt == 0 {
        0
    } else {
        (attempt - 1) as nat
    };
    let grown = EXECUTE_REATTACH_BACKOFF_BASE_MILLIS as nat * NANOS_PER_MILLI as nat * pow2(
        doublings,
    );
    let cap = EXECUTE_REATTACH_BACKOFF_CAP_SECS as nat * NANOS_PER_SEC as nat;
    if grown <= cap {
        grown
    } else {
        cap
    }
}

/// The window never shrinks from one attempt to a later one, and stays between
/// the first attempt's window and the cap.
pub proof fn backoff_window_grows_and_caps(attempt: nat, later: nat)
    requires
        attempt <= later,
    ensures
        backoff_window(attempt) <= backoff_window(later),
        EXECUTE_REATTACH_BACKOFF_BASE_MILLIS * NANOS_PER_MILLI <= backoff_window(attempt),
        backoff_window(later) <= EXECUTE_REATTACH_BACKOFF_CAP_SECS * NANOS_PER_SEC,
        attempt >= 7 ==> backoff_window(attempt) == EXECUTE_REATTACH_BACKOFF_CAP_SECS
            * NANOS_PER_SEC,
{
    let a = if attempt == 0 {
        0
    } else {
        (attempt - 1) as nat
    };
    let b = if later == 0 {
        0
    } else {
        (later - 1) as nat
    };
    lemma2_to64();
    if a < b {
        lemma_pow2_strictly_increases(a, b);
    }
    if 0 < a {
        lemma_pow2_strictly_increases(0, a);
    }
    if 6 < a {
        lemma_pow2_strictly_increases(6, a);
    }
    let base = EXECUTE_REATTACH_BACKOFF_BASE_MILLIS as nat * NANOS_PER_MILLI as nat;
    assert(base <= base * pow2(a)) by (nonlinear_arith)
        requires
            1 <= pow2(a),
    ;
}

/// The upper bound of the backoff window for an attempt.
pub fn jittered_backoff_bound(attempt: u32) -> (bound: Duration)
    ensures
        bound@ == backoff_window(attempt as nat),
{
    let shortened: u32 = attempt.saturating_sub(1);
    let exponent: u32 = if shortened < 31 {
        shortened
    } else {
        31
    };
    proof {
        lemma2_to64();
        if exponent < 31 {
            lemma_pow2_strictly_increases(exponent as nat, 31);
        }
        vstd::bits::lemma_u32_shl_is_mul(1, exponent);
        backoff_window_grows_and_caps(attempt as nat, attempt as nat);
    }
    Duration::from_millis(EXECUTE_REATTACH_BACKOFF_BASE_MILLIS).saturating_mul(
        1u32 << exponent,
    ).min(Duration::from_secs(EXECUTE_REATTACH_BACKOFF_CAP_SECS))
}

/// A delay drawn from the backoff window of the given attempt.
pub fn sample_jittered_backoff(attempt: u32) -> (delay: Duration)
    ensures
        delay@ < backoff_window(attempt as nat),
{
    let bound = jittered_backoff_bound(attempt);
    proof {
        backoff_window_grows_and_caps(attempt as nat, attempt as nat);
    }
    Duration::from_nanos(random_below(bound.as_nanos() as u64))
}

/// Where the recovery of the current severance stands.
#[derive(Clone, Copy, Debug, PartialEq, Eq, Structural)]
pub enum Recovery {
    /// No severance is being recovered.
    Idle,
    /// The delay before the next dial runs.
    BackingOff { cause: RetryCause, budget: Duration },
    /// A new stream is being dialed.
    Dialing { budget: Duration, origin: StreamOrigin },
}

/// What happened outside since the last step of a recovery.
#[derive(Debug)]
pub enum RecoveryEvent {
    /// The stream was severed.
    Severed { cause: RetryCause, trigger: Error },
    /// The delay before the next dial is over and a dial may start.
    BackoffElapsed,
    /// The dial gave a new stream.
    DialSucceeded,
    /// The dial failed.
    DialFailed(Error),
}

/// The call that reattaches.
#[derive(Debug)]
pub enum DialTarget {
    /// Wait for the named operation.
    WaitExecution(String),
    /// Run the action again.
    Execute(GExecuteRequest),
}

/// What to do next in a recovery.
#[derive(Debug)]
pub enum RecoveryAction {
    /// Wait this long, then hand back [`RecoveryEvent::BackoffElapsed`].
    Sleep(Duration),
    /// Make this call, then hand back how it went.
    Dial(DialTarget),
    /// Read on from the new stream.
    Resume,
    /// Give up.
    Fail(Error),
}

/// Drives recovery of a severed execute stream.
///
/// Holds what reattaching needs: the operation name last seen, the budget and the
/// backoff state, and counters of what happened. Whether the backend was found not
/// to implement `WaitExecution` is shared by all streams of a client, so it is
/// handed in.
#[derive(Debug)]
pub struct ReattachState {
    pub request: GExecuteRequest,
    pub origin: StreamOrigin,
    pub op_name: Option<String>,
    pub seen_done: bool,
    /// When the stream last made progress, or when the current severance began.
    pub last_progress: Duration,
    pub attempt: u32,
    /// `None` disables reattach: every severance propagates its trigger.
    pub budget: Option<Duration>,
    pub stats: ExecuteReattachStats,
    /// What severed the stream first since it last made progress.
    pub first_break: Option<Error>,
    pub recovery: Recovery,
}

/// The hash of a request's action digest, or nothing where it has none.
pub open spec fn request_hash(request: GExecuteRequest) -> Seq<char> {
    match request.action_digest {
        Some(digest) => digest.hash@,
        None => Seq::empty(),
    }
}

/// The time from `earlier` to `now`, zero where the clock did not advance.
pub open spec fn span_between(earlier: Duration, now: Duration) -> nat {
    if now@ >= earlier@ {
        (now@ - earlier@) as nat
    } else {
        0
    }
}

/// The name of the call behind a stream.
pub open spec fn rpc_name(origin: StreamOrigin) -> Seq<char> {
    match origin {
        StreamOrigin::WaitExecution => "WaitExecution"@,
        StreamOrigin::Execute => "Execute"@,
    }
}

/// `error` is `first` with `context` laid round it, or just `context` without one.
pub open spec fn blames(error: Error, first: Option<Error>, context: Seq<char>) -> bool {
    match first {
        Some(first) => error.wraps(first, context),
        None => error.says(context),
    }
}

impl ReattachState {
    /// Every counter can still go up.
    pub open spec fn has_room(self) -> bool {
        self.attempt < u32::MAX && self.stats.has_room()
    }

    /// The event is one that the recovery waits for.
    pub open spec fn awaits(self, event: RecoveryEvent) -> bool {
        match event {
            RecoveryEvent::Severed { .. } => self.recovery is Idle,
            RecoveryEvent::BackoffElapsed => self.recovery is BackingOff,
            RecoveryEvent::DialSucceeded | RecoveryEvent::DialFailed(_) => self.recovery is Dialing,
        }
    }

    /// The budget in effect, given whether the backend lacks `WaitExecution`.
    pub open spec fn budget_in_effect(self, unimplemented: bool) -> Option<Duration> {
        if unimplemented {
            None
        } else {
            self.budget
        }
    }

    /// The action and the operation in the words of messages.
    pub open spec fn resource_text(self) -> Seq<char> {
        "action `"@ + request_hash(self.request) + "`, operation `"@ + (match self.op_name {
            Some(name) => name@,
            None => "<unknown>"@,
        }) + "`"@
    }

    /// The message of a spent budget.
    pub open spec fn budget_text(self, budget: nat, elapsed: nat) -> Seq<char> {
        "Exceeding RE execute reattach budget of "@ + span_text(budget) + " after "@ + decimal(
            self.attempt as nat,
        ) + " attempt(s) and "@ + span_text(elapsed) + " for "@ + self.resource_text()
    }

    /// The message of a dial that cannot be tried again.
    pub open spec fn dial_text(self, origin: StreamOrigin) -> Seq<char> {
        "Reattaching RE execute stream via "@ + rpc_name(origin) + " for "@ + self.resource_text()
    }

    /// The state once a message that carries `name` has arrived at `now`.
    pub open spec fn heard(self, name: String, done: bool, now: Duration) -> ReattachState {
        ReattachState {
            op_name: if name@.len() > 0 {
                Some(name)
            } else {
                self.op_name
            },
            last_progress: now,
            attempt: 0,
            first_break: None,
            seen_done: done,
            ..self
        }
    }

    /// The state once `cause` is taken into account: a forgotten operation has no
    /// name any more.
    pub open spec fn knowing(self, cause: RetryCause) -> ReattachState {
        if cause == RetryCause::OperationNotFound {
            ReattachState { op_name: None, ..self }
        } else {
            self
        }
    }

    /// From `self`, one more attempt for `cause` leads to `next` and `action`: the
    /// budget is spent and the recovery fails, or a delay from the next attempt's
    /// window starts.
    pub open spec fn attempts(
        self,
        cause: RetryCause,
        budget: Duration,
        now: Duration,
        next: ReattachState,
        action: RecoveryAction,
    ) -> bool {
        let elapsed = span_between(self.last_progress, now);
        if elapsed >= budget@ {
            &&& next == (ReattachState { first_break: None, recovery: Recovery::Idle, ..self })
            &&& action matches RecoveryAction::Fail(error)
            &&& blames(error, self.first_break, self.budget_text(budget@, elapsed))
        } else {
            &&& next == (ReattachState {
                attempt: (self.attempt + 1) as u32,
                stats: self.stats.after_cause(cause),
                recovery: Recovery::BackingOff { cause, budget },
                ..self
            })
            &&& action matches RecoveryAction::Sleep(delay)
            &&& delay@ < backoff_window((self.attempt + 1) as nat)
        }
    }

    /// The state in which the recovery of a severance starts: the first severance
    /// since the last progress is kept and starts the clock of the budget.
    pub open spec fn severed(self, cause: RetryCause, trigger: Error, now: Duration) -> ReattachState {
        let known = self.knowing(cause);
        if self.first_break is None {
            ReattachState { first_break: Some(trigger), last_progress: now, ..known }
        } else {
            known
        }
    }

    /// One step of a recovery: from `self` and the shared flag `unimplemented`, the
    /// event leads to `next`, the flag `next_unimplemented` and `action`.
    pub open spec fn recovers(
        self,
        event: RecoveryEvent,
        unimplemented: bool,
        now: Duration,
        next: ReattachState,
        next_unimplemented: bool,
        action: RecoveryAction,
    ) -> bool {
        match event {
            RecoveryEvent::Severed { cause, trigger } => {
                &&& next_unimplemented == unimplemented
                &&& match self.budget_in_effect(unimplemented) {
                    None => next == self && action == RecoveryAction::Fail(trigger),
                    Some(budget) => self.severed(cause, trigger, now).attempts(
                        cause,
                        budget,
                        now,
                        next,
                        action,
                    ),
                }
            },
            RecoveryEvent::BackoffElapsed => {
                let origin = if self.op_name is Some {
                    StreamOrigin::WaitExecution
                } else {
                    StreamOrigin::Execute
                };
                &&& next_unimplemented == unimplemented
                &&& next == (ReattachState {
                    recovery: Recovery::Dialing { budget: self.recovery->BackingOff_budget, origin },
                    ..self
                })
                &&& action == RecoveryAction::Dial(
                    match self.op_name {
                        Some(name) => DialTarget::WaitExecution(name),
                        None => DialTarget::Execute(self.request),
                    },
                )
            },
            RecoveryEvent::DialSucceeded => {
                let origin = self.recovery->Dialing_origin;
                &&& next_unimplemented == unimplemented
                &&& next == (ReattachState {
                    origin,
                    stats: self.stats.after_reattach(origin),
                    recovery: Recovery::Idle,
                    ..self
                })
                &&& action is Resume
            },
            RecoveryEvent::DialFailed(error) => {
                let origin = self.recovery->Dialing_origin;
                match dial_cause(error, origin) {
                    Some(cause) => {
                        &&& next_unimplemented == unimplemented
                        &&& self.knowing(cause).attempts(
                            cause,
                            self.recovery->Dialing_budget,
                            now,
                            next,
                            action,
                        )
                    },
                    None => {
                        &&& next_unimplemented == (unimplemented || lacks_wait_execution(
                            error,
                            origin,
                        ))
                        &&& next == (ReattachState {
                            first_break: None,
                            recovery: Recovery::Idle,
                            ..self
                        })
                        &&& action matches RecoveryAction::Fail(failure)
                        &&& match self.first_break {
                            Some(first) => {
                                &&& failure.root == first.root
                                &&& failure.layers() == first.layers().push(error.text_spec()).push(
                                    self.dial_text(origin),
                                )
                            },
                            None => failure.wraps(error, self.dial_text(origin)),
                        }
                    },
                }
            },
        }
    }
}

/// Why a failed dial may be tried again, if it may.
pub open spec fn dial_cause(error: Error, origin: StreamOrigin) -> Option<RetryCause> {
    match error.root {
        RootCause::Status(status) => status_cause(status.code, status.sources@, origin),
        _ => None,
    }
}

/// A failed dial shows that the backend does not implement `WaitExecution`.
pub open spec fn lacks_wait_execution(error: Error, origin: StreamOrigin) -> bool {
    &&& origin == StreamOrigin::WaitExecution
    &&& error.root matches RootCause::Status(status)
    &&& status.code == Code::Unimplemented
}

impl ReattachState {
    /// The state of a stream that `Execute` has just opened.
    pub fn new(request: GExecuteRequest, budget: Option<Duration>, now: Duration) -> (state: Self)
        ensures
            state == (ReattachState {
                request,
                origin: StreamOrigin::Execute,
                op_name: None,
                seen_done: false,
                last_progress: now,
                attempt: 0,
                budget,
                stats: no_reattaches(),
                first_break: None,
                recovery: Recovery::Idle,
            }),
            state.has_room(),
    {
        ReattachState {
            request,
            origin: StreamOrigin::Execute,
            op_name: None,
            seen_done: false,
            last_progress: now,
            attempt: 0,
            budget,
            stats: ExecuteReattachStats::default(),
            first_break: None,
            recovery: Recovery::Idle,
        }
    }

    /// The counters so far.
    pub fn stats(&self) -> (stats: ExecuteReattachStats)
        ensures
            stats == self.stats,
    {
        self.stats
    }

    /// The budget for the next reattach: `None` if reattach is disabled, or if the
    /// backend was found not to implement `WaitExecution`.
    pub fn effective_budget(&self, wait_execution_unimplemented: bool) -> (budget: Option<Duration>)
        ensures
            budget == self.budget_in_effect(wait_execution_unimplemented),
    {
        if wait_execution_unimplemented {
            return None;
        }
        self.budget
    }

    /// Reports whether reattach is disabled. While it is, every severance
    /// propagates its trigger unmodified.
    pub fn is_disabled(&self, wait_execution_unimplemented: bool) -> (disabled: bool)
        ensures
            disabled == (self.budget_in_effect(wait_execution_unimplemented) is None),
    {
        self.effective_budget(wait_execution_unimplemented).is_none()
    }

    /// Records a message received on the stream: takes over the operation's name,
    /// which every message refreshes, and resets the budget and the backoff.
    pub fn observe_message(&mut self, name: &String, done: bool, now: Duration)
        ensures
            *final(self) == old(self).heard(*name, done, now),
    {
        if !name.as_str().is_empty() {
            self.op_name = Some(name.clone());
        }
        self.last_progress = now;
        self.attempt = 0;
        self.first_break = None;
        self.seen_done = done;
    }

    /// Takes one step in recovering a severed stream.
    ///
    /// Once the backend has named the operation, reattaches to it by
    /// `WaitExecution`; a severance that comes first issues `Execute` again. The
    /// clock of the budget starts when the severance begins, so the time that
    /// detecting it took is not charged. A dial that fails with a cause that allows
    /// it is tried again within the same budget; any other failure, or a spent
    /// budget, fails with the original cause. A `WaitExecution` answered with
    /// `UNIMPLEMENTED` switches reattach off for the client.
    pub fn recover(
        &mut self,
        event: RecoveryEvent,
        wait_execution_unimplemented: &mut bool,
        now: Duration,
    ) -> (action: RecoveryAction)
        requires
            old(self).awaits(event),
            old(self).has_room(),
        ensures
            old(self).recovers(
                event,
                *old(wait_execution_unimplemented),
                now,
                *final(self),
                *final(wait_execution_unimplemented),
                action,
            ),
    {
        match event {
            RecoveryEvent::Severed { cause, trigger } => {
                match self.effective_budget(*wait_execution_unimplemented) {
                    None => RecoveryAction::Fail(trigger),
                    Some(budget) => {
                        self.apply_cause(cause);
                        if self.first_break.is_none() {
                            self.first_break = Some(trigger);
                            self.last_progress = now;
                        }
                        self.next_attempt(cause, budget, now)
                    },
                }
            },
            RecoveryEvent::BackoffElapsed => {
                let budget = match self.recovery {
                    Recovery::BackingOff { budget, .. } => budget,
                    _ => Duration::zero(),
                };
                match &self.op_name {
                    Some(name) => {
                        let target = DialTarget::WaitExecution(name.clone());
                        self.recovery = Recovery::Dialing {
                            budget,
                            origin: StreamOrigin::WaitExecution,
                        };
                        RecoveryAction::Dial(target)
                    },
                    None => {
                        self.recovery = Recovery::Dialing {
                            budget,
                            origin: StreamOrigin::Execute,
                        };
                        RecoveryAction::Dial(DialTarget::Execute(self.request.clone()))
                    },
                }
            },
            RecoveryEvent::DialSucceeded => {
                if let Recovery::Dialing { origin, .. } = self.recovery {
                    self.origin = origin;
                    match origin {
                        StreamOrigin::WaitExecution => {
                            self.stats.wait_execution_reattaches = self.stats.wait_execution_reattaches
                                + 1;
                        },
                        StreamOrigin::Execute => {
                            self.stats.re_executes = self.stats.re_executes + 1;
                        },
                    }
                }
                self.recovery = Recovery::Idle;
                RecoveryAction::Resume
            },
            RecoveryEvent::DialFailed(error) => {
                let (budget, origin) = match self.recovery {
                    Recovery::Dialing { budget, origin } => (budget, origin),
                    _ => (Duration::zero(), StreamOrigin::Execute),
                };
                let reclassified = match error.status() {
                    Some(status) => classify(status, origin),
                    None => None,
                };
                match reclassified {
                    Some(cause) => {
                        self.apply_cause(cause);
                        self.next_attempt(cause, budget, now)
                    },
                    None => {
                        if let Some(status) = error.status() {
                            if is_wait_execution_unimplemented(status, origin) {
                                *wait_execution_unimplemented = true;
                            }
                        }
                        RecoveryAction::Fail(self.dial_failed(origin, error))
                    },
                }
            },
        }
    }

    /// Starts one more attempt, or fails because the budget is spent.
    fn next_attempt(&mut self, cause: RetryCause, budget: Duration, now: Duration) -> (action:
        RecoveryAction)
        requires
            old(self).has_room(),
        ensures
            old(self).attempts(cause, budget, now, *final(self), action),
    {
        let elapsed = now.saturating_sub(self.last_progress);
        if !elapsed.is_shorter_than(&budget) {
            return RecoveryAction::Fail(self.budget_exceeded(budget, elapsed));
        }
        self.attempt = self.attempt + 1;
        self.bump_cause_stat(cause);
        self.recovery = Recovery::BackingOff { cause, budget };
        RecoveryAction::Sleep(sample_jittered_backoff(self.attempt))
    }

    /// Forgets the operation's name when the backend has forgotten the operation.
    fn apply_cause(&mut self, cause: RetryCause)
        ensures
            *final(self) == old(self).knowing(cause),
    {
        if cause == RetryCause::OperationNotFound {
            self.op_name = None;
        }
    }

    fn bump_cause_stat(&mut self, cause: RetryCause)
        requires
            old(self).stats.has_room(),
        ensures
            *final(self) == (ReattachState {
                stats: old(self).stats.after_cause(cause),
                ..*old(self)
            }),
    {
        match cause {
            RetryCause::Io => {
                self.stats.severed_io = self.stats.severed_io + 1;
            },
            RetryCause::GracefulGoAway | RetryCause::RefusedStream => {
                self.stats.severed_goaway = self.stats.severed_goaway + 1;
            },
            RetryCause::ConnectionRefused => {
                self.stats.dial_failures = self.stats.dial_failures + 1;
            },
            RetryCause::CleanEof => {
                self.stats.clean_eof = self.stats.clean_eof + 1;
            },
            RetryCause::OperationNotFound => {
                self.stats.operation_not_found = self.stats.operation_not_found + 1;
            },
        }
    }

    fn action_digest_hash(&self) -> (hash: &str)
        ensures
            hash@ == request_hash(self.request),
    {
        match &self.request.action_digest {
            Some(digest) => digest.hash.as_str(),
            None => {
                proof {
                    reveal_strlit("");
                }
                assert(""@ =~= Seq::<char>::empty());
                ""
            },
        }
    }

    fn resource_context(&self) -> (text: String)
        ensures
            text@ == self.resource_text(),
    {
        let mut text = "action `".to_owned();
        text.append(self.action_digest_hash());
        text.append("`, operation `");
        text.append(
            match &self.op_name {
                Some(name) => name.as_str(),
                None => "<unknown>",
            },
        );
        text.append("`");
        text
    }

    /// Ends a recovery whose budget is spent with what severed the stream first.
    fn budget_exceeded(&mut self, budget: Duration, elapsed: Duration) -> (error: Error)
        ensures
            *final(self) == (ReattachState {
                first_break: None,
                recovery: Recovery::Idle,
                ..*old(self)
            }),
            blames(error, old(self).first_break, old(self).budget_text(budget@, elapsed@)),
    {
        let mut context = "Exceeding RE execute reattach budget of ".to_owned();
        context.append(budget.to_text().as_str());
        context.append(" after ");
        context.append(decimal_text(self.attempt as u64).as_str());
        context.append(" attempt(s) and ");
        context.append(elapsed.to_text().as_str());
        context.append(" for ");
        context.append(self.resource_context().as_str());
        self.recovery = Recovery::Idle;
        match self.first_break.take() {
            Some(first) => first.context(context),
            None => Error::msg(context),
        }
    }

    /// Ends a recovery whose dial cannot be tried again with what severed the
    /// stream first.
    fn dial_failed(&mut self, origin: StreamOrigin, error: Error) -> (failure: Error)
        ensures
            *final(self) == (ReattachState {
                first_break: None,
                recovery: Recovery::Idle,
                ..*old(self)
            }),
            match old(self).first_break {
                Some(first) => {
                    &&& failure.root == first.root
                    &&& failure.layers() == first.layers().push(error.text_spec()).push(
                        old(self).dial_text(origin),
                    )
                },
                None => failure.wraps(error, old(self).dial_text(origin)),
            },
    {
        let mut context = "Reattaching RE execute stream via ".to_owned();
        context.append(
            match origin {
                StreamOrigin::WaitExecution => "WaitExecution",
                StreamOrigin::Execute => "Execute",
            },
        );
        context.append(" for ");
        context.append(self.resource_context().as_str());
        self.recovery = Recovery::Idle;
        match self.first_break.take() {
            Some(first) => first.context(error.to_text()).context(context),
            None => error.context(context),
        }
    }
}

/// With reattach disabled, by configuration or because the backend lacks
/// `WaitExecution`, a severance propagates its trigger unmodified and changes
/// nothing.
pub proof fn disabled_reattach_propagates_the_trigger(
    state: ReattachState,
    cause: RetryCause,
    trigger: Error,
    unimplemented: bool,
    now: Duration,
    next: ReattachState,
    next_unimplemented: bool,
    action: RecoveryAction,
)
    requires
        state.budget is None || unimplemented,
        state.recovers(
            RecoveryEvent::Severed { cause, trigger },
            unimplemented,
            now,
            next,
            next_unimplemented,
            action,
        ),
    ensures
        action == RecoveryAction::Fail(trigger),
        next == state,
        next_unimplemented == unimplemented,
{
}

/// The first severance since the last progress is always tried, however long the
/// stream was silent before: the time that detecting it took is not charged.
pub proof fn silence_is_not_charged_to_the_budget(
    state: ReattachState,
    cause: RetryCause,
    trigger: Error,
    budget: Duration,
    now: Duration,
    next: ReattachState,
    next_unimplemented: bool,
    action: RecoveryAction,
)
    requires
        state.first_break is None,
        state.budget == Some(budget),
        budget@ > 0,
        state.recovers(
            RecoveryEvent::Severed { cause, trigger },
            false,
            now,
            next,
            next_unimplemented,
            action,
        ),
    ensures
        action is Sleep,
        next.first_break == Some(trigger),
        next.last_progress == now,
{
}

/// A backend that answers `WaitExecution` with `UNIMPLEMENTED` fails the recovery
/// and switches reattach off for every stream of the client.
pub proof fn unimplemented_wait_execution_disables_reattach(
    state: ReattachState,
    error: Error,
    unimplemented: bool,
    now: Duration,
    next: ReattachState,
    next_unimplemented: bool,
    action: RecoveryAction,
    any: ReattachState,
)
    requires
        state.recovery is Dialing,
        lacks_wait_execution(error, state.recovery->Dialing_origin),
        dial_cause(error, state.recovery->Dialing_origin) is None,
        state.recovers(
            RecoveryEvent::DialFailed(error),
            unimplemented,
            now,
            next,
            next_unimplemented,
            action,
        ),
    ensures
        action is Fail,
        next_unimplemented,
        any.budget_in_effect(next_unimplemented) is None,
{
}

/// No step switches reattach on again once it was switched off.
pub proof fn disabling_reattach_lasts(
    state: ReattachState,
    event: RecoveryEvent,
    now: Duration,
    next: ReattachState,
    next_unimplemented: bool,
    action: RecoveryAction,
)
    requires
        state.recovers(event, true, now, next, next_unimplemented, action),
    ensures
        next_unimplemented,
{
}

/// An operation that the backend has forgotten is run again: the dial after its
/// delay issues `Execute` with the stream's own request.
pub proof fn forgotten_operations_are_executed_again(
    state: ReattachState,
    trigger: Error,
    unimplemented: bool,
    now: Duration,
    waiting: ReattachState,
    delay: RecoveryAction,
    later: Duration,
    dialing: ReattachState,
    dial: RecoveryAction,
)
    requires
        state.recovers(
            RecoveryEvent::Severed { cause: RetryCause::OperationNotFound, trigger },
            unimplemented,
            now,
            waiting,
            unimplemented,
            delay,
        ),
        delay is Sleep,
        waiting.recovers(
            RecoveryEvent::BackoffElapsed,
            unimplemented,
            later,
            dialing,
            unimplemented,
            dial,
        ),
    ensures
        dial == RecoveryAction::Dial(DialTarget::Execute(state.request)),
{
}

/// An operation whose name is known is waited for under that name.
pub proof fn named_operations_are_waited_for(
    state: ReattachState,
    name: String,
    cause: RetryCause,
    trigger: Error,
    unimplemented: bool,
    now: Duration,
    waiting: ReattachState,
    delay: RecoveryAction,
    later: Duration,
    dialing: ReattachState,
    dial: RecoveryAction,
)
    requires
        state.op_name == Some(name),
        cause != RetryCause::OperationNotFound,
        state.recovers(
            RecoveryEvent::Severed { cause, trigger },
            unimplemented,
            now,
            waiting,
            unimplemented,
            delay,
        ),
        delay is Sleep,
        waiting.recovers(
            RecoveryEvent::BackoffElapsed,
            unimplemented,
            later,
            dialing,
            unimplemented,
            dial,
        ),
    ensures
        dial == RecoveryAction::Dial(DialTarget::WaitExecution(name)),
{
}

/// One step of a recovery together with its outcome.
pub ghost struct RecoveryStep {
    pub state: ReattachState,
    pub event: RecoveryEvent,
    pub unimplemented: bool,
    pub now: Duration,
    pub next: ReattachState,
    pub next_unimplemented: bool,
    pub action: RecoveryAction,
}

impl RecoveryStep {
    /// The step is one that a recovery can take.
    pub open spec fn is_step(self) -> bool {
        &&& self.state.awaits(self.event)
        &&& self.state.recovers(
            self.event,
            self.unimplemented,
            self.now,
            self.next,
            self.next_unimplemented,
            self.action,
        )
    }
}

/// The steps of one recovery, from the severance on, each from where the one
/// before it led.
pub open spec fn is_recovery(steps: Seq<RecoveryStep>) -> bool {
    &&& steps.len() > 0
    &&& steps[0].event is Severed
    &&& forall|i: int| 0 <= i < steps.len() ==> (#[trigger] steps[i]).is_step()
    &&& forall|i: int|
        0 < i < steps.len() ==> {
            &&& (#[trigger] steps[i]).state == steps[i - 1].next
            &&& !(steps[i].event is Severed)
        }
}

impl RecoveryStep {
    /// The outcome keeps to a recovery that `first` began at `began`: a failure has
    /// its root, a delay starts within the budget, and short of a failure the
    /// severance, its time and the budget stay what they were.
    pub open spec fn keeps(self, first: Error, began: Duration, budget: Duration) -> bool {
        match self.action {
            RecoveryAction::Fail(error) => {
                &&& error.root == first.root
                &&& self.next.recovery is Idle
            },
            _ => {
                &&& self.action is Sleep ==> span_between(began, self.now) < budget@
                &&& self.next.first_break == Some(first)
                &&& self.next.last_progress == began
                &&& match self.next.recovery {
                    Recovery::Idle => self.action is Resume,
                    Recovery::BackingOff { budget: b, .. } => b == budget,
                    Recovery::Dialing { budget: b, .. } => b == budget,
                }
            },
        }
    }
}

proof fn first_step_keeps(step: RecoveryStep, budget: Duration)
    requires
        step.is_step(),
        step.event is Severed,
        step.state.first_break is None,
        step.state.budget_in_effect(step.unimplemented) == Some(budget),
    ensures
        step.keeps(step.event->trigger, step.now, budget),
{
}

proof fn later_step_keeps(
    before: RecoveryStep,
    step: RecoveryStep,
    first: Error,
    began: Duration,
    budget: Duration,
)
    requires
        before.keeps(first, began, budget),
        step.state == before.next,
        step.is_step(),
        !(step.event is Severed),
    ensures
        step.keeps(first, began, budget),
{
}

/// However often a recovery dials, if it fails then with what severed the stream
/// first at its root; and every delay was started while the budget, counted from
/// the severance, was not spent.
pub proof fn recovery_blames_the_first_severance(
    steps: Seq<RecoveryStep>,
    budget: Duration,
    i: int,
)
    requires
        is_recovery(steps),
        steps[0].state.first_break is None,
        steps[0].state.budget_in_effect(steps[0].unimplemented) == Some(budget),
        0 <= i < steps.len(),
    ensures
        steps[i].keeps(steps[0].event->trigger, steps[0].now, budget),
        steps[i].action matches RecoveryAction::Fail(error) ==> error.root
            == steps[0].event->trigger.root,
        steps[i].action is Sleep ==> span_between(steps[0].now, steps[i].now) < budget@,
    decreases i,
{
    assert(steps[i].is_step());
    if i == 0 {
        first_step_keeps(steps[0], budget);
    } else {
        recovery_blames_the_first_severance(steps, budget, i - 1);
        later_step_keeps(
            steps[i - 1],
            steps[i],
            steps[0].event->trigger,
            steps[0].now,
            budget,
        );
    }
}

/// A dial that failed for any other reason than that `WaitExecution` no longer knows
/// the operation, and that is tried again, is tried on the operation that was known
/// before it.
pub proof fn failed_dials_keep_the_operation(
    state: ReattachState,
    name: String,
    error: Error,
    unimplemented: bool,
    now: Duration,
    waiting: ReattachState,
    still_unimplemented: bool,
    delay: RecoveryAction,
    later: Duration,
    dialing: ReattachState,
    at_last_unimplemented: bool,
    dial: RecoveryAction,
)
    requires
        state.op_name == Some(name),
        !(state.recovery->Dialing_origin is WaitExecution
            && error.root->Status_0.code is NotFound),
        state.recovers(
            RecoveryEvent::DialFailed(error),
            unimplemented,
            now,
            waiting,
            still_unimplemented,
            delay,
        ),
        delay is Sleep,
        waiting.recovers(
            RecoveryEvent::BackoffElapsed,
            still_unimplemented,
            later,
            dialing,
            at_last_unimplemented,
            dial,
        ),
    ensures
        dial == RecoveryAction::Dial(DialTarget::WaitExecution(name)),
        dialing.recovery->Dialing_origin is WaitExecution,
        dialing.op_name == Some(name),
{
    match error.root {
        RootCause::Status(status) => {
            links_without_transport_say_nothing(status.sources@);
        },
        _ => {},
    }
}

/// The same in terms of the dial's cause: whatever may be tried again and is not a
/// forgotten operation goes to the operation that was known before.
pub proof fn retried_dials_go_to_the_known_operation(
    state: ReattachState,
    name: String,
    error: Error,
    cause: RetryCause,
    unimplemented: bool,
    now: Duration,
    waiting: ReattachState,
    still_unimplemented: bool,
    delay: RecoveryAction,
    later: Duration,
    dialing: ReattachState,
    at_last_unimplemented: bool,
    dial: RecoveryAction,
)
    requires
        state.op_name == Some(name),
        dial_cause(error, state.recovery->Dialing_origin) == Some(cause),
        cause != RetryCause::OperationNotFound,
        state.recovers(
            RecoveryEvent::DialFailed(error),
            unimplemented,
            now,
            waiting,
            still_unimplemented,
            delay,
        ),
        delay is Sleep,
        waiting.recovers(
            RecoveryEvent::BackoffElapsed,
            still_unimplemented,
            later,
            dialing,
            at_last_unimplemented,
            dial,
        ),
    ensures
        dial == RecoveryAction::Dial(DialTarget::WaitExecution(name)),
{
}

/// A `WaitExecution` dial answered with `NOT_FOUND` while the budget lasts is followed
/// by an `Execute` with the stream's own request.
pub proof fn operations_lost_during_a_dial_are_executed_again(
    state: ReattachState,
    error: Error,
    unimplemented: bool,
    now: Duration,
    waiting: ReattachState,
    still_unimplemented: bool,
    delay: RecoveryAction,
    later: Duration,
    dialing: ReattachState,
    at_last_unimplemented: bool,
    dial: RecoveryAction,
)
    requires
        state.recovery is Dialing,
        state.recovery->Dialing_origin is WaitExecution,
        error.root is Status,
        error.root->Status_0.code is NotFound,
        now@ < state.last_progress@ + state.recovery->Dialing_budget@,
        0 < state.recovery->Dialing_budget@,
        state.recovers(
            RecoveryEvent::DialFailed(error),
            unimplemented,
            now,
            waiting,
            still_unimplemented,
            delay,
        ),
        waiting.recovers(
            RecoveryEvent::BackoffElapsed,
            still_unimplemented,
            later,
            dialing,
            at_last_unimplemented,
            dial,
        ),
    ensures
        delay is Sleep,
        dial == RecoveryAction::Dial(DialTarget::Execute(state.request)),
        dialing.recovery->Dialing_origin is Execute,
{
}

proof fn links_without_transport_say_nothing(links: Seq<ErrorLink>)
    ensures
        chain_cause(links) != Some(RetryCause::OperationNotFound),
        chain_cause(links) != Some(RetryCause::CleanEof),
        (forall|i: int| 0 <= i < links.len() ==> !(links[i] is H2) && !(links[i] is Io))
            ==> chain_cause(links) is None,
    decreases links.len(),
{
    if links.len() > 0 {
        links_without_transport_say_nothing(links.drop_first());
        if forall|i: int| 0 <= i < links.len() ==> !(links[i] is H2) && !(links[i] is Io) {
            assert forall|i: int| 0 <= i < links.drop_first().len() implies !(
            links.drop_first()[i] is H2) && !(links.drop_first()[i] is Io) by {
                assert(links.drop_first()[i] == links[i + 1]);
            }
        }
    }
}

/// Only `NOT_FOUND` can say that an operation is lost, and no status says that a stream
/// ended cleanly.
pub proof fn transport_never_loses_an_operation(status: Status, origin: StreamOrigin)
    ensures
        status_cause(status.code, status.sources@, origin) == Some(RetryCause::OperationNotFound)
            <==> status.code is NotFound && origin is WaitExecution,
        status_cause(status.code, status.sources@, origin) != Some(RetryCause::CleanEof),
{
    links_without_transport_say_nothing(status.sources@);
}

/// What a link of the transport lets a caller do: a broken or closed connection, a
/// graceful shutdown, a refused stream and a refused connection may be recovered, each
/// under its own cause; nothing else may.
pub proof fn transport_links_name_their_cause(link: ErrorLink)
    ensures
        link matches ErrorLink::H2 { is_io, reason } ==> {
            &&& is_io ==> link_cause(link) == Some(RetryCause::Io)
            &&& !is_io && reason == Some(0u32) ==> link_cause(link) == Some(
                RetryCause::GracefulGoAway,
            )
            &&& !is_io && reason == Some(7u32) ==> link_cause(link) == Some(
                RetryCause::RefusedStream,
            )
            &&& !is_io && reason != Some(0u32) && reason != Some(7u32) ==> link_cause(
                link,
            ) is None
        },
        link matches ErrorLink::Io(kind) ==> {
            &&& kind is ConnectionRefused <==> link_cause(link) == Some(
                RetryCause::ConnectionRefused,
            )
            &&& (kind is ConnectionReset || kind is ConnectionAborted || kind is BrokenPipe
                || kind is UnexpectedEof || kind is NotConnected || kind is TimedOut)
                <==> link_cause(link) == Some(RetryCause::Io)
            &&& kind is InvalidData || kind is Other ==> link_cause(link) is None
        },
        link is Status || link is Other ==> link_cause(link) is None,
{
}

/// The first link of the transport decides how a status is classified, wherever it
/// stands in the chain and whatever the code; without one there is nothing to recover.
/// Only `NOT_FOUND` is read by its code.
pub proof fn the_first_transport_link_decides(status: Status, origin: StreamOrigin, first: int)
    ensures
        status.code is NotFound && origin is WaitExecution ==> status_cause(
            status.code,
            status.sources@,
            origin,
        ) == Some(RetryCause::OperationNotFound),
        status.code is NotFound && origin is Execute ==> status_cause(
            status.code,
            status.sources@,
            origin,
        ) is None,
        !(status.code is NotFound) && 0 <= first < status.sources@.len() && (
        status.sources@[first] is H2 || status.sources@[first] is Io) && (forall|i: int|
            0 <= i < first ==> !(status.sources@[i] is H2) && !(status.sources@[i] is Io))
            ==> status_cause(status.code, status.sources@, origin) == link_cause(
            status.sources@[first],
        ),
        !(status.code is NotFound) && (forall|i: int|
            0 <= i < status.sources@.len() ==> !(status.sources@[i] is H2) && !(
            status.sources@[i] is Io)) ==> status_cause(
            status.code,
            status.sources@,
            origin,
        ) is None,
{
    links_without_transport_say_nothing(status.sources@);
    if 0 <= first < status.sources@.len() && (status.sources@[first] is H2
        || status.sources@[first] is Io) && (forall|i: int|
        0 <= i < first ==> !(status.sources@[i] is H2) && !(status.sources@[i] is Io)) {
        chain_cause_skips(status.sources@, first);
    }
}

proof fn chain_cause_skips(links: Seq<ErrorLink>, first: int)
    requires
        0 <= first < links.len(),
        links[first] is H2 || links[first] is Io,
        forall|i: int| 0 <= i < first ==> !(links[i] is H2) && !(links[i] is Io),
    ensures
        chain_cause(links) == link_cause(links[first]),
    decreases first,
{
    if first > 0 {
        let rest = links.drop_first();
        assert(!(links[0] is H2) && !(links[0] is Io));
        assert forall|i: int| 0 <= i < first - 1 implies !(rest[i] is H2) && !(rest[i] is Io) by {
            assert(rest[i] == links[i + 1]);
        }
        assert(rest[first - 1] == links[first]);
        chain_cause_skips(rest, first - 1);
    }
}

/// A failed dial is judged by the status at its root, and without a status there is
/// nothing to try again.
pub proof fn dials_are_judged_by_their_status(error: Error, origin: StreamOrigin)
    ensures
        error.root matches RootCause::Status(status) ==> dial_cause(error, origin)
            == status_cause(status.code, status.sources@, origin),
        !(error.root is Status) ==> dial_cause(error, origin) is None,
{
}

/// The windows start at a quarter of a second and double with every attempt until they
/// reach ten seconds.
pub proof fn windows_double_up_to_ten_seconds(attempt: nat)
    ensures
        backoff_window(0) == 250_000_000,
        backoff_window(1) == 250_000_000,
        attempt >= 1 && 2 * backoff_window(attempt) <= 10_000_000_000 ==> backoff_window(
            attempt + 1,
        ) == 2 * backoff_window(attempt),
        attempt >= 1 && 2 * backoff_window(attempt) > 10_000_000_000 ==> backoff_window(
            attempt + 1,
        ) == 10_000_000_000,
{
    lemma2_to64();
    if attempt >= 1 {
        lemma_pow2_unfold(attempt);
        let base = 250_000_000nat;
        let doublings = (attempt - 1) as nat;
        assert(base * (2 * pow2(doublings)) == 2 * (base * pow2(doublings))) by (nonlinear_arith);
        lemma_pow2_pos(doublings);
        assert(base * pow2(doublings) >= base) by (nonlinear_arith)
            requires
                pow2(doublings) >= 1,
        ;
    }
}

/// Within the budget that runs since the first severance, a severance is tried again;
/// once the budget is spent, it is not. Either way it is answered, by a delay or a
/// failure.
pub proof fn severances_are_tried_while_the_budget_lasts(
    state: ReattachState,
    cause: RetryCause,
    trigger: Error,
    budget: Duration,
    now: Duration,
    next: ReattachState,
    next_unimplemented: bool,
    action: RecoveryAction,
)
    requires
        state.budget == Some(budget),
        budget@ > 0,
        state.recovers(
            RecoveryEvent::Severed { cause, trigger },
            false,
            now,
            next,
            next_unimplemented,
            action,
        ),
    ensures
        !next_unimplemented,
        state.first_break is None ==> action is Sleep && next.last_progress == now
            && next.first_break == Some(trigger),
        state.first_break is Some && now@ < state.last_progress@ + budget@ ==> action is Sleep
            && next.last_progress == state.last_progress && next.first_break == state.first_break,
        state.first_break is Some && now@ >= state.last_progress@ + budget@ ==> action is Fail
            && next.recovery is Idle && next.first_break is None,
        action is Sleep ==> next.recovery == (Recovery::BackingOff { cause, budget }),
        action is Sleep ==> next.attempt == (state.attempt + 1) as u32,
        action is Fail ==> next.attempt == state.attempt && next.stats == state.stats,
{
}

/// The same of a failed dial that may be tried again; one that may not be fails the
/// recovery at once.
pub proof fn failed_dials_are_tried_while_the_budget_lasts(
    state: ReattachState,
    error: Error,
    unimplemented: bool,
    now: Duration,
    next: ReattachState,
    next_unimplemented: bool,
    action: RecoveryAction,
)
    requires
        state.recovery is Dialing,
        state.recovery->Dialing_budget@ > 0,
        state.recovers(
            RecoveryEvent::DialFailed(error),
            unimplemented,
            now,
            next,
            next_unimplemented,
            action,
        ),
    ensures
        dial_cause(error, state.recovery->Dialing_origin) is None ==> action is Fail,
        dial_cause(error, state.recovery->Dialing_origin) is Some && now@
            < state.last_progress@ + state.recovery->Dialing_budget@ ==> action is Sleep,
        now@ >= state.last_progress@ + state.recovery->Dialing_budget@ ==> action is Fail,
        action is Sleep ==> {
            &&& next.recovery is BackingOff
            &&& next.recovery->BackingOff_budget == state.recovery->Dialing_budget
            &&& next.attempt == (state.attempt + 1) as u32
            &&& next.first_break == state.first_break
            &&& next.last_progress == state.last_progress
            &&& next_unimplemented == unimplemented
        },
        action is Fail ==> {
            &&& next.recovery is Idle
            &&& next.first_break is None
            &&& next.attempt == state.attempt
            &&& next.stats == state.stats
            &&& next.op_name == state.op_name || next.op_name is None
        },
        next_unimplemented <==> unimplemented || (error.root is Status
            && error.root->Status_0.code is Unimplemented
            && state.recovery->Dialing_origin is WaitExecution
            && dial_cause(error, state.recovery->Dialing_origin) is None),
{
}

/// Every delay lies in the window of its attempt, and so below ten seconds.
pub proof fn delays_stay_within_their_window(step: RecoveryStep)
    requires
        step.is_step(),
        step.state.has_room(),
        step.action is Sleep,
    ensures
        step.next.attempt == step.state.attempt + 1,
        step.action->Sleep_0@ < backoff_window(step.next.attempt as nat),
        step.action->Sleep_0@ < 10_000_000_000,
        step.state.attempt == 0 ==> step.action->Sleep_0@ < 250_000_000,
{
    windows_double_up_to_ten_seconds(0);
    backoff_window_grows_and_caps(step.next.attempt as nat, step.next.attempt as nat);
}

/// No step touches the request, the budget, or whether the operation was reported done.
/// Only a new stream changes the origin, and a name is at most forgotten.
pub proof fn recoveries_leave_the_request_alone(step: RecoveryStep)
    requires
        step.is_step(),
    ensures
        step.next.request == step.state.request,
        step.next.budget == step.state.budget,
        step.next.seen_done == step.state.seen_done,
        !(step.event is DialSucceeded) ==> step.next.origin == step.state.origin,
        step.next.op_name == step.state.op_name || step.next.op_name is None,
        step.event is BackoffElapsed || step.event is DialSucceeded ==> step.next.op_name
            == step.state.op_name && step.next.attempt == step.state.attempt
            && step.next.last_progress == step.state.last_progress && step.next.first_break
            == step.state.first_break,
{
}

/// Every delay counts one severance of its kind, every new stream counts one
/// reattachment of its kind, and nothing else is counted.
pub proof fn every_attempt_is_counted_once(step: RecoveryStep)
    requires
        step.is_step(),
        step.state.has_room(),
    ensures
        ({
            let before = step.state.stats;
            let after = step.next.stats;
            let cause = match step.event {
                RecoveryEvent::Severed { cause, .. } => Some(cause),
                RecoveryEvent::DialFailed(error) => dial_cause(
                    error,
                    step.state.recovery->Dialing_origin,
                ),
                _ => None,
            };
            let slept = step.action is Sleep;
            let goaway = cause == Some(RetryCause::GracefulGoAway) || cause == Some(
                RetryCause::RefusedStream,
            );
            let resumed = step.event is DialSucceeded;
            let waited = step.state.recovery->Dialing_origin is WaitExecution;
            &&& after.severed_io == before.severed_io + (if slept && cause == Some(
                RetryCause::Io,
            ) {
                1int
            } else {
                0
            })
            &&& after.severed_goaway == before.severed_goaway + (if slept && goaway {
                1int
            } else {
                0
            })
            &&& after.dial_failures == before.dial_failures + (if slept && cause == Some(
                RetryCause::ConnectionRefused,
            ) {
                1int
            } else {
                0
            })
            &&& after.clean_eof == before.clean_eof + (if slept && cause == Some(
                RetryCause::CleanEof,
            ) {
                1int
            } else {
                0
            })
            &&& after.operation_not_found == before.operation_not_found + (if slept && cause
                == Some(RetryCause::OperationNotFound) {
                1int
            } else {
                0
            })
            &&& after.wait_execution_reattaches == before.wait_execution_reattaches + (if resumed
                && waited {
                1int
            } else {
                0
            })
            &&& after.re_executes == before.re_executes + (if resumed && !waited {
                1int
            } else {
                0
            })
        }),
{
}

/// A dial that gave a stream resumes reading from it, as a stream of the call that was
/// dialed; and no other event resumes.
pub proof fn successful_dials_resume(step: RecoveryStep)
    requires
        step.is_step(),
    ensures
        step.event is DialSucceeded <==> step.action is Resume,
        step.action is Resume ==> step.next.origin == step.state.recovery->Dialing_origin
            && step.next.recovery is Idle,
        step.event is BackoffElapsed <==> step.action is Dial,
        step.action is Dial ==> {
            &&& step.next.recovery is Dialing
            &&& step.next.recovery->Dialing_budget == step.state.recovery->BackingOff_budget
            &&& step.next.recovery->Dialing_origin is WaitExecution <==> step.action->Dial_0
                is WaitExecution
        },
        step.action is Sleep ==> step.event is Severed || step.event is DialFailed,
{
}

/// The call answered that the operation no longer exists.
pub open spec fn reports_a_lost_operation(step: RecoveryStep) -> bool {
    match step.event {
        RecoveryEvent::Severed { cause, .. } => cause is OperationNotFound,
        RecoveryEvent::DialFailed(error) => {
            &&& step.state.recovery->Dialing_origin is WaitExecution
            &&& error.root is Status
            &&& error.root->Status_0.code is NotFound
        },
        _ => false,
    }
}

/// What one step does to the operation that is known.
spec fn follows_one_operation(step: RecoveryStep) -> bool {
    &&& step.next.request == step.state.request
    &&& !reports_a_lost_operation(step) ==> step.next.op_name == step.state.op_name
    &&& reports_a_lost_operation(step) && step.action is Sleep ==> step.next.op_name is None
    &&& step.next.op_name == step.state.op_name || step.next.op_name is None
    &&& step.action matches RecoveryAction::Dial(DialTarget::Execute(request)) ==> request
        == step.state.request && step.state.op_name is None
    &&& step.action matches RecoveryAction::Dial(DialTarget::WaitExecution(name))
        ==> step.state.op_name == Some(name)
}

proof fn steps_follow_one_operation(step: RecoveryStep)
    requires
        step.is_step(),
    ensures
        follows_one_operation(step),
{
    if let RecoveryEvent::DialFailed(error) = step.event {
        if let RootCause::Status(status) = error.root {
            links_without_transport_say_nothing(status.sources@);
        }
    }
}

/// One of the first `n` steps was told that the operation no longer exists.
pub open spec fn operation_was_lost(steps: Seq<RecoveryStep>, n: nat) -> bool
    decreases n,
{
    n > 0 && (operation_was_lost(steps, (n - 1) as nat) || reports_a_lost_operation(steps[n - 1]))
}

/// A whole recovery dials nothing but the operation that was known when the stream
/// broke, and falls back to an `Execute` of the same request only where no operation
/// was known or the backend said that it lost it.
pub proof fn recoveries_go_on_with_one_operation(steps: Seq<RecoveryStep>, i: int)
    requires
        is_recovery(steps),
        0 <= i < steps.len(),
    ensures
        steps[i].state.request == steps[0].state.request,
        !operation_was_lost(steps, i as nat) ==> steps[i].state.op_name == steps[0].state.op_name,
        operation_was_lost(steps, i as nat) ==> steps[i].state.op_name is None,
        steps[i].state.op_name == steps[0].state.op_name || steps[i].state.op_name is None,
        steps[i].action matches RecoveryAction::Dial(DialTarget::Execute(request)) ==> request
            == steps[0].state.request && (steps[0].state.op_name is None || operation_was_lost(
            steps,
            i as nat,
        )),
        steps[i].action matches RecoveryAction::Dial(DialTarget::WaitExecution(name)) ==> Some(
            name,
        ) == steps[0].state.op_name && !operation_was_lost(steps, i as nat),
    decreases i,
{
    assert(steps[i].is_step());
    steps_follow_one_operation(steps[i]);
    if i > 0 {
        assert(steps[i - 1].is_step());
        assert(steps[i].state == steps[i - 1].next);
        recoveries_go_on_with_one_operation(steps, i - 1);
        steps_follow_one_operation(steps[i - 1]);
        successful_dials_resume(steps[i - 1]);
        idle_ends_a_recovery(steps[i - 1], steps[i]);
    }
}

proof fn idle_ends_a_recovery(before: RecoveryStep, step: RecoveryStep)
    requires
        before.is_step(),
        step.is_step(),
        step.state == before.next,
        !(step.event is Severed),
    ensures
        !(step.state.recovery is Idle),
        !(before.action is Fail),
{
}

/// A message is progress: the next severance has the whole budget and the first window
/// again, and is blamed on what severed it then.
pub proof fn messages_renew_the_budget(
    state: ReattachState,
    name: String,
    done: bool,
    heard_at: Duration,
    cause: RetryCause,
    trigger: Error,
    budget: Duration,
    now: Duration,
    next: ReattachState,
    next_unimplemented: bool,
    action: RecoveryAction,
)
    requires
        state.budget == Some(budget),
        budget@ > 0,
        state.heard(name, done, heard_at).recovers(
            RecoveryEvent::Severed { cause, trigger },
            false,
            now,
            next,
            next_unimplemented,
            action,
        ),
    ensures
        action is Sleep,
        action->Sleep_0@ < 250_000_000,
        next.attempt == 1,
        next.first_break == Some(trigger),
        next.last_progress == now,
{
    windows_double_up_to_ten_seconds(0);
}

/// A message refreshes the operation's name where it carries one, records whether the
/// operation is done, and leaves everything else of the stream alone.
pub proof fn messages_refresh_the_name(
    state: ReattachState,
    name: String,
    done: bool,
    now: Duration,
)
    ensures
        ({
            let heard = state.heard(name, done, now);
            &&& name@.len() > 0 ==> heard.op_name == Some(name)
            &&& name@.len() == 0 ==> heard.op_name == state.op_name
            &&& heard.seen_done == done
            &&& heard.last_progress == now
            &&& heard.attempt == 0
            &&& heard.first_break is None
            &&& heard.request == state.request
            &&& heard.origin == state.origin
            &&& heard.budget == state.budget
            &&& heard.stats == state.stats
            &&& heard.recovery == state.recovery
        }),
{
}

/// Whatever ends a recovery keeps what the first severance said, names the action and
/// the operation, and where a dial ended it, says what that dial said and which call it
/// was.
pub proof fn failures_name_the_operation(step: RecoveryStep, first: Error)
    requires
        step.is_step(),
        step.event is DialFailed,
        step.state.first_break == Some(first),
        step.action is Fail,
    ensures
        ({
            let failure = step.action->Fail_0;
            let named = "action `"@ + (match step.state.request.action_digest {
                Some(digest) => digest.hash@,
                None => Seq::empty(),
            }) + "`, operation `"@ + (match step.next.op_name {
                Some(name) => name@,
                None => "<unknown>"@,
            }) + "`"@;
            let called = match step.state.recovery->Dialing_origin {
                StreamOrigin::WaitExecution => "WaitExecution"@,
                StreamOrigin::Execute => "Execute"@,
            };
            let error = step.event->DialFailed_0;
            &&& failure.root == first.root
            &&& failure.layers().len() >= first.layers().len()
            &&& failure.layers().take(first.layers().len() as int) == first.layers()
            &&& dial_cause(error, step.state.recovery->Dialing_origin) is None
                ==> failure.layers().len() == first.layers().len() + 2
                && failure.layers()[first.layers().len() as int] == error.text_spec()
                && failure.layers().last() == "Reattaching RE execute stream via "@ + called
                + " for "@ + named
            &&& dial_cause(error, step.state.recovery->Dialing_origin) is Some
                ==> failure.layers().len() == first.layers().len() + 1
                && failure.layers().last() == "Exceeding RE execute reattach budget of "@
                + span_text(step.state.recovery->Dialing_budget@) + " after "@ + decimal(
                step.state.attempt as nat,
            ) + " attempt(s) and "@ + span_text(
                if step.now@ >= step.state.last_progress@ {
                    (step.now@ - step.state.last_progress@) as nat
                } else {
                    0
                },
            ) + " for "@ + named
        }),
{
    let failure = step.action->Fail_0;
    assert(failure.layers().take(first.layers().len() as int) =~= first.layers());
}

/// Reattach is disabled where no budget is configured and where the backend lacks
/// `WaitExecution`, and only there; elsewhere the configured budget holds.
pub proof fn reattach_is_disabled_for_two_reasons(
    state: ReattachState,
    unimplemented: bool,
    budget: Option<Duration>,
    disabled: bool,
)
    requires
        call_ensures(ReattachState::effective_budget, (&state, unimplemented), budget),
        call_ensures(ReattachState::is_disabled, (&state, unimplemented), disabled),
    ensures
        disabled <==> unimplemented || state.budget is None,
        disabled <==> budget is None,
        !disabled ==> budget == state.budget,
{
}

/// Only `UNIMPLEMENTED` in answer to `WaitExecution` shows that the backend lacks it.
pub proof fn only_wait_execution_can_be_lacking(
    status: Status,
    origin: StreamOrigin,
    lacking: bool,
)
    requires
        call_ensures(is_wait_execution_unimplemented, (&status, origin), lacking),
    ensures
        lacking <==> origin is WaitExecution && status.code is Unimplemented,
{
}

} // verus!
