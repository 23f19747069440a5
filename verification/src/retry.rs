//! Trying a call again after a passing connection error.
//!
//! A call gets up to five attempts. The delays between them start at 100 ms and
//! double, up to 5 s, plus less than 50 ms of jitter so that calls in flight do not
//! retry in step.
use vstd::prelude::*;
use vstd::arithmetic::power2::*;

use crate::chance::random_below;
use crate::duration::{saturated_nanos, Duration, NANOS_PER_MILLI, NANOS_PER_SEC};
use crate::error::{Code, Error, ErrorLink, IoErrorKind, RootCause};

verus! {

/// How often a call is made before its error is final.
pub const MAX_ATTEMPTS: u32 = 5;

/// The delay after the first failure, in milliseconds.
pub const INITIAL_DELAY_MILLIS: u64 = 100;

/// The longest delay without jitter, in seconds.
pub const MAX_DELAY_SECS: u64 = 5;

/// Jitter stays below this many milliseconds.
pub const JITTER_MILLIS: u64 = 50;

/// The link tells of a passing failure of the connection.
pub open spec fn is_passing(link: ErrorLink) -> bool {
    match link {
        ErrorLink::Status(code) => {
            code == Code::Unavailable || code == Code::ResourceExhausted || code == Code::Aborted
        },
        ErrorLink::Io(kind) => {
            ||| kind == IoErrorKind::BrokenPipe
            ||| kind == IoErrorKind::ConnectionReset
            ||| kind == IoErrorKind::ConnectionAborted
            ||| kind == IoErrorKind::UnexpectedEof
            ||| kind == IoErrorKind::TimedOut
        },
        _ => false,
    }
}

/// Some link of the error's chain tells of a passing failure.
pub open spec fn has_passing_link(error: Error) -> bool {
    exists|i: int| 0 <= i < error.root.links().len() && #[trigger] is_passing(error.root.links()[i])
}

fn link_is_passing(link: &ErrorLink) -> (passing: bool)
    ensures
        passing == is_passing(*link),
{
    match link {
        ErrorLink::Status(code) => match code {
            Code::Unavailable | Code::ResourceExhausted | Code::Aborted => true,
            _ => false,
        },
        ErrorLink::Io(kind) => match kind {
            IoErrorKind::BrokenPipe
            | IoErrorKind::ConnectionReset
            | IoErrorKind::ConnectionAborted
            | IoErrorKind::UnexpectedEof
            | IoErrorKind::TimedOut => true,
            _ => false,
        },
        _ => false,
    }
}

fn any_passing(links: &Vec<ErrorLink>) -> (any: bool)
    ensures
        any == exists|i: int| 0 <= i < links@.len() && #[trigger] is_passing(links@[i]),
{
    let mut i: usize = 0;
    while i < links.len()
        invariant
            i <= links@.len(),
            forall|j: int| 0 <= j < i ==> !is_passing(#[trigger] links@[j]),
        decreases links@.len() - i,
    {
        if link_is_passing(&links[i]) {
            return true;
        }
        i = i + 1;
    }
    false
}

/// Reports whether an error is a passing failure of the connection, worth another
/// attempt. Looks at the whole chain for a status that the retry policy of the
/// protocol treats as passing and for an I/O error that tells of a disrupted
/// transport. A transport error as such does not count: where it is passing, an I/O
/// error stands below it.
pub fn is_retryable(error: &Error) -> (retryable: bool)
    ensures
        retryable == has_passing_link(*error),
{
    match &error.root {
        RootCause::Status(status) => {
            let ghost links = error.root.links();
            assert(links[0] == ErrorLink::Status(status.code));
            assert(forall|i: int| 0 <= i < status.sources@.len() ==> links[i + 1] == status.sources@[i]);
            if link_is_passing(&ErrorLink::Status(status.code)) {
                assert(is_passing(links[0]));
                return true;
            }
            let below = any_passing(&status.sources);
            proof {
                if below {
                    let i = choose|i: int|
                        0 <= i < status.sources@.len() && #[trigger] is_passing(status.sources@[i]);
                    assert(is_passing(links[i + 1]));
                } else {
                    assert forall|i: int| 0 <= i < links.len() implies !is_passing(
                        #[trigger] links[i],
                    ) by {
                        if i > 0 {
                            assert(links[i] == status.sources@[i - 1]);
                        }
                    }
                }
            }
            below
        },
        RootCause::Chain { links, .. } => any_passing(links),
        _ => false,
    }
}

/// What to do about a failed attempt.
#[derive(Debug)]
pub enum RetryAction {
    /// Wait this long and make the call again from scratch.
    Sleep(Duration),
    /// The error is final.
    Fail(Error),
}

/// A call that is being attempted.
#[derive(Debug)]
pub struct Retry {
    /// The number of the current attempt, from one.
    pub attempt: u32,
    /// The delay before the next attempt, without jitter.
    pub delay: Duration,
}

/// The delay after `delay`, in nanoseconds.
pub open spec fn next_delay(delay: nat) -> nat {
    let doubled = saturated_nanos(delay * 2);
    if doubled <= MAX_DELAY_SECS * NANOS_PER_SEC {
        doubled
    } else {
        (MAX_DELAY_SECS * NANOS_PER_SEC) as nat
    }
}

/// `slept` nanoseconds are `delay` and some whole milliseconds of jitter.
pub open spec fn is_jittered(slept: nat, delay: nat) -> bool {
    exists|jitter: u64|
        jitter < JITTER_MILLIS && slept == saturated_nanos(
            (delay + #[trigger] (jitter * NANOS_PER_MILLI)) as nat,
        )
}

impl Retry {
    /// The first attempt.
    pub fn new() -> (retry: Self)
        ensures
            retry.attempt == 1,
            retry.delay@ == INITIAL_DELAY_MILLIS * NANOS_PER_MILLI,
    {
        Retry { attempt: 1, delay: Duration::from_millis(INITIAL_DELAY_MILLIS) }
    }

    /// From `self`, the failure `error` leads to `next` and `action`.
    pub open spec fn fails(self, error: Error, next: Retry, action: RetryAction) -> bool {
        if has_passing_link(error) && self.attempt < MAX_ATTEMPTS {
            &&& next.attempt == self.attempt + 1
            &&& next.delay@ == next_delay(self.delay@)
            &&& action matches RetryAction::Sleep(slept)
            &&& is_jittered(slept@, self.delay@)
        } else {
            &&& next == self
            &&& action == RetryAction::Fail(error)
        }
    }

    /// Decides whether a failed attempt is followed by another.
    pub fn after_failure(&mut self, error: Error) -> (action: RetryAction)
        ensures
            old(self).fails(error, *final(self), action),
    {
        if !is_retryable(&error) || self.attempt >= MAX_ATTEMPTS {
            return RetryAction::Fail(error);
        }
        let jitter: u64 = random_below(JITTER_MILLIS);
        let slept = self.delay.saturating_add(Duration::from_millis(jitter));
        assert(is_jittered(slept@, self.delay@)) by {
            assert(slept@ == saturated_nanos((self.delay@ + jitter * NANOS_PER_MILLI) as nat));
        }
        self.attempt = self.attempt + 1;
        self.delay = self.delay.saturating_mul(2).min(Duration::from_secs(MAX_DELAY_SECS));
        RetryAction::Sleep(slept)
    }
}

/// The attempts of one call: each state is where the failure before it led.
pub open spec fn is_retried(states: Seq<Retry>, errors: Seq<Error>, actions: Seq<RetryAction>) -> bool {
    &&& states.len() == errors.len() + 1
    &&& actions.len() == errors.len()
    &&& states[0].attempt == 1
    &&& states[0].delay@ == INITIAL_DELAY_MILLIS * NANOS_PER_MILLI
    &&& forall|i: int|
        0 <= i < errors.len() ==> #[trigger] actions[i] is Sleep && states[i].fails(
            errors[i],
            states[i + 1],
            actions[i],
        )
}

/// A call is made at most five times, and the delays without jitter are 100 ms,
/// 200 ms, 400 ms and 800 ms.
pub proof fn a_call_is_attempted_at_most_five_times(
    states: Seq<Retry>,
    errors: Seq<Error>,
    actions: Seq<RetryAction>,
)
    requires
        is_retried(states, errors, actions),
    ensures
        errors.len() < MAX_ATTEMPTS,
        states.last().attempt == errors.len() + 1,
        states.last().delay@ == INITIAL_DELAY_MILLIS * NANOS_PER_MILLI * pow2(errors.len()),
        forall|i: int|
            0 <= i < errors.len() ==> is_jittered(
                (#[trigger] actions[i])->Sleep_0@,
                states[i].delay@,
            ),
    decreases errors.len(),
{
    lemma2_to64();
    if errors.len() > 0 {
        let n = errors.len() - 1;
        assert forall|i: int| 0 <= i < n implies #[trigger] actions.take(n)[i] is Sleep
            && states.take(n + 1)[i].fails(
            errors.take(n)[i],
            states.take(n + 1)[i + 1],
            actions.take(n)[i],
        ) by {
            assert(actions[i] is Sleep);
        }
        a_call_is_attempted_at_most_five_times(states.take(n + 1), errors.take(n), actions.take(n));
        assert(actions[n] is Sleep);
        assert(states.take(n + 1).last() == states[n]);
        lemma_pow2_unfold((n + 1) as nat);
        assert(pow2(n as nat) <= 8) by {
            if n < 3 {
                lemma_pow2_strictly_increases(n as nat, 3);
            }
        }
        assert forall|i: int| 0 <= i < errors.len() implies is_jittered(
            (#[trigger] actions[i])->Sleep_0@,
            states[i].delay@,
        ) by {
            assert(states[i].fails(errors[i], states[i + 1], actions[i]));
        }
    }
}

/// A failure is worth another attempt exactly where its chain holds a status that asks
/// for one or an I/O error of a disrupted transport, at the root or below it.
pub proof fn passing_failures_are_tried_again(error: Error, retryable: bool)
    requires
        call_ensures(is_retryable, (&error,), retryable),
    ensures
        ({
            let passes = |link: ErrorLink|
                match link {
                    ErrorLink::Status(code) => code is Unavailable || code is ResourceExhausted
                        || code is Aborted,
                    ErrorLink::Io(kind) => kind is BrokenPipe || kind is ConnectionReset
                        || kind is ConnectionAborted || kind is UnexpectedEof || kind is TimedOut,
                    _ => false,
                };
            match error.root {
                RootCause::Status(status) => retryable <==> passes(ErrorLink::Status(status.code))
                    || exists|i: int|
                    0 <= i < status.sources@.len() && passes(#[trigger] status.sources@[i]),
                RootCause::Chain { links, .. } => retryable <==> exists|i: int|
                    0 <= i < links@.len() && passes(#[trigger] links@[i]),
                _ => !retryable,
            }
        }),
{
    match error.root {
        RootCause::Status(status) => {
            let links = error.root.links();
            assert(links[0] == ErrorLink::Status(status.code));
            assert forall|i: int| 0 <= i < status.sources@.len() implies links[i + 1]
                == #[trigger] status.sources@[i] by {}
            if retryable {
                let i = choose|i: int| 0 <= i < links.len() && #[trigger] is_passing(links[i]);
                if i > 0 {
                    assert(status.sources@[i - 1] == links[i]);
                }
            } else {
                assert(!is_passing(links[0]));
                assert forall|i: int| 0 <= i < status.sources@.len() implies !is_passing(
                    #[trigger] status.sources@[i],
                ) by {
                    assert(!is_passing(links[i + 1]));
                }
            }
        },
        RootCause::Chain { links, .. } => {
            assert(error.root.links() == links@);
            if retryable {
                let i = choose|i: int|
                    0 <= i < error.root.links().len() && #[trigger] is_passing(
                        error.root.links()[i],
                    );
                assert(is_passing(links@[i]));
            } else {
                assert forall|i: int| 0 <= i < links@.len() implies !is_passing(
                    #[trigger] links@[i],
                ) by {
                    assert(!is_passing(error.root.links()[i]));
                }
            }
        },
        _ => {
            if retryable {
                let i = choose|i: int|
                    0 <= i < error.root.links().len() && #[trigger] is_passing(
                        error.root.links()[i],
                    );
                assert(error.root.links()[i] is Other);
            }
        },
    }
}

/// A passing failure of one of the first four attempts is followed by another attempt,
/// after the delay and less than 50 ms more; the delay then doubles, up to five seconds.
/// Any other failure is final and handed on as it is.
pub proof fn attempts_follow_passing_failures(
    retry: Retry,
    error: Error,
    next: Retry,
    action: RetryAction,
)
    requires
        retry.fails(error, next, action),
        retry.delay@ <= 5_000_000_000,
    ensures
        action is Sleep <==> has_passing_link(error) && retry.attempt < 5,
        action matches RetryAction::Sleep(slept) ==> {
            &&& retry.delay@ <= slept@ < retry.delay@ + 50_000_000
            &&& next.attempt == retry.attempt + 1
            &&& 2 * retry.delay@ <= 5_000_000_000 ==> next.delay@ == 2 * retry.delay@
            &&& 2 * retry.delay@ > 5_000_000_000 ==> next.delay@ == 5_000_000_000
        },
        action is Fail ==> action == RetryAction::Fail(error) && next == retry,
{
    if action is Sleep {
        let jitter = choose|jitter: u64|
            jitter < JITTER_MILLIS && action->Sleep_0@ == saturated_nanos(
                (retry.delay@ + #[trigger] (jitter * NANOS_PER_MILLI)) as nat,
            );
        assert(jitter * NANOS_PER_MILLI < 50_000_000);
    }
}

/// The first attempt has the number one, and the delay after it is 100 ms.
pub proof fn attempts_start_at_one(retry: Retry)
    requires
        call_ensures(Retry::new, (), retry),
    ensures
        retry.attempt == 1,
        retry.delay@ == 100_000_000,
{
}

} // verus!
