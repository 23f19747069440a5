//! What watchers of a command's errors report once the command is over.
use vstd::prelude::*;

verus! {

/// A watcher of a certain set of errors that keeps a record of them for later use.
///
/// An observer that leaves a question to the trait answers it with no, or with zero.
pub trait ErrorObserver {
    /// Whether this observer thinks that the daemon needs killing to work again.
    fn daemon_in_memory_state_is_corrupted(&self) -> (answer: bool)
        default_ensures
            !answer,
    {
        false
    }

    /// Whether this observer thinks that the daemon needs to dump its materializer
    /// state to work again.
    fn daemon_materializer_state_is_corrupted(&self) -> (answer: bool)
        default_ensures
            !answer,
    {
        false
    }

    /// Whether restarting is switched on.
    fn restarter_is_enabled(&self) -> (answer: bool)
        default_ensures
            !answer,
    {
        false
    }

    /// Whether the daemon reported this command's failure as recoverable by running
    /// the same command against the same daemon again.
    fn recoverable_by_command_retry(&self) -> (answer: bool)
        default_ensures
            !answer,
    {
        false
    }

    /// Whether the daemon opted into automatic retries of a command whose failure it
    /// reports as recoverable.
    fn command_retry_on_recoverable_failure_is_enabled(&self) -> (answer: bool)
        default_ensures
            !answer,
    {
        false
    }

    /// How many automatic retries the client may make for one invocation before a
    /// recoverable failure is final.
    fn max_command_retries_on_recoverable_failure(&self) -> (answer: u32)
        default_ensures
            answer == 0,
    {
        0
    }
}

/// What an observer reports of one command.
#[derive(Clone, Copy, Debug, PartialEq, Eq, Structural)]
pub struct ErrorReport {
    pub daemon_in_memory_state_is_corrupted: bool,
    pub daemon_materializer_state_is_corrupted: bool,
    pub restarter_is_enabled: bool,
    pub recoverable_by_command_retry: bool,
    pub command_retry_on_recoverable_failure_is_enabled: bool,
    pub max_command_retries_on_recoverable_failure: u32,
}

/// `report` holds answers that `observer` may give.
pub open spec fn may_report<O: ErrorObserver>(observer: &O, report: ErrorReport) -> bool {
    &&& call_ensures(
        O::daemon_in_memory_state_is_corrupted,
        (observer,),
        report.daemon_in_memory_state_is_corrupted,
    )
    &&& call_ensures(
        O::daemon_materializer_state_is_corrupted,
        (observer,),
        report.daemon_materializer_state_is_corrupted,
    )
    &&& call_ensures(O::restarter_is_enabled, (observer,), report.restarter_is_enabled)
    &&& call_ensures(
        O::recoverable_by_command_retry,
        (observer,),
        report.recoverable_by_command_retry,
    )
    &&& call_ensures(
        O::command_retry_on_recoverable_failure_is_enabled,
        (observer,),
        report.command_retry_on_recoverable_failure_is_enabled,
    )
    &&& call_ensures(
        O::max_command_retries_on_recoverable_failure,
        (observer,),
        report.max_command_retries_on_recoverable_failure,
    )
}

/// Asks an observer for everything that it reports.
pub fn report_of<O: ErrorObserver>(observer: &O) -> (report: ErrorReport)
    ensures
        may_report(observer, report),
{
    ErrorReport {
        daemon_in_memory_state_is_corrupted: observer.daemon_in_memory_state_is_corrupted(),
        daemon_materializer_state_is_corrupted: observer.daemon_materializer_state_is_corrupted(),
        restarter_is_enabled: observer.restarter_is_enabled(),
        recoverable_by_command_retry: observer.recoverable_by_command_retry(),
        command_retry_on_recoverable_failure_is_enabled:
            observer.command_retry_on_recoverable_failure_is_enabled(),
        max_command_retries_on_recoverable_failure:
            observer.max_command_retries_on_recoverable_failure(),
    }
}

/// A report holds each of an observer's answers under the question it answers.
pub proof fn reports_hold_the_answers<O: ErrorObserver>(observer: O, report: ErrorReport)
    requires
        call_ensures(report_of::<O>, (&observer,), report),
    ensures
        call_ensures(
            O::daemon_in_memory_state_is_corrupted,
            (&observer,),
            report.daemon_in_memory_state_is_corrupted,
        ),
        call_ensures(
            O::daemon_materializer_state_is_corrupted,
            (&observer,),
            report.daemon_materializer_state_is_corrupted,
        ),
        call_ensures(O::restarter_is_enabled, (&observer,), report.restarter_is_enabled),
        call_ensures(
            O::recoverable_by_command_retry,
            (&observer,),
            report.recoverable_by_command_retry,
        ),
        call_ensures(
            O::command_retry_on_recoverable_failure_is_enabled,
            (&observer,),
            report.command_retry_on_recoverable_failure_is_enabled,
        ),
        call_ensures(
            O::max_command_retries_on_recoverable_failure,
            (&observer,),
            report.max_command_retries_on_recoverable_failure,
        ),
{
}

} // verus!
