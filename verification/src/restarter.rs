//! Whether a command that just failed is run again, and against which daemon.
use vstd::prelude::*;
use vstd::string::*;

use crate::observer::{may_report, report_of, ErrorObserver, ErrorReport};

verus! {

/// What identifies a daemon beyond its id.
#[derive(Debug)]
pub struct ExtraDaemonConstraints {
    pub materializer_state_identity: Option<String>,
}

/// What identifies a daemon.
#[derive(Debug)]
pub struct DaemonConstraints {
    pub daemon_id: String,
    pub extra: Option<ExtraDaemonConstraints>,
}

/// A connection to a daemon.
#[derive(Debug)]
pub struct BuckdClientConnector {
    pub constraints: DaemonConstraints,
}

impl BuckdClientConnector {
    /// What identifies the daemon behind the connection.
    pub fn daemon_constraints(&self) -> (constraints: &DaemonConstraints)
        ensures
            *constraints == self.constraints,
    {
        &self.constraints
    }
}

/// The watchers of a command, and how often they were told that it is run again.
#[derive(Debug)]
pub struct EventsCtx<O> {
    pub error_observers: Vec<O>,
    pub restarts_handled: u64,
}

/// A count that goes up by one, and starts over after the last.
pub open spec fn counted_up(count: u64) -> u64 {
    if count == u64::MAX {
        0
    } else {
        (count + 1) as u64
    }
}

impl<O> EventsCtx<O> {
    /// Tells the watchers that the command is run again.
    pub fn handle_should_restart(&mut self)
        ensures
            final(self).restarts_handled == counted_up(old(self).restarts_handled),
            final(self).error_observers == old(self).error_observers,
    {
        if self.restarts_handled == u64::MAX {
            self.restarts_handled = 0;
        } else {
            self.restarts_handled = self.restarts_handled + 1;
        }
    }
}

/// What the next connection asks of the daemon.
#[derive(Debug)]
pub struct DaemonConstraintsRequest<R> {
    pub reject_daemon: Option<String>,
    pub reject_materializer_state: Option<String>,
    /// What else the daemon must meet, whatever it is.
    pub others: R,
}

/// Watches how commands end and decides whether the one that was just run is run
/// again.
///
/// There are two reasons, and they are treated differently. A daemon or a
/// materializer state that is rejected makes the next connection start a fresh
/// daemon, with all of its state lost. A retry against the same daemon leaves the
/// next connection free to use the daemon that just ran, which has dealt with the
/// cause of the failure itself; only the command runs again.
#[derive(Debug)]
pub struct Restarter {
    pub reject_daemon: Option<String>,
    pub reject_materializer_state: Option<String>,
    pub enable_restarter: bool,
    /// Whether the command observed last armed a retry against the same daemon.
    pub retry_same_daemon: bool,
    /// Retries against the same daemon that were armed so far.
    pub command_retries_used: u32,
}

impl Default for Restarter {
    fn default() -> (restarter: Self)
        ensures
            restarter.is_fresh(),
    {
        Restarter {
            reject_daemon: None,
            reject_materializer_state: None,
            enable_restarter: false,
            retry_same_daemon: false,
            command_retries_used: 0,
        }
    }
}

/// What the materializer state of a daemon is known by, if it is.
pub open spec fn materializer_identity(constraints: DaemonConstraints) -> Option<String> {
    match constraints.extra {
        Some(extra) => extra.materializer_state_identity,
        None => None,
    }
}

/// A report arms a retry where the daemon opted in, the failure is recoverable and
/// the budget is not spent.
pub open spec fn arms_retry(report: ErrorReport, used: u32) -> bool {
    &&& report.command_retry_on_recoverable_failure_is_enabled
    &&& report.recoverable_by_command_retry
    &&& used < report.max_command_retries_on_recoverable_failure
}

impl Restarter {
    /// A retry against the same daemon is armed.
    pub open spec fn retry_is_armed(self) -> bool {
        self.retry_same_daemon
    }

    /// How many retries against the same daemon were armed so far.
    pub open spec fn retries_used(self) -> u32 {
        self.command_retries_used
    }

    /// Nothing was observed yet.
    pub open spec fn is_fresh(self) -> bool {
        &&& self.reject_daemon is None
        &&& self.reject_materializer_state is None
        &&& !self.enable_restarter
        &&& !self.retry_is_armed()
        &&& self.retries_used() == 0
    }

    /// A fresh daemon is warranted.
    pub open spec fn rejects(self) -> bool {
        self.enable_restarter && (self.reject_daemon is Some || self.reject_materializer_state
            is Some)
    }

    /// The command is run again, where `rejected` says whether a daemon was rejected
    /// before in the chain of invocations.
    pub open spec fn runs_again(self, rejected: bool) -> bool {
        (self.rejects() && !rejected) || self.retry_is_armed()
    }

    /// `next` is `self` after the part of a report that is about retries.
    pub open spec fn retries(self, report: ErrorReport, next: Restarter) -> bool {
        &&& next.reject_daemon == self.reject_daemon
        &&& next.reject_materializer_state == self.reject_materializer_state
        &&& next.enable_restarter == self.enable_restarter
        &&& next.retry_is_armed() == arms_retry(report, self.retries_used())
        &&& next.retries_used() == self.retries_used() + if arms_retry(
            report,
            self.retries_used(),
        ) {
            1int
        } else {
            0
        }
    }

    /// `next` is `self` after a whole report about a command that ran against the
    /// daemon that `constraints` identify.
    pub open spec fn heeds(
        self,
        report: ErrorReport,
        constraints: DaemonConstraints,
        next: Restarter,
    ) -> bool {
        &&& next.reject_daemon == if report.daemon_in_memory_state_is_corrupted {
            Some(constraints.daemon_id)
        } else {
            self.reject_daemon
        }
        &&& next.reject_materializer_state == if report.daemon_materializer_state_is_corrupted {
            materializer_identity(constraints)
        } else {
            self.reject_materializer_state
        }
        &&& next.enable_restarter == (self.enable_restarter || report.restarter_is_enabled)
        &&& next.retry_is_armed() == arms_retry(report, self.retries_used())
        &&& next.retries_used() == self.retries_used() + if arms_retry(
            report,
            self.retries_used(),
        ) {
            1int
        } else {
            0
        }
    }

    /// The state in which a command begins to be observed: what an earlier one armed is
    /// forgotten.
    pub open spec fn unarmed(self) -> Restarter {
        Restarter { retry_same_daemon: false, ..self }
    }

    /// How often the watchers were told once a command was observed: once more where it
    /// is run again.
    pub open spec fn told(self, count: u64) -> u64 {
        if self.rejects() || self.retry_is_armed() {
            counted_up(count)
        } else {
            count
        }
    }

    /// What the next connection asks of the daemon, in place of what `req` asks.
    pub open spec fn constrained<R>(self, req: DaemonConstraintsRequest<R>) -> DaemonConstraintsRequest<
        R,
    > {
        DaemonConstraintsRequest {
            reject_daemon: self.reject_daemon,
            reject_materializer_state: self.reject_materializer_state,
            ..req
        }
    }

    /// Nothing was observed yet.
    pub fn new() -> (restarter: Self)
        ensures
            restarter.is_fresh(),
    {
        Restarter::default()
    }

    /// Takes one observer's report of a command into account.
    pub fn heed(&mut self, report: ErrorReport, client: &BuckdClientConnector)
        ensures
            old(self).heeds(report, client.constraints, *final(self)),
    {
        if report.daemon_in_memory_state_is_corrupted {
            self.reject_daemon = Some(client.daemon_constraints().daemon_id.clone());
        }
        if report.daemon_materializer_state_is_corrupted {
            self.reject_materializer_state = match &client.daemon_constraints().extra {
                Some(extra) => match &extra.materializer_state_identity {
                    Some(identity) => Some(identity.clone()),
                    None => None,
                },
                None => None,
            };
        }
        if report.restarter_is_enabled {
            self.enable_restarter = true;
        }
        self.heed_command_retry(report);
    }

    /// Observes a command that was run over `client`: forgets what an earlier command
    /// armed, takes in what every observer reports, one after the other, and tells the
    /// watchers once if the command is run again.
    pub fn observe<O: ErrorObserver>(
        &mut self,
        client: &BuckdClientConnector,
        events_ctx: &mut EventsCtx<O>,
    )
        ensures
            final(events_ctx).error_observers == old(events_ctx).error_observers,
            final(events_ctx).restarts_handled == final(self).told(
                old(events_ctx).restarts_handled,
            ),
            exists|reports: Seq<ErrorReport>, states: Seq<Restarter>|
                {
                    &&& #[trigger] heed_in_turn(states, reports, client.constraints)
                    &&& reports.len() == old(events_ctx).error_observers@.len()
                    &&& states[0] == old(self).unarmed()
                    &&& states.last() == *final(self)
                    &&& forall|i: int|
                        0 <= i < reports.len() ==> may_report(
                            &old(events_ctx).error_observers@[i],
                            #[trigger] reports[i],
                        )
                },
    {
        self.retry_same_daemon = false;
        let ghost mut reports: Seq<ErrorReport> = Seq::empty();
        let ghost mut states: Seq<Restarter> = seq![*self];
        let ghost first = *self;
        let mut i: usize = 0;
        while i < events_ctx.error_observers.len()
            invariant
                i <= events_ctx.error_observers@.len(),
                reports.len() == i,
                states.len() == i + 1,
                states[0] == first,
                states.last() == *self,
                forall|j: int|
                    0 <= j < i ==> may_report(
                        &events_ctx.error_observers@[j],
                        #[trigger] reports[j],
                    ) && states[j].heeds(reports[j], client.constraints, states[j + 1]),
            decreases events_ctx.error_observers@.len() - i,
        {
            let report = report_of(&events_ctx.error_observers[i]);
            let ghost before = states;
            self.heed(report, client);
            proof {
                reports = reports.push(report);
                states = states.push(*self);
                assert forall|j: int| 0 <= j < i + 1 implies may_report(
                    &events_ctx.error_observers@[j],
                    #[trigger] reports[j],
                ) && states[j].heeds(reports[j], client.constraints, states[j + 1]) by {
                    if j < i {
                        assert(before[j].heeds(reports[j], client.constraints, before[j + 1]));
                    }
                }
            }
            i = i + 1;
        }
        if self.should_restart() {
            events_ctx.handle_should_restart();
        }
        assert(heed_in_turn(states, reports, client.constraints));
    }

    /// Decides whether a command warrants a retry against the same daemon, by what
    /// its observer reports.
    pub fn observe_command_retry<O: ErrorObserver>(&mut self, obs: &O)
        ensures
            exists|report: ErrorReport| #[trigger]
                may_report(obs, report) && old(self).retries(report, *final(self)),
    {
        let report = report_of(obs);
        self.heed_command_retry(report);
    }

    /// Decides whether a command warrants a retry against the same daemon.
    ///
    /// The budget is charged as soon as a retry is armed, so that a budget of one
    /// permits exactly one retry over the whole chain of invocations, however often
    /// commands are observed.
    pub fn heed_command_retry(&mut self, report: ErrorReport)
        ensures
            old(self).retries(report, *final(self)),
    {
        self.retry_same_daemon = report.command_retry_on_recoverable_failure_is_enabled
            && report.recoverable_by_command_retry && self.command_retries_used
            < report.max_command_retries_on_recoverable_failure;
        if self.retry_same_daemon {
            self.command_retries_used = self.command_retries_used + 1;
        }
    }

    /// Whether a fresh daemon is warranted. The caller gives this reason one restart
    /// per chain of invocations.
    pub fn daemon_rejecting_restart_wanted(&self) -> (wanted: bool)
        ensures
            wanted == self.rejects(),
    {
        self.enable_restarter && (self.reject_daemon.is_some()
            || self.reject_materializer_state.is_some())
    }

    /// Whether the command observed last armed a retry against the same daemon.
    pub fn command_retry_wanted(&self) -> (wanted: bool)
        ensures
            wanted == self.retry_is_armed(),
    {
        self.retry_same_daemon
    }

    /// Whether the command is run again.
    pub fn should_restart(&self) -> (restart: bool)
        ensures
            restart == (self.rejects() || self.retry_is_armed()),
    {
        self.daemon_rejecting_restart_wanted() || self.command_retry_wanted()
    }

    /// Whether the caller runs the command again: for a fresh daemon only where none was
    /// rejected before in the chain of invocations, and for an armed retry in any case.
    pub fn next_run(&self, rejected: bool) -> (again: bool)
        ensures
            again == self.runs_again(rejected),
    {
        (self.daemon_rejecting_restart_wanted() && !rejected) || self.command_retry_wanted()
    }

    /// Fills in what the next connection asks of the daemon, and leaves the rest of the
    /// request alone. A retry against the same daemon asks nothing: only the other
    /// reasons set what is filled in here.
    pub fn apply_to_constraints<R>(&self, req: &mut DaemonConstraintsRequest<R>)
        ensures
            *final(req) == self.constrained(*old(req)),
    {
        req.reject_daemon = match &self.reject_daemon {
            Some(id) => Some(id.clone()),
            None => None,
        };
        req.reject_materializer_state = match &self.reject_materializer_state {
            Some(identity) => Some(identity.clone()),
            None => None,
        };
    }
}

/// Each state is the one before it after a whole report, about a command that ran
/// against the daemon that `constraints` identify.
pub open spec fn heed_in_turn(
    states: Seq<Restarter>,
    reports: Seq<ErrorReport>,
    constraints: DaemonConstraints,
) -> bool {
    &&& states.len() == reports.len() + 1
    &&& forall|i: int|
        0 <= i < reports.len() ==> states[i].heeds(
            #[trigger] reports[i],
            constraints,
            states[i + 1],
        )
}

/// Some run of a chain before `n` called for a fresh daemon.
pub open spec fn was_rejected(states: Seq<Restarter>, n: int) -> bool {
    exists|i: int| 0 <= i < n && (#[trigger] states[i]).rejects()
}

/// A chain of invocations gets one restart for the sake of a fresh daemon: the first
/// run that calls for one is followed by another, and any later run is only for a
/// retry that it armed.
pub proof fn one_daemon_is_rejected_per_chain(states: Seq<Restarter>, n: int)
    requires
        0 <= n < states.len(),
    ensures
        states[n].rejects() && !was_rejected(states, n) ==> states[n].runs_again(
            was_rejected(states, n),
        ),
        was_rejected(states, n) ==> states[n].runs_again(was_rejected(states, n))
            == states[n].retry_is_armed(),
        states[n].rejects() ==> forall|m: int|
            n < m < states.len() ==> (#[trigger] states[m]).runs_again(was_rejected(states, m))
                == states[m].retry_is_armed(),
{
    assert forall|m: int| n < m && states[n].rejects() implies #[trigger] was_rejected(
        states,
        m,
    ) by {}
}

/// A chain of observations that starts with nothing observed.
pub open spec fn is_observed(states: Seq<Restarter>, reports: Seq<ErrorReport>) -> bool {
    &&& states.len() == reports.len() + 1
    &&& states[0].is_fresh()
    &&& forall|i: int|
        0 <= i < reports.len() ==> states[i].retries(#[trigger] reports[i], states[i + 1])
}

/// How many observations of a chain armed a retry.
pub open spec fn retries_armed(states: Seq<Restarter>) -> nat
    decreases states.len(),
{
    if states.len() == 0 {
        0
    } else {
        retries_armed(states.drop_last()) + if states.last().retry_is_armed() {
            1nat
        } else {
            0
        }
    }
}

/// However many commands are observed, no more retries against the same daemon are
/// armed than the budget allows.
pub proof fn retries_stay_within_the_budget(
    states: Seq<Restarter>,
    reports: Seq<ErrorReport>,
    budget: u32,
)
    requires
        is_observed(states, reports),
        forall|i: int|
            0 <= i < reports.len() ==> (
            #[trigger] reports[i]).max_command_retries_on_recoverable_failure <= budget,
    ensures
        retries_armed(states) == states.last().retries_used(),
        retries_armed(states) <= budget,
    decreases reports.len(),
{
    let n = reports.len();
    if n == 0 {
        assert(states.drop_last() =~= Seq::empty());
        assert(retries_armed(states.drop_last()) == 0);
    } else {
        let earlier = states.drop_last();
        let heard = reports.drop_last();
        assert forall|i: int| 0 <= i < heard.len() implies earlier[i].retries(
            #[trigger] heard[i],
            earlier[i + 1],
        ) by {
            assert(states[i].retries(reports[i], states[i + 1]));
        }
        assert forall|i: int| 0 <= i < heard.len() implies (
        #[trigger] heard[i]).max_command_retries_on_recoverable_failure <= budget by {
            assert(reports[i].max_command_retries_on_recoverable_failure <= budget);
        }
        retries_stay_within_the_budget(earlier, heard, budget);
        assert(states[n - 1].retries(reports[n - 1], states[n as int]));
        assert(reports[n - 1].max_command_retries_on_recoverable_failure <= budget);
    }
}

/// A report asks for a retry, whatever is left of the budget.
pub open spec fn asks_for_retry(report: ErrorReport) -> bool {
    report.command_retry_on_recoverable_failure_is_enabled && report.recoverable_by_command_retry
}

/// How many reports ask for a retry.
pub open spec fn retries_asked(reports: Seq<ErrorReport>) -> nat
    decreases reports.len(),
{
    if reports.len() == 0 {
        0
    } else {
        retries_asked(reports.drop_last()) + if asks_for_retry(reports.last()) {
            1nat
        } else {
            0
        }
    }
}

/// Under one budget, as many retries are armed as are asked for, up to the budget. A
/// budget of one permits exactly one retry, however often commands are observed.
pub proof fn retries_use_up_the_budget(
    states: Seq<Restarter>,
    reports: Seq<ErrorReport>,
    budget: u32,
)
    requires
        is_observed(states, reports),
        forall|i: int|
            0 <= i < reports.len() ==> (
            #[trigger] reports[i]).max_command_retries_on_recoverable_failure == budget,
    ensures
        retries_armed(states) == if retries_asked(reports) < budget {
            retries_asked(reports)
        } else {
            budget as nat
        },
    decreases reports.len(),
{
    let n = reports.len();
    if n == 0 {
        assert(states.drop_last() =~= Seq::empty());
        assert(retries_armed(states.drop_last()) == 0);
    } else {
        let earlier = states.drop_last();
        let heard = reports.drop_last();
        assert forall|i: int| 0 <= i < heard.len() implies earlier[i].retries(
            #[trigger] heard[i],
            earlier[i + 1],
        ) by {
            assert(states[i].retries(reports[i], states[i + 1]));
        }
        assert forall|i: int| 0 <= i < heard.len() implies (
        #[trigger] heard[i]).max_command_retries_on_recoverable_failure == budget by {
            assert(reports[i].max_command_retries_on_recoverable_failure == budget);
        }
        retries_use_up_the_budget(earlier, heard, budget);
        retries_stay_within_the_budget(earlier, heard, budget);
        assert(states[n - 1].retries(reports[n - 1], states[n as int]));
        assert(reports[n - 1].max_command_retries_on_recoverable_failure == budget);
    }
}

/// A retry is armed by the command observed last or not at all: what an earlier
/// command armed does not persist.
pub proof fn only_the_last_command_arms_a_retry(
    before: Restarter,
    report: ErrorReport,
    after: Restarter,
)
    requires
        before.retries(report, after),
        !report.recoverable_by_command_retry,
    ensures
        !after.retry_is_armed(),
        after.rejects() == before.rejects(),
{
}

/// A retry against the same daemon asks nothing of the next connection that was not
/// asked before.
pub proof fn retries_keep_the_daemon(before: Restarter, report: ErrorReport, after: Restarter)
    requires
        before.retries(report, after),
    ensures
        after.reject_daemon == before.reject_daemon,
        after.reject_materializer_state == before.reject_materializer_state,
{
}

/// A report of a corrupted daemon rejects the daemon that the command ran against, one
/// of a corrupted materializer state rejects that daemon's state; without such a report
/// what was rejected before stays. A retry is armed exactly where the failure is
/// recoverable, the daemon opted in and retries are left, and then counts as used.
pub proof fn reports_are_heeded(
    before: Restarter,
    report: ErrorReport,
    constraints: DaemonConstraints,
    after: Restarter,
)
    requires
        before.heeds(report, constraints, after),
    ensures
        report.daemon_in_memory_state_is_corrupted ==> after.reject_daemon == Some(
            constraints.daemon_id,
        ),
        !report.daemon_in_memory_state_is_corrupted ==> after.reject_daemon
            == before.reject_daemon,
        report.daemon_materializer_state_is_corrupted && constraints.extra is Some
            ==> after.reject_materializer_state == constraints.extra->0.materializer_state_identity,
        report.daemon_materializer_state_is_corrupted && constraints.extra is None
            ==> after.reject_materializer_state is None,
        !report.daemon_materializer_state_is_corrupted ==> after.reject_materializer_state
            == before.reject_materializer_state,
        after.enable_restarter <==> before.enable_restarter || report.restarter_is_enabled,
        after.retry_same_daemon <==> report.recoverable_by_command_retry
            && report.command_retry_on_recoverable_failure_is_enabled
            && before.command_retries_used < report.max_command_retries_on_recoverable_failure,
        after.retry_same_daemon ==> after.command_retries_used == before.command_retries_used + 1,
        !after.retry_same_daemon ==> after.command_retries_used == before.command_retries_used,
{
}

/// The same of the part of a report that is about retries, which rejects nothing.
pub proof fn recoverable_failures_arm_a_retry(
    before: Restarter,
    report: ErrorReport,
    after: Restarter,
)
    requires
        before.retries(report, after),
    ensures
        after.retry_same_daemon <==> report.recoverable_by_command_retry
            && report.command_retry_on_recoverable_failure_is_enabled
            && before.command_retries_used < report.max_command_retries_on_recoverable_failure,
        after.retry_same_daemon ==> after.command_retries_used == before.command_retries_used + 1,
        !after.retry_same_daemon ==> after.command_retries_used == before.command_retries_used,
        after.reject_daemon == before.reject_daemon,
        after.reject_materializer_state == before.reject_materializer_state,
        after.enable_restarter == before.enable_restarter,
{
}

/// A command is run again for an armed retry, or for a rejected daemon or state where
/// the restarter is on and no daemon was rejected before; else it is not.
pub proof fn commands_are_run_again(
    restarter: Restarter,
    rejected: bool,
    again: bool,
    restart: bool,
    fresh: bool,
    retry: bool,
)
    requires
        call_ensures(Restarter::next_run, (&restarter, rejected), again),
        call_ensures(Restarter::should_restart, (&restarter,), restart),
        call_ensures(Restarter::daemon_rejecting_restart_wanted, (&restarter,), fresh),
        call_ensures(Restarter::command_retry_wanted, (&restarter,), retry),
    ensures
        fresh <==> restarter.enable_restarter && (restarter.reject_daemon is Some
            || restarter.reject_materializer_state is Some),
        retry <==> restarter.retry_same_daemon,
        restart <==> fresh || retry,
        again <==> retry || (fresh && !rejected),
{
}

/// A restarter that has observed nothing wants nothing.
pub proof fn fresh_restarters_want_nothing(restarter: Restarter)
    requires
        call_ensures(Restarter::new, (), restarter),
    ensures
        restarter.reject_daemon is None,
        restarter.reject_materializer_state is None,
        !restarter.enable_restarter,
        !restarter.retry_same_daemon,
        restarter.command_retries_used == 0,
        !restarter.runs_again(false),
{
}

/// However many observers a command has, what one of them rejects stays rejected and
/// what one of them switches on stays on; the retry is up to the last of them, and
/// without any there is none.
pub proof fn every_observer_is_heard(
    states: Seq<Restarter>,
    reports: Seq<ErrorReport>,
    constraints: DaemonConstraints,
    before: Restarter,
)
    requires
        heed_in_turn(states, reports, constraints),
        states[0] == before.unarmed(),
    ensures
        states.last().reject_daemon == (if exists|i: int|
            0 <= i < reports.len() && (
            #[trigger] reports[i]).daemon_in_memory_state_is_corrupted {
            Some(constraints.daemon_id)
        } else {
            before.reject_daemon
        }),
        states.last().reject_materializer_state == (if exists|i: int|
            0 <= i < reports.len() && (
            #[trigger] reports[i]).daemon_materializer_state_is_corrupted {
            match constraints.extra {
                Some(extra) => extra.materializer_state_identity,
                None => None,
            }
        } else {
            before.reject_materializer_state
        }),
        states.last().enable_restarter <==> before.enable_restarter || exists|i: int|
            0 <= i < reports.len() && (#[trigger] reports[i]).restarter_is_enabled,
        reports.len() == 0 ==> !states.last().retry_same_daemon
            && states.last().command_retries_used == before.command_retries_used,
        reports.len() > 0 && !reports.last().recoverable_by_command_retry
            ==> !states.last().retry_same_daemon,
        states.last().command_retries_used >= before.command_retries_used,
    decreases reports.len(),
{
    let n = reports.len();
    if n > 0 {
        let earlier = states.drop_last();
        let heard = reports.drop_last();
        assert forall|i: int| 0 <= i < heard.len() implies earlier[i].heeds(
            #[trigger] heard[i],
            constraints,
            earlier[i + 1],
        ) by {
            assert(states[i].heeds(reports[i], constraints, states[i + 1]));
        }
        every_observer_is_heard(earlier, heard, constraints, before);
        assert(states[n - 1].heeds(reports[n - 1], constraints, states[n as int]));
        assert(earlier.last() == states[n - 1]);
        if exists|i: int|
            0 <= i < reports.len() && (
            #[trigger] reports[i]).daemon_in_memory_state_is_corrupted {
            let i = choose|i: int|
                0 <= i < reports.len() && (
                #[trigger] reports[i]).daemon_in_memory_state_is_corrupted;
            if i < n - 1 {
                assert(heard[i].daemon_in_memory_state_is_corrupted);
            }
        }
        if exists|i: int|
            0 <= i < reports.len() && (
            #[trigger] reports[i]).daemon_materializer_state_is_corrupted {
            let i = choose|i: int|
                0 <= i < reports.len() && (
                #[trigger] reports[i]).daemon_materializer_state_is_corrupted;
            if i < n - 1 {
                assert(heard[i].daemon_materializer_state_is_corrupted);
            }
        }
        if exists|i: int| 0 <= i < reports.len() && (#[trigger] reports[i]).restarter_is_enabled {
            let i = choose|i: int|
                0 <= i < reports.len() && (#[trigger] reports[i]).restarter_is_enabled;
            if i < n - 1 {
                assert(heard[i].restarter_is_enabled);
            }
        }
        if exists|i: int| 0 <= i < heard.len() && (
        #[trigger] heard[i]).daemon_in_memory_state_is_corrupted {
            let i = choose|i: int|
                0 <= i < heard.len() && (#[trigger] heard[i]).daemon_in_memory_state_is_corrupted;
            assert(reports[i].daemon_in_memory_state_is_corrupted);
        }
        if exists|i: int| 0 <= i < heard.len() && (
        #[trigger] heard[i]).daemon_materializer_state_is_corrupted {
            let i = choose|i: int|
                0 <= i < heard.len() && (
                #[trigger] heard[i]).daemon_materializer_state_is_corrupted;
            assert(reports[i].daemon_materializer_state_is_corrupted);
        }
        if exists|i: int| 0 <= i < heard.len() && (#[trigger] heard[i]).restarter_is_enabled {
            let i = choose|i: int|
                0 <= i < heard.len() && (#[trigger] heard[i]).restarter_is_enabled;
            assert(reports[i].restarter_is_enabled);
        }
    }
}

/// A count shows that it went up: it is one more, or starts over after the last.
pub proof fn counts_go_up_by_one(count: u64)
    ensures
        count < u64::MAX ==> counted_up(count) == count + 1,
        count == u64::MAX ==> counted_up(count) == 0,
{
}

/// The watchers are told once of a command that is run again, and of no other.
pub proof fn watchers_are_told_of_restarts(restarter: Restarter, count: u64)
    requires
        count < u64::MAX,
    ensures
        restarter.told(count) == count + 1 <==> restarter.retry_same_daemon || (
        restarter.enable_restarter && (restarter.reject_daemon is Some
            || restarter.reject_materializer_state is Some)),
        restarter.told(count) == count || restarter.told(count) == count + 1,
{
}

/// The next connection rejects what the restarter rejects, and asks for everything else
/// that it asked for before.
pub proof fn connections_reject_what_was_rejected<R>(
    restarter: Restarter,
    req: DaemonConstraintsRequest<R>,
)
    ensures
        restarter.constrained(req).reject_daemon == restarter.reject_daemon,
        restarter.constrained(req).reject_materializer_state
            == restarter.reject_materializer_state,
        restarter.constrained(req).others == req.others,
{
}

} // verus!
