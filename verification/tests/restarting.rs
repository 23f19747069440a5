//! When a command that failed is run again.
use buck2_re_recovery::observer::{ErrorObserver, ErrorReport};
use buck2_re_recovery::restarter::{
    BuckdClientConnector, DaemonConstraints, DaemonConstraintsRequest, EventsCtx,
    ExtraDaemonConstraints, Restarter,
};

#[derive(Default)]
struct FakeErrorObserver {
    recoverable_by_command_retry: bool,
    command_retry_enabled: bool,
    max_command_retries: u32,
}

impl ErrorObserver for FakeErrorObserver {
    fn recoverable_by_command_retry(&self) -> bool {
        self.recoverable_by_command_retry
    }

    fn command_retry_on_recoverable_failure_is_enabled(&self) -> bool {
        self.command_retry_enabled
    }

    fn max_command_retries_on_recoverable_failure(&self) -> u32 {
        self.max_command_retries
    }
}

fn recoverable_failure(max_command_retries: u32) -> FakeErrorObserver {
    FakeErrorObserver {
        recoverable_by_command_retry: true,
        command_retry_enabled: true,
        max_command_retries,
    }
}

/// An observer of a daemon that lost its state.
struct CorruptionObserver {
    in_memory: bool,
    materializer: bool,
    enabled: bool,
}

impl ErrorObserver for CorruptionObserver {
    fn daemon_in_memory_state_is_corrupted(&self) -> bool {
        self.in_memory
    }

    fn daemon_materializer_state_is_corrupted(&self) -> bool {
        self.materializer
    }

    fn restarter_is_enabled(&self) -> bool {
        self.enabled
    }
}

/// An observer that overrides nothing.
struct SilentObserver;

impl ErrorObserver for SilentObserver {}

fn connector(identity: Option<&str>) -> BuckdClientConnector {
    BuckdClientConnector {
        constraints: DaemonConstraints {
            daemon_id: "daemon-7".to_owned(),
            extra: identity.map(|identity| ExtraDaemonConstraints {
                materializer_state_identity: Some(identity.to_owned()),
            }),
        },
    }
}

fn request() -> DaemonConstraintsRequest<&'static str> {
    DaemonConstraintsRequest {
        reject_daemon: Some("stale".to_owned()),
        reject_materializer_state: Some("stale".to_owned()),
        others: "version 3",
    }
}

#[test]
fn recoverable_failure_with_budget_arms_a_retry() {
    let mut restarter = Restarter::new();
    restarter.observe_command_retry(&recoverable_failure(1));
    assert!(restarter.should_restart());
}

#[test]
fn recoverable_failure_leaves_reject_fields_unset() {
    let mut restarter = Restarter::new();
    restarter.observe_command_retry(&recoverable_failure(1));

    assert_eq!(restarter.reject_daemon, None);
    assert_eq!(restarter.reject_materializer_state, None);
}

#[test]
fn unrecoverable_failure_does_not_arm_a_retry() {
    let mut restarter = Restarter::new();
    restarter.observe_command_retry(&FakeErrorObserver {
        recoverable_by_command_retry: false,
        command_retry_enabled: true,
        max_command_retries: 1,
    });
    assert!(!restarter.should_restart());
}

#[test]
fn recoverable_failure_with_retry_disabled_does_not_arm_a_retry() {
    let mut restarter = Restarter::new();
    restarter.observe_command_retry(&FakeErrorObserver {
        recoverable_by_command_retry: true,
        command_retry_enabled: false,
        max_command_retries: 1,
    });
    assert!(!restarter.should_restart());
}

#[test]
fn budget_of_zero_never_arms_a_retry() {
    let mut restarter = Restarter::new();
    restarter.observe_command_retry(&recoverable_failure(0));
    assert!(!restarter.should_restart());
}

#[test]
fn exhausting_the_budget_stops_arming_further_retries() {
    let mut restarter = Restarter::new();

    restarter.observe_command_retry(&recoverable_failure(1));
    assert!(
        restarter.should_restart(),
        "first retry stays within budget"
    );

    restarter.observe_command_retry(&recoverable_failure(1));
    assert!(
        !restarter.should_restart(),
        "budget of one is already spent by the first retry"
    );
}

#[test]
fn a_later_success_disarms_an_armed_retry() {
    let mut restarter = Restarter::new();
    restarter.observe_command_retry(&recoverable_failure(2));
    assert!(restarter.should_restart());

    restarter.observe_command_retry(&FakeErrorObserver::default());
    assert!(!restarter.should_restart());
}

#[test]
fn command_retry_reason_composes_with_daemon_rejection() {
    let mut restarter = Restarter::new();
    restarter.reject_daemon = Some("daemon-id".to_owned());
    restarter.enable_restarter = true;

    restarter.observe_command_retry(&FakeErrorObserver::default());
    assert!(restarter.should_restart());
    assert_eq!(restarter.reject_daemon, Some("daemon-id".to_owned()));
}

#[test]
fn an_observer_that_overrides_nothing_reports_nothing() {
    let observer = SilentObserver;
    assert!(!observer.daemon_in_memory_state_is_corrupted());
    assert!(!observer.daemon_materializer_state_is_corrupted());
    assert!(!observer.restarter_is_enabled());
    assert!(!observer.recoverable_by_command_retry());
    assert!(!observer.command_retry_on_recoverable_failure_is_enabled());
    assert_eq!(observer.max_command_retries_on_recoverable_failure(), 0);
}

#[test]
fn a_corrupted_daemon_is_rejected() {
    let mut restarter = Restarter::new();
    let mut events = EventsCtx {
        error_observers: vec![CorruptionObserver {
            in_memory: true,
            materializer: false,
            enabled: true,
        }],
        restarts_handled: 0,
    };
    restarter.observe(&connector(None), &mut events);
    assert!(restarter.daemon_rejecting_restart_wanted());
    assert!(!restarter.command_retry_wanted());
    assert!(restarter.should_restart());
    assert_eq!(events.restarts_handled, 1);
    let mut req = request();
    restarter.apply_to_constraints(&mut req);
    assert_eq!(req.reject_daemon, Some("daemon-7".to_owned()));
    assert_eq!(req.reject_materializer_state, None);
    assert_eq!(req.others, "version 3");
}

#[test]
fn a_chain_gets_one_fresh_daemon() {
    let mut restarter = Restarter::new();
    let mut events = EventsCtx {
        error_observers: vec![CorruptionObserver {
            in_memory: true,
            materializer: false,
            enabled: true,
        }],
        restarts_handled: 0,
    };
    assert!(!restarter.next_run(false));
    restarter.observe(&connector(None), &mut events);
    assert!(restarter.next_run(false));
    restarter.observe(&connector(None), &mut events);
    assert!(restarter.should_restart());
    assert!(!restarter.next_run(true));

    restarter.observe_command_retry(&recoverable_failure(1));
    assert!(restarter.next_run(true));
    assert!(restarter.next_run(false));
}

#[test]
fn a_corrupted_materializer_state_is_rejected_by_its_identity() {
    let mut restarter = Restarter::new();
    let mut events = EventsCtx {
        error_observers: vec![
            CorruptionObserver {
                in_memory: false,
                materializer: true,
                enabled: false,
            },
            CorruptionObserver {
                in_memory: false,
                materializer: false,
                enabled: true,
            },
        ],
        restarts_handled: 0,
    };
    restarter.observe(&connector(Some("state-3")), &mut events);
    assert!(restarter.daemon_rejecting_restart_wanted());
    let mut req = request();
    restarter.apply_to_constraints(&mut req);
    assert_eq!(req.reject_daemon, None);
    assert_eq!(req.reject_materializer_state, Some("state-3".to_owned()));
}

#[test]
fn a_daemon_is_not_rejected_while_restarting_is_switched_off() {
    let mut restarter = Restarter::new();
    let mut events = EventsCtx {
        error_observers: vec![CorruptionObserver {
            in_memory: true,
            materializer: true,
            enabled: false,
        }],
        restarts_handled: 0,
    };
    restarter.observe(&connector(None), &mut events);
    assert!(!restarter.should_restart());
    assert_eq!(events.restarts_handled, 0);
    assert_eq!(restarter.reject_daemon, Some("daemon-7".to_owned()));
    assert_eq!(restarter.reject_materializer_state, None);
}

#[test]
fn the_last_observer_decides_about_the_retry() {
    let mut restarter = Restarter::new();
    let mut events = EventsCtx {
        error_observers: vec![recoverable_failure(3), FakeErrorObserver::default()],
        restarts_handled: 0,
    };
    restarter.observe(&connector(None), &mut events);
    assert!(!restarter.command_retry_wanted());
    assert_eq!(restarter.command_retries_used, 1);

    events.error_observers = vec![FakeErrorObserver::default(), recoverable_failure(3)];
    restarter.observe(&connector(None), &mut events);
    assert!(restarter.command_retry_wanted());
    assert_eq!(restarter.command_retries_used, 2);
    assert_eq!(events.restarts_handled, 1);

    restarter.observe(&connector(None), &mut events);
    assert_eq!(events.restarts_handled, 2);
}

#[test]
fn retries_stop_at_the_budget_however_often_commands_fail() {
    let mut restarter = Restarter::new();
    let mut armed = 0;
    for _ in 0..10 {
        restarter.observe_command_retry(&recoverable_failure(3));
        if restarter.command_retry_wanted() {
            armed += 1;
        }
    }
    assert_eq!(armed, 3);

    let mut patient = Restarter::new();
    for _ in 0..2 {
        patient.observe_command_retry(&recoverable_failure(3));
        assert!(patient.command_retry_wanted());
        patient.observe_command_retry(&FakeErrorObserver::default());
        assert!(!patient.command_retry_wanted());
    }
    assert_eq!(patient.command_retries_used, 2);
}

#[test]
fn a_retry_keeps_the_daemon() {
    let mut restarter = Restarter::new();
    restarter.observe_command_retry(&recoverable_failure(1));
    let mut req = request();
    restarter.apply_to_constraints(&mut req);
    assert_eq!(req.reject_daemon, None);
    assert_eq!(req.reject_materializer_state, None);
}

#[test]
fn a_report_that_corrupts_and_recovers_arms_both_reasons() {
    let mut restarter = Restarter::new();
    restarter.heed(
        ErrorReport {
            daemon_in_memory_state_is_corrupted: true,
            daemon_materializer_state_is_corrupted: true,
            restarter_is_enabled: true,
            recoverable_by_command_retry: true,
            command_retry_on_recoverable_failure_is_enabled: true,
            max_command_retries_on_recoverable_failure: 1,
        },
        &connector(Some("state-9")),
    );
    assert!(restarter.daemon_rejecting_restart_wanted());
    assert!(restarter.command_retry_wanted());
    assert_eq!(
        restarter.reject_materializer_state,
        Some("state-9".to_owned())
    );
}

#[test]
fn a_command_that_nobody_watches_arms_no_retry() {
    let mut restarter = Restarter::new();
    let mut watched = EventsCtx {
        error_observers: vec![recoverable_failure(2)],
        restarts_handled: 0,
    };
    restarter.observe(&connector(None), &mut watched);
    assert!(restarter.command_retry_wanted());

    let mut unwatched: EventsCtx<FakeErrorObserver> = EventsCtx {
        error_observers: Vec::new(),
        restarts_handled: 0,
    };
    restarter.observe(&connector(None), &mut unwatched);
    assert!(!restarter.command_retry_wanted());
    assert_eq!(unwatched.restarts_handled, 0);
    assert_eq!(restarter.command_retries_used, 1);
}
