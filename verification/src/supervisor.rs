//! The life of one supervised service as a state machine.
//!
//! The caller launches, waits, probes and sleeps; after each it reports
//! what happened and is told what to do next:
//!
//! ```text
//! Starting -> Verifying -> Running -> RestartScheduled -> Starting ...
//! ```
//!
//! ending in `Stopped` on request, or in `PermanentlyFailed` where the
//! service fails verification, uses up its restarts, or goes down without
//! ever having connected.

use crate::backoff::{
    backoff_delay, calculate_exponential_backoff_delay, MCP_MAX_RESTART_DELAY_MS,
    MCP_MIN_RESTART_DELAY_MS,
};
use crate::registry::{
    connected_in, is_connected, mark_connected, restart_count, restart_count_in, NameMap,
    QuitReason,
};
use vstd::prelude::*;

verus! {

/// How long a started service must keep its handle to count as connected,
/// in milliseconds.
pub const VERIFICATION_WINDOW_MS: u64 = 500;

/// The pause between two health probes, in milliseconds.
pub const HEALTH_CHECK_INTERVAL_MS: u64 = 5000;

/// How long a health probe may take, in milliseconds.
pub const HEALTH_CHECK_TIMEOUT_MS: u64 = 2000;

/// The restarts a service gets where the caller sets no number.
pub const DEFAULT_MAX_RESTARTS: u32 = 5;

/// The restarts a service gets when it is brought up with all the others.
pub const STARTUP_MAX_RESTARTS: u32 = 3;

/// Where a service stands.
#[derive(Debug, Clone, Copy, PartialEq, Eq, Structural)]
pub enum Phase {
    /// Its process is being launched.
    Starting,
    /// It was launched; the verification window runs.
    Verifying,
    /// It passed verification and is probed at intervals.
    Running,
    /// It went down and waits out its backoff before the next launch.
    RestartScheduled,
    /// It was stopped on request.
    Stopped,
    /// It is down for good.
    PermanentlyFailed,
}

/// What a health probe found.
#[derive(Debug, Clone, Copy, PartialEq, Eq, Structural)]
pub enum ProbeOutcome {
    /// The service answered.
    Healthy,
    /// The service answered with a failure.
    Failed,
    /// The service did not answer in time.
    TimedOut,
    /// The service's handle was no longer registered.
    HandleAbsent,
}

/// What the caller reports.
#[derive(Debug, Clone, Copy, PartialEq, Eq, Structural)]
pub enum Event {
    /// The process runs and its channel stands; the handle is registered.
    Launched,
    /// The process or its channel could not be set up.
    LaunchFailed,
    /// The verification window is over; the handle is still registered,
    /// or is not.
    VerificationElapsed { handle_present: bool },
    /// A health probe ended.
    Probed(ProbeOutcome),
    /// The backoff delay is over.
    BackoffElapsed,
    /// Someone asked for the service to be stopped.
    StopRequested,
}

/// What the caller does next.
#[derive(Debug, Clone, Copy, PartialEq, Eq, Structural)]
pub enum Action {
    /// Launch the process and report `Launched` or `LaunchFailed`.
    Launch,
    /// Wait, then report `VerificationElapsed`.
    AwaitVerification { millis: u64 },
    /// Wait, probe under the timeout, then report `Probed`.
    Probe { after_millis: u64, timeout_millis: u64 },
    /// Wait, then report `BackoffElapsed`.
    Backoff { attempt: u32, millis: u64 },
    /// Nothing more is to be done for this service.
    Halt,
    /// The event does not apply where the service stands; nothing changed.
    Ignore,
}

/// What the caller tells the outside world.
#[derive(Debug, Clone, Copy, PartialEq, Eq, Structural)]
pub enum Notice {
    /// Nothing.
    Silent,
    /// The service connected.
    Connected,
    /// The service used up its restarts.
    MaxRestartsReached { max_restarts: u32 },
    /// The service quit right after it was started.
    QuitImmediately,
    /// The service went down without ever having connected.
    NeverConnected,
}

/// What the caller does with the registered handle.
#[derive(Debug, Clone, Copy, PartialEq, Eq, Structural)]
pub enum HandleCare {
    /// Leave it as it is.
    Keep,
    /// Take it out of the registry and ask it to cancel.
    RemoveAndCancel,
}

/// The state of one service.
#[derive(Debug, Clone, Copy, PartialEq, Eq, Structural)]
pub struct Lifecycle {
    pub phase: Phase,
    /// Restarts since the service last passed verification.
    pub restart_count: u32,
    /// Whether the service ever passed verification.
    pub connected_once: bool,
    /// The restarts the service gets before it is given up.
    pub max_restarts: u32,
}

/// One step of the state machine.
#[derive(Debug, Clone, Copy, PartialEq, Eq, Structural)]
pub struct Transition {
    pub next: Lifecycle,
    pub action: Action,
    pub notice: Notice,
    pub handle: HandleCare,
}

/// The limit that applies: the one given, or the default.
pub open spec fn restart_limit(max_restarts: Option<u32>) -> u32 {
    match max_restarts {
        Some(limit) => limit,
        None => DEFAULT_MAX_RESTARTS,
    }
}

impl Lifecycle {
    /// The service will not run again.
    pub open spec fn is_terminal(self) -> bool {
        self.phase == Phase::Stopped || self.phase == Phase::PermanentlyFailed
    }

    /// What holds of every state that the machine reaches: a service that
    /// runs or waits for a restart has connected before, and one that
    /// waits is within its limit.
    pub open spec fn consistent(self) -> bool {
        &&& self.phase == Phase::Running ==> self.connected_once
        &&& self.phase == Phase::RestartScheduled ==> self.connected_once && 1
            <= self.restart_count <= self.max_restarts
    }

    /// The state with another phase.
    pub open spec fn at(self, phase: Phase) -> Lifecycle {
        Lifecycle { phase, ..self }
    }

    /// The service is down: a start failed or the monitor found it
    /// closed. It is restarted only where it connected before, and only
    /// while the counter, once raised, does not pass the limit.
    pub open spec fn after_closure(self, handle: HandleCare) -> Transition {
        if !self.connected_once {
            Transition {
                next: self.at(Phase::PermanentlyFailed),
                action: Action::Halt,
                notice: Notice::NeverConnected,
                handle,
            }
        } else if self.restart_count >= self.max_restarts {
            Transition {
                next: Lifecycle {
                    phase: Phase::PermanentlyFailed,
                    restart_count: if self.restart_count < u32::MAX {
                        (self.restart_count + 1) as u32
                    } else {
                        self.restart_count
                    },
                    ..self
                },
                action: Action::Halt,
                notice: Notice::MaxRestartsReached { max_restarts: self.max_restarts },
                handle,
            }
        } else {
            let attempt = (self.restart_count + 1) as u32;
            Transition {
                next: Lifecycle {
                    phase: Phase::RestartScheduled,
                    restart_count: attempt,
                    ..self
                },
                action: Action::Backoff { attempt, millis: backoff_delay(attempt) as u64 },
                notice: Notice::Silent,
                handle,
            }
        }
    }

    /// The event changes nothing.
    pub open spec fn ignored(self) -> Transition {
        Transition {
            next: self,
            action: Action::Ignore,
            notice: Notice::Silent,
            handle: HandleCare::Keep,
        }
    }

    /// The step that `event` causes.
    pub open spec fn next(self, event: Event) -> Transition {
        if self.is_terminal() {
            self.ignored()
        } else {
            match event {
                Event::StopRequested => Transition {
                    next: self.at(Phase::Stopped),
                    action: Action::Halt,
                    notice: Notice::Silent,
                    handle: HandleCare::RemoveAndCancel,
                },
                Event::Launched => if self.phase == Phase::Starting {
                    Transition {
                        next: self.at(Phase::Verifying),
                        action: Action::AwaitVerification { millis: VERIFICATION_WINDOW_MS },
                        notice: Notice::Silent,
                        handle: HandleCare::Keep,
                    }
                } else {
                    self.ignored()
                },
                Event::LaunchFailed => if self.phase == Phase::Starting {
                    self.after_closure(HandleCare::Keep)
                } else {
                    self.ignored()
                },
                Event::VerificationElapsed { handle_present } => if self.phase
                    == Phase::Verifying {
                    if handle_present {
                        Transition {
                            next: Lifecycle {
                                phase: Phase::Running,
                                restart_count: 0,
                                connected_once: true,
                                ..self
                            },
                            action: Action::Probe {
                                after_millis: HEALTH_CHECK_INTERVAL_MS,
                                timeout_millis: HEALTH_CHECK_TIMEOUT_MS,
                            },
                            notice: Notice::Connected,
                            handle: HandleCare::Keep,
                        }
                    } else {
                        Transition {
                            next: self.at(Phase::PermanentlyFailed),
                            action: Action::Halt,
                            notice: Notice::QuitImmediately,
                            handle: HandleCare::Keep,
                        }
                    }
                } else {
                    self.ignored()
                },
                Event::Probed(outcome) => if self.phase == Phase::Running {
                    match outcome {
                        ProbeOutcome::Healthy => Transition {
                            next: self,
                            action: Action::Probe {
                                after_millis: HEALTH_CHECK_INTERVAL_MS,
                                timeout_millis: HEALTH_CHECK_TIMEOUT_MS,
                            },
                            notice: Notice::Silent,
                            handle: HandleCare::Keep,
                        },
                        ProbeOutcome::Failed => self.after_closure(HandleCare::RemoveAndCancel),
                        ProbeOutcome::TimedOut => self.after_closure(HandleCare::RemoveAndCancel),
                        ProbeOutcome::HandleAbsent => self.after_closure(HandleCare::Keep),
                    }
                } else {
                    self.ignored()
                },
                Event::BackoffElapsed => if self.phase == Phase::RestartScheduled {
                    Transition {
                        next: self.at(Phase::Starting),
                        action: Action::Launch,
                        notice: Notice::Silent,
                        handle: HandleCare::Keep,
                    }
                } else {
                    self.ignored()
                },
            }
        }
    }

    /// The state after `events`, one after the other.
    pub open spec fn run(self, events: Seq<Event>) -> Lifecycle
        decreases events.len(),
    {
        if events.len() == 0 {
            self
        } else {
            self.run(events.drop_last()).next(events.last()).next
        }
    }

    /// A service that is about to be launched for the first time in this
    /// run of the supervisor.
    pub fn begin(restart_count: u32, connected_once: bool, max_restarts: Option<u32>) -> (life:
        Lifecycle)
        ensures
            life == (Lifecycle {
                phase: Phase::Starting,
                restart_count,
                connected_once,
                max_restarts: restart_limit(max_restarts),
            }),
            life.consistent(),
    {
        let limit: u32 = match max_restarts {
            Some(limit) => limit,
            None => DEFAULT_MAX_RESTARTS,
        };
        Lifecycle { phase: Phase::Starting, restart_count, connected_once, max_restarts: limit }
    }

    fn closure_step(self, handle: HandleCare) -> (step: Transition)
        ensures
            step == self.after_closure(handle),
    {
        if !self.connected_once {
            Transition {
                next: Lifecycle { phase: Phase::PermanentlyFailed, ..self },
                action: Action::Halt,
                notice: Notice::NeverConnected,
                handle,
            }
        } else if self.restart_count >= self.max_restarts {
            let raised: u32 = if self.restart_count < u32::MAX {
                self.restart_count + 1
            } else {
                self.restart_count
            };
            Transition {
                next: Lifecycle {
                    phase: Phase::PermanentlyFailed,
                    restart_count: raised,
                    ..self
                },
                action: Action::Halt,
                notice: Notice::MaxRestartsReached { max_restarts: self.max_restarts },
                handle,
            }
        } else {
            let attempt: u32 = self.restart_count + 1;
            let millis = calculate_exponential_backoff_delay(attempt);
            Transition {
                next: Lifecycle {
                    phase: Phase::RestartScheduled,
                    restart_count: attempt,
                    ..self
                },
                action: Action::Backoff { attempt, millis },
                notice: Notice::Silent,
                handle,
            }
        }
    }

    fn ignore_step(self) -> (step: Transition)
        ensures
            step == self.ignored(),
    {
        Transition {
            next: self,
            action: Action::Ignore,
            notice: Notice::Silent,
            handle: HandleCare::Keep,
        }
    }

    /// Takes the step that `event` causes.
    pub fn step(self, event: Event) -> (step: Transition)
        ensures
            step == self.next(event),
    {
        if self.phase == Phase::Stopped || self.phase == Phase::PermanentlyFailed {
            return self.ignore_step();
        }
        match event {
            Event::StopRequested => Transition {
                next: Lifecycle { phase: Phase::Stopped, ..self },
                action: Action::Halt,
                notice: Notice::Silent,
                handle: HandleCare::RemoveAndCancel,
            },
            Event::Launched => if self.phase == Phase::Starting {
                Transition {
                    next: Lifecycle { phase: Phase::Verifying, ..self },
                    action: Action::AwaitVerification { millis: VERIFICATION_WINDOW_MS },
                    notice: Notice::Silent,
                    handle: HandleCare::Keep,
                }
            } else {
                self.ignore_step()
            },
            Event::LaunchFailed => if self.phase == Phase::Starting {
                self.closure_step(HandleCare::Keep)
            } else {
                self.ignore_step()
            },
            Event::VerificationElapsed { handle_present } => if self.phase == Phase::Verifying {
                if handle_present {
                    Transition {
                        next: Lifecycle {
                            phase: Phase::Running,
                            restart_count: 0,
                            connected_once: true,
                            ..self
                        },
                        action: Action::Probe {
                            after_millis: HEALTH_CHECK_INTERVAL_MS,
                            timeout_millis: HEALTH_CHECK_TIMEOUT_MS,
                        },
                        notice: Notice::Connected,
                        handle: HandleCare::Keep,
                    }
                } else {
                    Transition {
                        next: Lifecycle { phase: Phase::PermanentlyFailed, ..self },
                        action: Action::Halt,
                        notice: Notice::QuitImmediately,
                        handle: HandleCare::Keep,
                    }
                }
            } else {
                self.ignore_step()
            },
            Event::Probed(outcome) => if self.phase == Phase::Running {
                match outcome {
                    ProbeOutcome::Healthy => Transition {
                        next: self,
                        action: Action::Probe {
                            after_millis: HEALTH_CHECK_INTERVAL_MS,
                            timeout_millis: HEALTH_CHECK_TIMEOUT_MS,
                        },
                        notice: Notice::Silent,
                        handle: HandleCare::Keep,
                    },
                    ProbeOutcome::Failed => self.closure_step(HandleCare::RemoveAndCancel),
                    ProbeOutcome::TimedOut => self.closure_step(HandleCare::RemoveAndCancel),
                    ProbeOutcome::HandleAbsent => self.closure_step(HandleCare::Keep),
                }
            } else {
                self.ignore_step()
            },
            Event::BackoffElapsed => if self.phase == Phase::RestartScheduled {
                Transition {
                    next: Lifecycle { phase: Phase::Starting, ..self },
                    action: Action::Launch,
                    notice: Notice::Silent,
                    handle: HandleCare::Keep,
                }
            } else {
                self.ignore_step()
            },
        }
    }
}

/// The name of the event that carries `notice` to the user interface;
/// the other notices stay inside.
pub open spec fn event_name_of(notice: Notice) -> Option<Seq<char>> {
    match notice {
        Notice::Connected => Some("mcp-connected"@),
        Notice::MaxRestartsReached { max_restarts } => Some("mcp_max_restarts_reached"@),
        _ => None,
    }
}

/// What a start attempt fails with, in words, where `notice` tells of a
/// failure.
pub open spec fn failure_text_of(name: Seq<char>, notice: Notice) -> Option<Seq<char>> {
    match notice {
        Notice::QuitImmediately => Some(
            "MCP server "@ + name + " quit immediately after starting"@,
        ),
        Notice::NeverConnected => Some(
            "MCP server "@ + name + " failed before establishing successful connection"@,
        ),
        Notice::MaxRestartsReached { max_restarts } => Some(
            "MCP server "@ + name + " reached maximum restart attempts"@,
        ),
        _ => None,
    }
}

/// The name of the event that carries `notice` to the user interface.
pub fn notice_event_name(notice: Notice) -> (name: Option<&'static str>)
    ensures
        match name {
            Some(text) => event_name_of(notice) == Some(text@),
            None => event_name_of(notice) is None,
        },
{
    match notice {
        Notice::Connected => Some("mcp-connected"),
        Notice::MaxRestartsReached { max_restarts: _ } => Some("mcp_max_restarts_reached"),
        _ => None,
    }
}

/// What a start attempt of the service `name` fails with, in words.
pub fn failure_message(name: &str, notice: Notice) -> (message: Option<String>)
    ensures
        match message {
            Some(text) => failure_text_of(name@, notice) == Some(text@),
            None => failure_text_of(name@, notice) is None,
        },
{
    let ending: &str = match notice {
        Notice::QuitImmediately => " quit immediately after starting",
        Notice::NeverConnected => " failed before establishing successful connection",
        Notice::MaxRestartsReached { max_restarts: _ } => " reached maximum restart attempts",
        _ => {
            return None;
        },
    };
    let mut message = "MCP server ".to_string();
    message.append(name);
    message.append(ending);
    Some(message)
}

/// What the monitor does with the handle after a probe: a service that
/// fails its probe or does not answer in time loses its handle, which is
/// asked to cancel; a handle that is gone already is left alone.
pub open spec fn handle_care_after(outcome: ProbeOutcome) -> HandleCare {
    match outcome {
        ProbeOutcome::Healthy => HandleCare::Keep,
        ProbeOutcome::Failed => HandleCare::RemoveAndCancel,
        ProbeOutcome::TimedOut => HandleCare::RemoveAndCancel,
        ProbeOutcome::HandleAbsent => HandleCare::Keep,
    }
}

/// Why the monitor ends after a probe: not at all while the service is
/// healthy, else because the connection is closed.
pub open spec fn quit_reason_after(outcome: ProbeOutcome) -> Option<QuitReason> {
    match outcome {
        ProbeOutcome::Healthy => None,
        _ => Some(QuitReason::Closed),
    }
}

/// Judges one health probe of a running service: what to do with its
/// handle, and whether the monitor ends, and why.
pub fn monitor_mcp_server_handle(outcome: ProbeOutcome) -> (verdict: (
    HandleCare,
    Option<QuitReason>,
))
    ensures
        verdict.0 == handle_care_after(outcome),
        verdict.1 == quit_reason_after(outcome),
{
    match outcome {
        ProbeOutcome::Healthy => (HandleCare::Keep, None),
        ProbeOutcome::Failed => (HandleCare::RemoveAndCancel, Some(QuitReason::Closed)),
        ProbeOutcome::TimedOut => (HandleCare::RemoveAndCancel, Some(QuitReason::Closed)),
        ProbeOutcome::HandleAbsent => (HandleCare::Keep, Some(QuitReason::Closed)),
    }
}

/// The state machine treats a probe of a running service as the monitor
/// does: the same care for the handle, another probe while the service is
/// healthy, and the restart decision as soon as the monitor ends.
pub proof fn law_probe_is_judged_alike(life: Lifecycle, outcome: ProbeOutcome)
    requires
        life.phase == Phase::Running,
    ensures
        life.next(Event::Probed(outcome)).handle == handle_care_after(outcome),
        quit_reason_after(outcome) is None <==> life.next(Event::Probed(outcome)).action is Probe,
        quit_reason_after(outcome) is Some ==> life.next(Event::Probed(outcome))
            == life.after_closure(handle_care_after(outcome)),
{
}

/// How a start attempt stands after a step.
#[derive(Debug, Clone, Copy, PartialEq, Eq, Structural)]
pub enum StartOutcome {
    /// The attempt is still under way.
    Pending,
    /// The service passed verification.
    Passed,
    /// The launch failed, or the service did not pass verification.
    Failed,
}

/// How a start attempt stands after the step that `event` caused: it
/// has passed once the service runs, it has failed once the launch
/// fails or the handle is gone when the window ends, and until then it is
/// under way. A step that was ignored settles nothing.
pub open spec fn start_outcome_of(event: Event, step: Transition) -> StartOutcome {
    if step.action == Action::Ignore {
        StartOutcome::Pending
    } else {
        match event {
            Event::LaunchFailed => StartOutcome::Failed,
            Event::VerificationElapsed { handle_present } => if handle_present {
                StartOutcome::Passed
            } else {
                StartOutcome::Failed
            },
            _ => StartOutcome::Pending,
        }
    }
}

/// Tells how a start attempt stands after a step.
pub fn start_outcome(event: Event, step: &Transition) -> (outcome: StartOutcome)
    ensures
        outcome == start_outcome_of(event, *step),
{
    if step.action == Action::Ignore {
        return StartOutcome::Pending;
    }
    match event {
        Event::LaunchFailed => StartOutcome::Failed,
        Event::VerificationElapsed { handle_present } => if handle_present {
            StartOutcome::Passed
        } else {
            StartOutcome::Failed
        },
        _ => StartOutcome::Pending,
    }
}

/// A start attempt passes exactly where the step takes the service to
/// `Running` from `Verifying`, and is then announced; and where it fails,
/// the service is not probed.
pub proof fn law_start_outcome_follows_the_machine(life: Lifecycle, event: Event)
    ensures
        start_outcome_of(event, life.next(event)) == StartOutcome::Passed <==> life.phase
            == Phase::Verifying && life.next(event).next.phase == Phase::Running,
        start_outcome_of(event, life.next(event)) == StartOutcome::Passed ==> life.next(
            event,
        ).notice == Notice::Connected,
        start_outcome_of(event, life.next(event)) == StartOutcome::Failed ==> !(life.next(
            event,
        ).action is Probe) && life.next(event).next.phase != Phase::Running,
{
}

/// The state of the service `name` as the registry has it, in `phase`.
pub open spec fn lifecycle_in(
    counts: Map<Seq<char>, u32>,
    flags: Map<Seq<char>, bool>,
    name: Seq<char>,
    phase: Phase,
    max_restarts: Option<u32>,
) -> Lifecycle {
    Lifecycle {
        phase,
        restart_count: restart_count_in(counts, name),
        connected_once: connected_in(flags, name),
        max_restarts: restart_limit(max_restarts),
    }
}

/// The event that ends the verification window of `name`: whether its
/// handle is still registered.
pub fn verification_event<H>(handles: &NameMap<H>, name: &str) -> (event: Event)
    requires
        handles.wf(),
    ensures
        event == (Event::VerificationElapsed { handle_present: handles@.contains_key(name@) }),
{
    Event::VerificationElapsed { handle_present: handles.contains(name) }
}

/// Takes one step for the service `name` on the registry: reads its
/// counter and its flag, takes the step that `event` causes in `phase`,
/// and writes the counter back, and the flag where it is set. No other
/// service is touched.
pub fn supervise(
    counts: &mut NameMap<u32>,
    flags: &mut NameMap<bool>,
    name: &str,
    phase: Phase,
    max_restarts: Option<u32>,
    event: Event,
) -> (step: Transition)
    requires
        old(counts).wf(),
        old(flags).wf(),
    ensures
        final(counts).wf(),
        final(flags).wf(),
        step == lifecycle_in(old(counts)@, old(flags)@, name@, phase, max_restarts).next(event),
        final(counts)@ == old(counts)@.insert(name@, step.next.restart_count),
        final(flags)@ == if step.next.connected_once {
            old(flags)@.insert(name@, true)
        } else {
            old(flags)@
        },
        lifecycle_in(final(counts)@, final(flags)@, name@, step.next.phase, max_restarts)
            == step.next,
{
    let life = Lifecycle {
        phase,
        restart_count: restart_count(counts, name),
        connected_once: is_connected(flags, name),
        max_restarts: match max_restarts {
            Some(limit) => limit,
            None => DEFAULT_MAX_RESTARTS,
        },
    };
    let step = life.step(event);
    let _ = counts.insert(name, step.next.restart_count);
    if step.next.connected_once {
        mark_connected(flags, name);
    }
    step
}

/// A service that is stopped or has failed for good stays as it is,
/// whatever is reported of it, and nothing is done for it any more.
pub proof fn law_terminal_is_final(life: Lifecycle, events: Seq<Event>)
    requires
        life.is_terminal(),
    ensures
        life.run(events) == life,
        forall|event: Event| (#[trigger] life.next(event)) == life.ignored(),
    decreases events.len(),
{
    if events.len() > 0 {
        law_terminal_is_final(life, events.drop_last());
    }
}

/// A service that never connected is never scheduled for a restart: no
/// event takes it to `RestartScheduled` or asks for a backoff.
pub proof fn law_never_connected_never_restarts(life: Lifecycle, event: Event)
    requires
        life.consistent(),
        !life.connected_once,
    ensures
        life.next(event).next.phase != Phase::RestartScheduled,
        !(life.next(event).action is Backoff),
        life.next(event).next.restart_count == life.restart_count || life.next(event).notice
            == Notice::Connected,
{
}

/// A start that fails before the service ever connected ends the
/// service: it has failed for good, its counter is untouched, and no
/// later event brings it back.
pub proof fn law_failed_start_without_connection_is_final(life: Lifecycle, later: Seq<Event>)
    requires
        life.phase == Phase::Starting,
        !life.connected_once,
    ensures
        life.next(Event::LaunchFailed).next == life.at(Phase::PermanentlyFailed),
        life.next(Event::LaunchFailed).action == Action::Halt,
        life.next(Event::LaunchFailed).notice == Notice::NeverConnected,
        life.next(Event::LaunchFailed).next.run(later) == life.at(Phase::PermanentlyFailed),
{
    law_terminal_is_final(life.at(Phase::PermanentlyFailed), later);
}

/// A service whose handle is gone when the verification window ends has
/// failed for good: it is reported as having quit, it is not probed, now
/// or after any later event, and it does not count as connected on that
/// account.
pub proof fn law_failed_verification_is_final(life: Lifecycle, later: Seq<Event>)
    requires
        life.phase == Phase::Verifying,
    ensures
        life.next(Event::VerificationElapsed { handle_present: false }).next == life.at(
            Phase::PermanentlyFailed,
        ),
        life.next(Event::VerificationElapsed { handle_present: false }).action == Action::Halt,
        life.next(Event::VerificationElapsed { handle_present: false }).notice
            == Notice::QuitImmediately,
        life.next(Event::VerificationElapsed { handle_present: false }).next.run(later)
            == life.at(Phase::PermanentlyFailed),
        forall|event: Event|
            !((#[trigger] life.at(Phase::PermanentlyFailed).next(event)).action is Probe),
{
    law_terminal_is_final(life.at(Phase::PermanentlyFailed), later);
}

/// Probing begins with a passed verification and at no other step: a
/// step asks for a probe only where the service passes verification or
/// already runs.
pub proof fn law_probing_needs_verification(life: Lifecycle, event: Event)
    requires
        life.next(event).action is Probe,
    ensures
        (life.phase == Phase::Verifying && event == (Event::VerificationElapsed {
            handle_present: true,
        })) || (life.phase == Phase::Running && event == Event::Probed(ProbeOutcome::Healthy)),
        life.next(event).next.phase == Phase::Running,
{
}

/// A start that passes verification sets the restart counter to 0 and
/// marks the service as connected; and wherever a step announces a
/// connection, the counter is 0 after it.
pub proof fn law_verified_start_resets_counter(life: Lifecycle, event: Event)
    ensures
        life.phase == Phase::Verifying ==> life.next(
            Event::VerificationElapsed { handle_present: true },
        ).next == (Lifecycle {
            phase: Phase::Running,
            restart_count: 0,
            connected_once: true,
            max_restarts: life.max_restarts,
        }),
        life.phase == Phase::Verifying ==> life.next(
            Event::VerificationElapsed { handle_present: true },
        ).notice == Notice::Connected,
        life.next(event).notice == Notice::Connected ==> life.next(event).next.restart_count == 0
            && life.next(event).next.connected_once,
        life.phase != Phase::Running && life.next(event).next.phase == Phase::Running
            ==> life.next(event).next.restart_count == 0,
{
}

/// Once a service has connected, it counts as connected for good; and
/// its limit never changes.
pub proof fn law_connection_is_remembered(life: Lifecycle, events: Seq<Event>)
    ensures
        life.connected_once ==> life.run(events).connected_once,
        life.run(events).max_restarts == life.max_restarts,
    decreases events.len(),
{
    if events.len() > 0 {
        law_connection_is_remembered(life, events.drop_last());
    }
}

/// Every step keeps the machine consistent, and so does every run.
pub proof fn law_consistency_is_kept(life: Lifecycle, events: Seq<Event>)
    requires
        life.consistent(),
    ensures
        forall|event: Event| (#[trigger] life.next(event)).next.consistent(),
        life.run(events).consistent(),
    decreases events.len(),
{
    if events.len() > 0 {
        law_consistency_is_kept(life, events.drop_last());
    }
}

/// No retry goes on without end: a backoff is asked for only while the
/// counter is under the limit, it raises the counter by one, and its delay
/// lies between the floor and the cap.
pub proof fn law_restarts_are_bounded(life: Lifecycle, event: Event)
    requires
        life.next(event).action is Backoff,
    ensures
        life.connected_once,
        life.restart_count < life.max_restarts,
        life.next(event).next.restart_count == life.restart_count + 1,
        life.next(event).action == (Action::Backoff {
            attempt: (life.restart_count + 1) as u32,
            millis: backoff_delay((life.restart_count + 1) as u32) as u64,
        }),
        MCP_MIN_RESTART_DELAY_MS <= life.next(event).action->Backoff_millis
            <= MCP_MAX_RESTART_DELAY_MS,
        life.next(event).next.phase == Phase::RestartScheduled,
{
}

/// A service that has used up its restarts is given up: from the limit
/// on, a closure ends it and says so.
pub proof fn law_exhausted_budget_is_final(life: Lifecycle, handle: HandleCare)
    requires
        life.connected_once,
        life.restart_count >= life.max_restarts,
    ensures
        life.after_closure(handle).next.phase == Phase::PermanentlyFailed,
        life.after_closure(handle).action == Action::Halt,
        life.after_closure(handle).notice == (Notice::MaxRestartsReached {
            max_restarts: life.max_restarts,
        }),
{
}

} // verus!
