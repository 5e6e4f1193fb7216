//! Restarting a service, one step at a time: stop it if it runs, wait for the
//! stop (at most ten seconds), pause for its restart delay, then start it. The
//! caller performs each step and reports how it went; the first step that
//! fails ends the restart.
use vstd::prelude::*;

use crate::config::{ServiceConfig, ServiceType};
use crate::process_manager::clone_strings;
use crate::service::{service_error_text, ServiceError, ServiceLifecycle};
use crate::text::concat3;

verus! {

/// How long a restart waits for a process to stop, in milliseconds.
pub const STOP_TIMEOUT_MS: u64 = 10000;

/// The pause between two checks while a restart waits for a stop, in
/// milliseconds.
pub const STOP_POLL_MS: u64 = 100;

/// What asked for the restart: the service's restart operation, or an action
/// of kind restart with the command line it names in place of the service's
/// own, if it names one.
pub enum RestartOrigin {
    Operation,
    Action(Option<(String, Vec<String>)>),
}

/// Where a restart stands: which step it waits on.
#[derive(Debug, Clone, Copy, PartialEq, Eq, Structural)]
pub enum RestartPhase {
    /// Nothing done yet.
    Begin,
    /// The lifecycle was set to restarting.
    Marked,
    /// Asked whether the service runs.
    Checking,
    /// Asked the service to stop.
    StopRequested,
    /// Asked whether the stopping process still runs.
    Waiting,
    /// Pausing between two such checks.
    Pausing,
    /// Pausing for the restart delay.
    Delaying,
    /// Asked the service to start.
    Starting,
    /// Set the lifecycle of a started Windows service to running.
    Finishing,
    /// The restart is over.
    Done,
}

/// How the last step went.
pub enum RestartEvent {
    /// The restart was asked for.
    Started,
    /// The step succeeded.
    StepOk,
    /// The step failed with this message.
    StepFailed(String),
    /// Whether the process runs, and the milliseconds since its stop was
    /// asked for.
    Running { running: bool, elapsed_ms: u64 },
    /// The state of the Windows service.
    WindowsState(ServiceLifecycle),
}

/// Why a restart failed.
#[derive(Debug)]
pub enum RestartFailure {
    /// A step failed with this message.
    Step(String),
    /// The process of service `id` still ran after the stop timeout.
    StopTimedOut { id: String },
    /// The service cannot be restarted as configured.
    Service(ServiceError),
    /// An event came that does not answer the last step.
    UnexpectedEvent,
}

/// The next step of a restart.
pub enum RestartAction {
    /// Set the service's lifecycle.
    SetLifecycle(ServiceLifecycle),
    /// Stop the service.
    Stop,
    /// Ask whether the service runs (for a Windows service, its state).
    PollRunning,
    /// Sleep this many milliseconds.
    Sleep(u64),
    /// Start the service, with this command line in place of its own if given.
    Start(Option<(String, Vec<String>)>),
    /// The restart failed.
    Fail(RestartFailure),
    /// The restart succeeded.
    Finish,
}

/// A restart step with the arguments of a start as a sequence.
pub enum RestartActionView {
    SetLifecycle(ServiceLifecycle),
    Stop,
    PollRunning,
    Sleep(u64),
    Start(Option<(String, Seq<String>)>),
    Fail(RestartFailure),
    Finish,
}

/// A command line with its arguments as a sequence.
pub open spec fn command_view(c: Option<(String, Vec<String>)>) -> Option<(String, Seq<String>)> {
    match c {
        Some((command, args)) => Some((command, args@)),
        None => None,
    }
}

impl View for RestartAction {
    type V = RestartActionView;

    open spec fn view(&self) -> RestartActionView {
        match *self {
            RestartAction::SetLifecycle(l) => RestartActionView::SetLifecycle(l),
            RestartAction::Stop => RestartActionView::Stop,
            RestartAction::PollRunning => RestartActionView::PollRunning,
            RestartAction::Sleep(ms) => RestartActionView::Sleep(ms),
            RestartAction::Start(c) => RestartActionView::Start(command_view(c)),
            RestartAction::Fail(f) => RestartActionView::Fail(f),
            RestartAction::Finish => RestartActionView::Finish,
        }
    }
}

/// The command line a restart starts with in place of the service's own.
pub open spec fn origin_command(origin: RestartOrigin) -> Option<(String, Seq<String>)> {
    match origin {
        RestartOrigin::Action(c) => command_view(c),
        RestartOrigin::Operation => None,
    }
}

/// The restart goes through `sc.exe`: the restart operation of a Windows
/// service. An action of kind restart always restarts a process.
pub open spec fn windows_restart(service: ServiceConfig, origin: RestartOrigin) -> bool {
    origin is Operation && service.service_type == ServiceType::WindowsService
}

/// The message of a failed restart.
pub open spec fn restart_failure_text(f: RestartFailure) -> Seq<char> {
    match f {
        RestartFailure::Step(m) => m@,
        RestartFailure::StopTimedOut { id } => "timed out waiting for service '"@ + id@
            + "' to stop"@,
        RestartFailure::Service(e) => service_error_text(e),
        RestartFailure::UnexpectedEvent => "restart received an event that does not answer its last step"@,
    }
}

/// The restart's next phase and step after `event` in `phase`.
///
/// A process is restarted as: set the lifecycle to restarting; ask whether
/// it runs; if it does, stop it and check every `STOP_POLL_MS` until it no
/// longer runs, failing once `STOP_TIMEOUT_MS` have passed with it still
/// running; sleep the restart delay; start it. A Windows service: set the
/// lifecycle to restarting; fail if it names no Windows service; query its
/// state; unless it is stopped, stop it and sleep the restart delay; start it;
/// set the lifecycle to running. The first step that fails ends the restart
/// with its message.
pub open spec fn restart_transition(
    service: ServiceConfig,
    origin: RestartOrigin,
    phase: RestartPhase,
    event: RestartEvent,
) -> (RestartPhase, RestartActionView) {
    let windows = windows_restart(service, origin);
    let delay = service.process.restart_delay_ms;
    let unexpected = (
        RestartPhase::Done,
        RestartActionView::Fail(RestartFailure::UnexpectedEvent),
    );
    match phase {
        RestartPhase::Done => (RestartPhase::Done, RestartActionView::Finish),
        RestartPhase::Begin => (
            RestartPhase::Marked,
            RestartActionView::SetLifecycle(ServiceLifecycle::Restarting),
        ),
        _ => match event {
            RestartEvent::StepFailed(m) => (
                RestartPhase::Done,
                RestartActionView::Fail(RestartFailure::Step(m)),
            ),
            RestartEvent::StepOk => match phase {
                RestartPhase::Marked => if windows && service.windows_service is None {
                    (
                        RestartPhase::Done,
                        RestartActionView::Fail(
                            RestartFailure::Service(ServiceError::WindowsServiceNameMissing),
                        ),
                    )
                } else {
                    (RestartPhase::Checking, RestartActionView::PollRunning)
                },
                RestartPhase::StopRequested => if windows {
                    (RestartPhase::Delaying, RestartActionView::Sleep(delay))
                } else {
                    (RestartPhase::Waiting, RestartActionView::PollRunning)
                },
                RestartPhase::Pausing => (RestartPhase::Waiting, RestartActionView::PollRunning),
                RestartPhase::Delaying => (
                    RestartPhase::Starting,
                    RestartActionView::Start(origin_command(origin)),
                ),
                RestartPhase::Starting => if windows {
                    (
                        RestartPhase::Finishing,
                        RestartActionView::SetLifecycle(ServiceLifecycle::Running),
                    )
                } else {
                    (RestartPhase::Done, RestartActionView::Finish)
                },
                RestartPhase::Finishing => (RestartPhase::Done, RestartActionView::Finish),
                _ => unexpected,
            },
            RestartEvent::Running { running, elapsed_ms } => match phase {
                RestartPhase::Checking => if windows {
                    unexpected
                } else if running {
                    (RestartPhase::StopRequested, RestartActionView::Stop)
                } else {
                    (RestartPhase::Delaying, RestartActionView::Sleep(delay))
                },
                RestartPhase::Waiting => if windows {
                    unexpected
                } else if !running {
                    (RestartPhase::Delaying, RestartActionView::Sleep(delay))
                } else if elapsed_ms >= STOP_TIMEOUT_MS {
                    (
                        RestartPhase::Done,
                        RestartActionView::Fail(RestartFailure::StopTimedOut { id: service.id }),
                    )
                } else {
                    (RestartPhase::Pausing, RestartActionView::Sleep(STOP_POLL_MS))
                },
                _ => unexpected,
            },
            RestartEvent::WindowsState(l) => match phase {
                RestartPhase::Checking => if !windows {
                    unexpected
                } else if l != ServiceLifecycle::Stopped {
                    (RestartPhase::StopRequested, RestartActionView::Stop)
                } else {
                    (RestartPhase::Starting, RestartActionView::Start(None))
                },
                _ => unexpected,
            },
            RestartEvent::Started => unexpected,
        },
    }
}

impl RestartFailure {
    /// The message shown for this failure.
    pub fn message(&self) -> (r: String)
        ensures
            r@ == restart_failure_text(*self),
    {
        match self {
            RestartFailure::Step(m) => m.clone(),
            RestartFailure::StopTimedOut { id } => concat3(
                "timed out waiting for service '",
                id.as_str(),
                "' to stop",
            ),
            RestartFailure::Service(e) => e.message(),
            RestartFailure::UnexpectedEvent => String::from_str(
                "restart received an event that does not answer its last step",
            ),
        }
    }
}

fn origin_command_exec(origin: &RestartOrigin) -> (r: Option<(String, Vec<String>)>)
    ensures
        command_view(r) == origin_command(*origin),
{
    match origin {
        RestartOrigin::Action(Some((command, args))) => Some((command.clone(), clone_strings(args))),
        _ => None,
    }
}

fn failed(f: RestartFailure) -> (r: (RestartPhase, RestartAction))
    ensures
        r.0 == RestartPhase::Done,
        r.1@ == RestartActionView::Fail(f),
{
    (RestartPhase::Done, RestartAction::Fail(f))
}

/// Whether the restart goes through `sc.exe` rather than the process manager.
pub fn restart_uses_windows_service(service: &ServiceConfig, origin: &RestartOrigin) -> (r: bool)
    ensures
        r == windows_restart(*service, *origin),
{
    match origin {
        RestartOrigin::Operation => service.service_type == ServiceType::WindowsService,
        RestartOrigin::Action(_) => false,
    }
}

/// The restart's next phase and step after `event` in `phase`.
pub fn restart_step(
    service: &ServiceConfig,
    origin: &RestartOrigin,
    phase: RestartPhase,
    event: RestartEvent,
) -> (r: (RestartPhase, RestartAction))
    ensures
        (r.0, r.1@) == restart_transition(*service, *origin, phase, event),
{
    let windows = restart_uses_windows_service(service, origin);
    let delay = service.process.restart_delay_ms;
    match phase {
        RestartPhase::Done => {
            return (RestartPhase::Done, RestartAction::Finish);
        },
        RestartPhase::Begin => {
            return (
                RestartPhase::Marked,
                RestartAction::SetLifecycle(ServiceLifecycle::Restarting),
            );
        },
        _ => {},
    }
    match event {
        RestartEvent::StepFailed(m) => failed(RestartFailure::Step(m)),
        RestartEvent::StepOk => match phase {
            RestartPhase::Marked => {
                if windows && service.windows_service.is_none() {
                    failed(RestartFailure::Service(ServiceError::WindowsServiceNameMissing))
                } else {
                    (RestartPhase::Checking, RestartAction::PollRunning)
                }
            },
            RestartPhase::StopRequested => {
                if windows {
                    (RestartPhase::Delaying, RestartAction::Sleep(delay))
                } else {
                    (RestartPhase::Waiting, RestartAction::PollRunning)
                }
            },
            RestartPhase::Pausing => (RestartPhase::Waiting, RestartAction::PollRunning),
            RestartPhase::Delaying => (
                RestartPhase::Starting,
                RestartAction::Start(origin_command_exec(origin)),
            ),
            RestartPhase::Starting => {
                if windows {
                    (RestartPhase::Finishing, RestartAction::SetLifecycle(ServiceLifecycle::Running))
                } else {
                    (RestartPhase::Done, RestartAction::Finish)
                }
            },
            RestartPhase::Finishing => (RestartPhase::Done, RestartAction::Finish),
            _ => failed(RestartFailure::UnexpectedEvent),
        },
        RestartEvent::Running { running, elapsed_ms } => match phase {
            RestartPhase::Checking => {
                if windows {
                    failed(RestartFailure::UnexpectedEvent)
                } else if running {
                    (RestartPhase::StopRequested, RestartAction::Stop)
                } else {
                    (RestartPhase::Delaying, RestartAction::Sleep(delay))
                }
            },
            RestartPhase::Waiting => {
                if windows {
                    failed(RestartFailure::UnexpectedEvent)
                } else if !running {
                    (RestartPhase::Delaying, RestartAction::Sleep(delay))
                } else if elapsed_ms >= STOP_TIMEOUT_MS {
                    failed(RestartFailure::StopTimedOut { id: service.id.clone() })
                } else {
                    (RestartPhase::Pausing, RestartAction::Sleep(STOP_POLL_MS))
                }
            },
            _ => failed(RestartFailure::UnexpectedEvent),
        },
        RestartEvent::WindowsState(l) => match phase {
            RestartPhase::Checking => {
                if !windows {
                    failed(RestartFailure::UnexpectedEvent)
                } else if l != ServiceLifecycle::Stopped {
                    (RestartPhase::StopRequested, RestartAction::Stop)
                } else {
                    (RestartPhase::Starting, RestartAction::Start(None))
                }
            },
            _ => failed(RestartFailure::UnexpectedEvent),
        },
        RestartEvent::Started => failed(RestartFailure::UnexpectedEvent),
    }
}

} // verus!

verus! {

/// The phase reached and the steps asked for when `events` answer a restart
/// in `phase`, one after the other.
pub open spec fn restart_run(
    service: ServiceConfig,
    origin: RestartOrigin,
    phase: RestartPhase,
    events: Seq<RestartEvent>,
) -> (RestartPhase, Seq<RestartActionView>)
    decreases events.len(),
{
    if events.len() == 0 {
        (phase, Seq::empty())
    } else {
        let (next, action) = restart_transition(service, origin, phase, events[0]);
        let (last, rest) = restart_run(service, origin, next, events.skip(1));
        (last, seq![action] + rest)
    }
}

/// A running process is restarted in this order: the lifecycle is set to
/// restarting, the process is found running and stopped, found stopped, the
/// restart delay passes, and it is started with the origin's command line.
pub proof fn law_process_restart_order(
    service: ServiceConfig,
    origin: RestartOrigin,
    elapsed_ms: u64,
)
    requires
        !windows_restart(service, origin),
    ensures
        restart_run(
            service,
            origin,
            RestartPhase::Begin,
            seq![
                RestartEvent::Started,
                RestartEvent::StepOk,
                RestartEvent::Running { running: true, elapsed_ms: 0 },
                RestartEvent::StepOk,
                RestartEvent::Running { running: false, elapsed_ms },
                RestartEvent::StepOk,
                RestartEvent::StepOk,
            ],
        ) == (
            RestartPhase::Done,
            seq![
                RestartActionView::SetLifecycle(ServiceLifecycle::Restarting),
                RestartActionView::PollRunning,
                RestartActionView::Stop,
                RestartActionView::PollRunning,
                RestartActionView::Sleep(service.process.restart_delay_ms),
                RestartActionView::Start(origin_command(origin)),
                RestartActionView::Finish,
            ],
        ),
{
    let events = seq![
        RestartEvent::Started,
        RestartEvent::StepOk,
        RestartEvent::Running { running: true, elapsed_ms: 0 },
        RestartEvent::StepOk,
        RestartEvent::Running { running: false, elapsed_ms },
        RestartEvent::StepOk,
        RestartEvent::StepOk,
    ];
    reveal_with_fuel(restart_run, 8);
    assert(events.skip(1).skip(1).skip(1).skip(1).skip(1).skip(1).skip(1).len() == 0);
    assert(restart_run(service, origin, RestartPhase::Begin, events).1 =~= seq![
        RestartActionView::SetLifecycle(ServiceLifecycle::Restarting),
        RestartActionView::PollRunning,
        RestartActionView::Stop,
        RestartActionView::PollRunning,
        RestartActionView::Sleep(service.process.restart_delay_ms),
        RestartActionView::Start(origin_command(origin)),
        RestartActionView::Finish,
    ]);
}

/// A Windows service that is not stopped is restarted in this order: the
/// lifecycle is set to restarting, its state is queried, it is stopped, the
/// restart delay passes, it is started and its lifecycle set to running.
pub proof fn law_windows_restart_order(service: ServiceConfig, state: ServiceLifecycle)
    requires
        service.service_type == ServiceType::WindowsService,
        service.windows_service is Some,
        state != ServiceLifecycle::Stopped,
    ensures
        restart_run(
            service,
            RestartOrigin::Operation,
            RestartPhase::Begin,
            seq![
                RestartEvent::Started,
                RestartEvent::StepOk,
                RestartEvent::WindowsState(state),
                RestartEvent::StepOk,
                RestartEvent::StepOk,
                RestartEvent::StepOk,
                RestartEvent::StepOk,
            ],
        ) == (
            RestartPhase::Done,
            seq![
                RestartActionView::SetLifecycle(ServiceLifecycle::Restarting),
                RestartActionView::PollRunning,
                RestartActionView::Stop,
                RestartActionView::Sleep(service.process.restart_delay_ms),
                RestartActionView::Start(None),
                RestartActionView::SetLifecycle(ServiceLifecycle::Running),
                RestartActionView::Finish,
            ],
        ),
{
    reveal_with_fuel(restart_run, 8);
    let events = seq![
        RestartEvent::Started,
        RestartEvent::StepOk,
        RestartEvent::WindowsState(state),
        RestartEvent::StepOk,
        RestartEvent::StepOk,
        RestartEvent::StepOk,
        RestartEvent::StepOk,
    ];
    assert(events.skip(1).skip(1).skip(1).skip(1).skip(1).skip(1).skip(1).len() == 0);
    assert(restart_run(service, RestartOrigin::Operation, RestartPhase::Begin, events).1 =~= seq![
        RestartActionView::SetLifecycle(ServiceLifecycle::Restarting),
        RestartActionView::PollRunning,
        RestartActionView::Stop,
        RestartActionView::Sleep(service.process.restart_delay_ms),
        RestartActionView::Start(None),
        RestartActionView::SetLifecycle(ServiceLifecycle::Running),
        RestartActionView::Finish,
    ]);
}

/// `n` finishes.
pub open spec fn finishes(n: nat) -> Seq<RestartActionView> {
    Seq::new(n, |i: int| RestartActionView::Finish)
}

proof fn lemma_done_stays_done(service: ServiceConfig, origin: RestartOrigin, events: Seq<RestartEvent>)
    ensures
        restart_run(service, origin, RestartPhase::Done, events) == (
            RestartPhase::Done,
            finishes(events.len()),
        ),
    decreases events.len(),
{
    if events.len() > 0 {
        lemma_done_stays_done(service, origin, events.skip(1));
        assert(seq![RestartActionView::Finish] + finishes(events.skip(1).len()) =~= finishes(
            events.len(),
        ));
    } else {
        assert(finishes(0) =~= Seq::<RestartActionView>::empty());
    }
}

/// Once a restart has begun, the first step that fails ends it: it fails with
/// that step's message, and whatever comes after only finishes it.
pub proof fn law_restart_stops_at_first_failure(
    service: ServiceConfig,
    origin: RestartOrigin,
    phase: RestartPhase,
    message: String,
    later: Seq<RestartEvent>,
)
    requires
        phase != RestartPhase::Begin,
        phase != RestartPhase::Done,
    ensures
        restart_run(service, origin, phase, seq![RestartEvent::StepFailed(message)] + later) == (
            RestartPhase::Done,
            seq![RestartActionView::Fail(RestartFailure::Step(message))] + finishes(later.len()),
        ),
{
    let events = seq![RestartEvent::StepFailed(message)] + later;
    assert(events.skip(1) =~= later);
    lemma_done_stays_done(service, origin, later);
}

/// Only the restart operation of a Windows service goes through `sc.exe`.
/// Any other restart (a process or react-native service, or an action of
/// kind restart on any service) restarts a process: after marking it asks
/// whether the process runs, stops it if it does, and then waits for the stop.
pub proof fn law_only_windows_services_restart_through_sc(
    service: ServiceConfig,
    origin: RestartOrigin,
    elapsed_ms: u64,
)
    requires
        service.service_type != ServiceType::WindowsService || origin is Action,
    ensures
        restart_transition(service, origin, RestartPhase::Marked, RestartEvent::StepOk) == (
            RestartPhase::Checking,
            RestartActionView::PollRunning,
        ),
        restart_transition(
            service,
            origin,
            RestartPhase::Checking,
            RestartEvent::Running { running: true, elapsed_ms },
        ) == (RestartPhase::StopRequested, RestartActionView::Stop),
        restart_transition(service, origin, RestartPhase::StopRequested, RestartEvent::StepOk) == (
            RestartPhase::Waiting,
            RestartActionView::PollRunning,
        ),
{
}

} // verus!
