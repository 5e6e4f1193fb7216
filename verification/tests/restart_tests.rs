use devdock::config::{ProcessOptions, ServiceConfig, ServiceType, WindowsServiceOptions};
use devdock::restart::{
    restart_step, RestartAction, RestartEvent, RestartFailure, RestartOrigin, RestartPhase,
    STOP_TIMEOUT_MS,
};
use devdock::service::ServiceLifecycle;

fn service(id: &str, service_type: ServiceType) -> ServiceConfig {
    let mut process = ProcessOptions::default();
    process.restart_delay_ms = 250;
    ServiceConfig {
        id: id.to_string(),
        name: "API".to_string(),
        service_type,
        group: "backend".to_string(),
        cwd: None,
        command: Some("api.exe".to_string()),
        args: Vec::new(),
        env: Vec::new(),
        process,
        windows_service: None,
        log: None,
        status: None,
        actions: Vec::new(),
    }
}

fn describe(action: &RestartAction) -> String {
    match action {
        RestartAction::SetLifecycle(l) => format!("set {l:?}"),
        RestartAction::Stop => "stop".to_string(),
        RestartAction::PollRunning => "poll".to_string(),
        RestartAction::Sleep(ms) => format!("sleep {ms}"),
        RestartAction::Start(None) => "start".to_string(),
        RestartAction::Start(Some((c, args))) => format!("start {c} {}", args.join(" ")),
        RestartAction::Fail(f) => format!("fail {}", f.message()),
        RestartAction::Finish => "finish".to_string(),
    }
}

/// Feeds `events` to a restart of `service` and lists the steps asked for.
fn run(service: &ServiceConfig, origin: &RestartOrigin, events: Vec<RestartEvent>) -> Vec<String> {
    let mut phase = RestartPhase::Begin;
    let mut steps = Vec::new();
    for event in events {
        let (next, action) = restart_step(service, origin, phase, event);
        phase = next;
        steps.push(describe(&action));
    }
    steps
}

#[test]
fn running_process_is_stopped_waited_for_delayed_and_started() {
    let svc = service("api", ServiceType::Process);
    let steps = run(
        &svc,
        &RestartOrigin::Operation,
        vec![
            RestartEvent::Started,
            RestartEvent::StepOk,
            RestartEvent::Running { running: true, elapsed_ms: 0 },
            RestartEvent::StepOk,
            RestartEvent::Running { running: true, elapsed_ms: 40 },
            RestartEvent::StepOk,
            RestartEvent::Running { running: false, elapsed_ms: 140 },
            RestartEvent::StepOk,
            RestartEvent::StepOk,
        ],
    );
    assert_eq!(
        steps,
        vec![
            "set Restarting", "poll", "stop", "poll", "sleep 100", "poll", "sleep 250", "start",
            "finish"
        ]
    );
}

#[test]
fn stopped_process_is_only_delayed_and_started() {
    let svc = service("api", ServiceType::Process);
    let steps = run(
        &svc,
        &RestartOrigin::Operation,
        vec![
            RestartEvent::Started,
            RestartEvent::StepOk,
            RestartEvent::Running { running: false, elapsed_ms: 0 },
            RestartEvent::StepOk,
            RestartEvent::StepOk,
        ],
    );
    assert_eq!(steps, vec!["set Restarting", "poll", "sleep 250", "start", "finish"]);
}

#[test]
fn restart_action_starts_with_its_own_command() {
    let svc = service("api", ServiceType::WindowsService);
    let origin = RestartOrigin::Action(Some(("npm".to_string(), vec!["run".to_string(), "dev".to_string()])));
    let steps = run(
        &svc,
        &origin,
        vec![
            RestartEvent::Started,
            RestartEvent::StepOk,
            RestartEvent::Running { running: false, elapsed_ms: 0 },
            RestartEvent::StepOk,
            RestartEvent::StepOk,
        ],
    );
    assert_eq!(steps, vec!["set Restarting", "poll", "sleep 250", "start npm run dev", "finish"]);
}

#[test]
fn stop_that_takes_too_long_times_out() {
    let svc = service("api", ServiceType::Process);
    let steps = run(
        &svc,
        &RestartOrigin::Operation,
        vec![
            RestartEvent::Started,
            RestartEvent::StepOk,
            RestartEvent::Running { running: true, elapsed_ms: 0 },
            RestartEvent::StepOk,
            RestartEvent::Running { running: true, elapsed_ms: STOP_TIMEOUT_MS },
            RestartEvent::StepOk,
        ],
    );
    assert_eq!(
        steps,
        vec![
            "set Restarting",
            "poll",
            "stop",
            "poll",
            "fail timed out waiting for service 'api' to stop",
            "finish"
        ]
    );
}

#[test]
fn first_failing_step_ends_the_restart() {
    let svc = service("api", ServiceType::Process);
    let steps = run(
        &svc,
        &RestartOrigin::Operation,
        vec![
            RestartEvent::Started,
            RestartEvent::StepOk,
            RestartEvent::Running { running: true, elapsed_ms: 0 },
            RestartEvent::StepFailed("access denied".to_string()),
            RestartEvent::StepOk,
        ],
    );
    assert_eq!(steps, vec!["set Restarting", "poll", "stop", "fail access denied", "finish"]);
}

#[test]
fn windows_service_is_queried_stopped_delayed_started_and_marked_running() {
    let mut svc = service("redis", ServiceType::WindowsService);
    svc.windows_service = Some(WindowsServiceOptions { service_name: "Redis".to_string() });
    let steps = run(
        &svc,
        &RestartOrigin::Operation,
        vec![
            RestartEvent::Started,
            RestartEvent::StepOk,
            RestartEvent::WindowsState(ServiceLifecycle::Running),
            RestartEvent::StepOk,
            RestartEvent::StepOk,
            RestartEvent::StepOk,
            RestartEvent::StepOk,
        ],
    );
    assert_eq!(
        steps,
        vec!["set Restarting", "poll", "stop", "sleep 250", "start", "set Running", "finish"]
    );
}

#[test]
fn stopped_windows_service_is_started_at_once() {
    let mut svc = service("redis", ServiceType::WindowsService);
    svc.windows_service = Some(WindowsServiceOptions { service_name: "Redis".to_string() });
    let steps = run(
        &svc,
        &RestartOrigin::Operation,
        vec![
            RestartEvent::Started,
            RestartEvent::StepOk,
            RestartEvent::WindowsState(ServiceLifecycle::Stopped),
            RestartEvent::StepOk,
            RestartEvent::StepOk,
        ],
    );
    assert_eq!(steps, vec!["set Restarting", "poll", "start", "set Running", "finish"]);
}

#[test]
fn windows_service_without_a_name_fails_after_marking() {
    let svc = service("redis", ServiceType::WindowsService);
    let steps = run(
        &svc,
        &RestartOrigin::Operation,
        vec![RestartEvent::Started, RestartEvent::StepOk],
    );
    assert_eq!(steps, vec!["set Restarting", "fail windowsService.serviceName is missing"]);
}

#[test]
fn unexpected_event_ends_the_restart() {
    let svc = service("api", ServiceType::Process);
    let (_, action) = restart_step(
        &svc,
        &RestartOrigin::Operation,
        RestartPhase::Marked,
        RestartEvent::WindowsState(ServiceLifecycle::Running),
    );
    assert!(matches!(action, RestartAction::Fail(RestartFailure::UnexpectedEvent)));
}
