use devdock::config::WindowsServiceOptions;
use devdock::process_manager::check_stdin;
use devdock::service::{plan_switch, Switch, SwitchPlan};
use devdock::config::{
    ActionConfig, ActionKind, ActionWhen, ProcessOptions, ServiceConfig, ServiceType,
    StatusOptions,
};
use devdock::process_manager::{
    begin_start, begin_stop, kill_tree_args, match_status_pattern, process_exited,
    running_services, set_failed, start_succeeded, wait_failed, ProcessError, StopPlan,
};
use devdock::service::{
    action_is_available, require_react_native_running, initial_states, launch_services,
    plan_action, record_error, record_windows_query, reload_states, require_service,
    set_lifecycle, state_or_unknown, windows_service_name, ActionPlan, RuntimeServiceState,
    ServiceError, ServiceLifecycle,
};
use devdock::table::Table;

fn service(id: &str, service_type: ServiceType) -> ServiceConfig {
    ServiceConfig {
        id: id.to_string(),
        name: id.to_uppercase(),
        service_type,
        group: "main".to_string(),
        cwd: None,
        command: Some("npx".to_string()),
        args: vec!["react-native".to_string(), "start".to_string()],
        env: vec![("NODE_ENV".to_string(), "development".to_string())],
        process: ProcessOptions::default(),
        windows_service: None,
        log: None,
        status: None,
        actions: Vec::new(),
    }
}

fn action(id: &str, when: ActionWhen, kind: ActionKind) -> ActionConfig {
    ActionConfig {
        id: id.to_string(),
        label: format!("Do {id}"),
        when,
        kind,
        input: Some("r".to_string()),
        command: None,
        args: Vec::new(),
    }
}

fn states_with(id: &str, lifecycle: ServiceLifecycle) -> Table<RuntimeServiceState> {
    let mut states = Table::new();
    states.insert(id.to_string(), RuntimeServiceState::new(lifecycle));
    states
}

#[test]
fn output_without_status_patterns_does_not_request_refresh() {
    let mut states = states_with("server", ServiceLifecycle::Running);
    assert!(!match_status_pattern(&mut states, "server", None, "ordinary process output"));
}

#[test]
fn status_pattern_only_changes_state_once() {
    let mut states = states_with("metro", ServiceLifecycle::Running);
    let status = StatusOptions {
        mode: Some("output-pattern".to_string()),
        patterns: vec![("ready".to_string(), vec!["Metro waiting on".to_string()])],
    };

    assert!(match_status_pattern(&mut states, "metro", Some(&status), "Metro waiting on port 8081"));
    assert!(!match_status_pattern(
        &mut states,
        "metro",
        Some(&status),
        "Metro waiting on port 8081"
    ));
}

#[test]
fn status_pattern_sets_detail_of_first_matching_entry() {
    let mut states = states_with("metro", ServiceLifecycle::Running);
    let status = StatusOptions {
        mode: None,
        patterns: vec![
            ("building".to_string(), vec!["Bundling".to_string(), "Building".to_string()]),
            ("error".to_string(), vec!["error:".to_string()]),
        ],
    };
    assert!(match_status_pattern(&mut states, "metro", Some(&status), "Building bundle"));
    assert_eq!(states.get("metro").unwrap().detail.as_deref(), Some("building"));
    assert!(match_status_pattern(&mut states, "metro", Some(&status), "error: failed"));
    assert_eq!(states.get("metro").unwrap().detail.as_deref(), Some("error"));
    assert_eq!(states.get("metro").unwrap().lifecycle, ServiceLifecycle::Running);
    assert!(!match_status_pattern(&mut states, "metro", Some(&status), "nothing here"));
    assert!(!match_status_pattern(&mut states, "other", Some(&status), "error: x"));
    assert!(!states.contains_key("other"));
}

#[test]
fn action_availability_follows_when() {
    assert!(action_is_available(ActionWhen::Any, ServiceLifecycle::Stopped));
    assert!(action_is_available(ActionWhen::Any, ServiceLifecycle::Unknown));
    assert!(action_is_available(ActionWhen::Running, ServiceLifecycle::Running));
    assert!(!action_is_available(ActionWhen::Running, ServiceLifecycle::Starting));
    assert!(action_is_available(ActionWhen::Failed, ServiceLifecycle::Failed));
    assert!(!action_is_available(ActionWhen::Failed, ServiceLifecycle::Stopped));
    assert!(action_is_available(ActionWhen::Stopped, ServiceLifecycle::Stopped));
}

#[test]
fn fresh_states_are_stopped_and_reload_keeps_remaining() {
    let services = vec![service("api", ServiceType::Process), service("web", ServiceType::Process)];
    let mut states = initial_states(&services);
    assert_eq!(states.len(), 2);
    assert_eq!(*states.get("api").unwrap(), RuntimeServiceState::new(ServiceLifecycle::Stopped));
    set_lifecycle(&mut states, "web", ServiceLifecycle::Running);

    let reloaded = vec![service("web", ServiceType::Process), service("new", ServiceType::Process)];
    reload_states(&mut states, &reloaded);
    assert_eq!(states.len(), 2);
    assert!(!states.contains_key("api"));
    assert_eq!(states.get("web").unwrap().lifecycle, ServiceLifecycle::Running);
    assert_eq!(states.get("new").unwrap().lifecycle, ServiceLifecycle::Stopped);
}

#[test]
fn set_lifecycle_keeps_other_fields() {
    let mut states = Table::new();
    record_error(&mut states, "api", "boom".to_string());
    set_lifecycle(&mut states, "api", ServiceLifecycle::Starting);
    let state = states.get("api").unwrap();
    assert_eq!(state.lifecycle, ServiceLifecycle::Starting);
    assert_eq!(state.detail.as_deref(), Some("error"));
    assert_eq!(state.last_error.as_deref(), Some("boom"));
    set_lifecycle(&mut states, "fresh", ServiceLifecycle::Restarting);
    assert_eq!(*states.get("fresh").unwrap(), RuntimeServiceState::new(ServiceLifecycle::Restarting));
}

#[test]
fn unknown_service_state_is_unknown() {
    let states = Table::new();
    assert_eq!(state_or_unknown(&states, "x").lifecycle, ServiceLifecycle::Unknown);
}

#[test]
fn windows_query_result_is_recorded_only_on_success() {
    let mut states = Table::new();
    let s = record_windows_query(&mut states, "redis", Ok(ServiceLifecycle::Running));
    assert_eq!(s, RuntimeServiceState::new(ServiceLifecycle::Running));
    assert_eq!(states.get("redis").unwrap().lifecycle, ServiceLifecycle::Running);
    let s = record_windows_query(&mut states, "redis", Err("sc.exe query failed: x".to_string()));
    assert_eq!(s.lifecycle, ServiceLifecycle::Failed);
    assert_eq!(s.detail.as_deref(), Some("error"));
    assert_eq!(states.get("redis").unwrap().lifecycle, ServiceLifecycle::Running);
}

#[test]
fn start_plan_uses_override_then_command() {
    let mut svc = service("metro", ServiceType::ReactNative);
    let processes: Table<u32> = Table::new();
    let mut states = Table::new();
    let plan = begin_start(&processes, &mut states, &svc, "C:/logs/metro.log", None).unwrap();
    assert_eq!(plan.program, "npx");
    assert_eq!(plan.args, vec!["react-native", "start"]);
    assert!(plan.keep_stdin);
    assert_eq!(plan.log_path, "C:/logs/metro.log");
    assert_eq!(states.get("metro").unwrap().lifecycle, ServiceLifecycle::Starting);

    let over = vec!["start".to_string(), "--reset-cache".to_string()];
    let plan = begin_start(&processes, &mut states, &svc, "l", Some(("yarn", &over))).unwrap();
    assert_eq!(plan.program, "yarn");
    assert_eq!(plan.args, over);

    svc.command = None;
    assert_eq!(
        begin_start(&processes, &mut states, &svc, "l", None),
        Err(ProcessError::CommandMissing)
    );
    assert_eq!(ProcessError::CommandMissing.message(), "process command is missing");
}

#[test]
fn running_service_cannot_start_twice_and_stops_by_pid() {
    let svc = service("api", ServiceType::Process);
    let mut processes: Table<u32> = Table::new();
    let mut states = Table::new();
    begin_start(&processes, &mut states, &svc, "l", None).unwrap();
    start_succeeded(&mut processes, &mut states, "api", 4242);
    assert_eq!(states.get("api").unwrap().pid, Some(4242));
    assert_eq!(states.get("api").unwrap().lifecycle, ServiceLifecycle::Running);

    let again = begin_start(&processes, &mut states, &svc, "l", None).unwrap_err();
    assert_eq!(again.message(), "service 'api' is already running");
    assert_eq!(states.get("api").unwrap().lifecycle, ServiceLifecycle::Running);

    let plan = begin_stop(&processes, &mut states, &svc).unwrap();
    assert_eq!(plan, StopPlan { pid: 4242, kill_tree: true });
    assert_eq!(states.get("api").unwrap().lifecycle, ServiceLifecycle::Stopping);
    assert_eq!(states.get("api").unwrap().pid, Some(4242));

    let other = service("web", ServiceType::Process);
    assert_eq!(
        begin_stop(&processes, &mut states, &other).unwrap_err().message(),
        "service 'web' is not running"
    );
}

#[test]
fn exit_after_stop_is_stopped_and_unexpected_exit_fails() {
    let mut processes: Table<u32> = Table::new();
    let mut states = Table::new();
    start_succeeded(&mut processes, &mut states, "api", 7);
    set_lifecycle(&mut states, "api", ServiceLifecycle::Stopping);
    process_exited(&mut processes, &mut states, "api", 7, false, "exit code: 1");
    assert!(!processes.contains_key("api"));
    let state = states.get("api").unwrap();
    assert_eq!(state.lifecycle, ServiceLifecycle::Stopped);
    assert_eq!(state.last_error.as_deref(), Some("process exited with exit code: 1"));

    start_succeeded(&mut processes, &mut states, "api", 8);
    process_exited(&mut processes, &mut states, "api", 8, false, "exit code: 3");
    assert_eq!(states.get("api").unwrap().lifecycle, ServiceLifecycle::Failed);

    start_succeeded(&mut processes, &mut states, "api", 9);
    process_exited(&mut processes, &mut states, "api", 9, true, "exit code: 0");
    assert_eq!(*states.get("api").unwrap(), RuntimeServiceState::new(ServiceLifecycle::Stopped));
}

#[test]
fn exit_of_a_replaced_process_changes_nothing() {
    let mut processes: Table<u32> = Table::new();
    let mut states = Table::new();
    start_succeeded(&mut processes, &mut states, "api", 10);
    process_exited(&mut processes, &mut states, "api", 9, false, "exit code: 1");
    assert_eq!(processes.get("api"), Some(&10));
    assert_eq!(states.get("api").unwrap().lifecycle, ServiceLifecycle::Running);
}

#[test]
fn failures_are_recorded() {
    let mut states = Table::new();
    set_failed(&mut states, "api", "failed to start".to_string());
    assert_eq!(states.get("api").unwrap().last_error.as_deref(), Some("failed to start"));
    assert_eq!(states.get("api").unwrap().detail, None);
    wait_failed(&mut states, "api", 5, "os error");
    let state = states.get("api").unwrap();
    assert_eq!(state.pid, Some(5));
    assert_eq!(state.last_error.as_deref(), Some("failed to wait for process: os error"));
}

#[test]
fn stop_all_covers_running_configured_services() {
    let services = vec![service("a", ServiceType::Process), service("b", ServiceType::Process)];
    let mut processes: Table<u32> = Table::new();
    let mut states = Table::new();
    start_succeeded(&mut processes, &mut states, "b", 2);
    start_succeeded(&mut processes, &mut states, "ghost", 3);
    assert_eq!(running_services(&processes, &services), vec![1]);
}

#[test]
fn taskkill_ends_the_whole_tree() {
    assert_eq!(kill_tree_args(1234), vec!["/PID", "1234", "/T", "/F"]);
}

#[test]
fn actions_are_planned_by_kind_and_lifecycle() {
    let mut svc = service("metro", ServiceType::ReactNative);
    svc.actions.push(action("reload", ActionWhen::Running, ActionKind::Stdin));
    let mut restart = action("reset", ActionWhen::Any, ActionKind::Restart);
    restart.command = Some("npx".to_string());
    restart.args = vec!["react-native".to_string(), "start".to_string(), "--reset-cache".to_string()];
    svc.actions.push(restart);

    assert_eq!(
        plan_action(&svc, "reload", ServiceLifecycle::Running),
        Ok(ActionPlan::WriteStdin { input: "r".to_string() })
    );
    let refused = plan_action(&svc, "reload", ServiceLifecycle::Stopped).unwrap_err();
    assert_eq!(refused.message(), "action 'reload' is not available while service is Stopped");
    match plan_action(&svc, "reset", ServiceLifecycle::Failed).unwrap() {
        ActionPlan::Restart { command, args } => {
            assert_eq!(command.as_deref(), Some("npx"));
            assert_eq!(args.len(), 3);
        }
        other => panic!("unexpected plan {other:?}"),
    }
    assert_eq!(
        plan_action(&svc, "missing", ServiceLifecycle::Running).unwrap_err().message(),
        "action 'missing' does not exist"
    );
}

#[test]
fn react_native_commands_need_a_running_react_native_service() {
    let rn = service("metro", ServiceType::ReactNative);
    let plain = service("api", ServiceType::Process);
    assert!(require_react_native_running(&rn, ServiceLifecycle::Running).is_ok());
    assert_eq!(
        require_react_native_running(&rn, ServiceLifecycle::Stopped).unwrap_err().message(),
        "react-native command is not available while service is Stopped"
    );
    assert_eq!(
        require_react_native_running(&plain, ServiceLifecycle::Running).unwrap_err().message(),
        "service 'api' is not a react-native service"
    );
}

#[test]
fn lookups_and_launch_list() {
    let mut services = vec![service("a", ServiceType::Process), service("b", ServiceType::WindowsService)];
    services[1].process.start_on_launch = true;
    assert_eq!(require_service(&services, "b"), Ok(1));
    assert_eq!(
        require_service(&services, "c").unwrap_err().message(),
        "service 'c' does not exist"
    );
    assert_eq!(launch_services(&services), vec!["b".to_string()]);
    assert_eq!(windows_service_name(&services[1]), Err(ServiceError::WindowsServiceNameMissing));
    assert_eq!(
        ServiceError::WindowsServiceNameMissing.message(),
        "windowsService.serviceName is missing"
    );
}

#[test]
fn stdin_needs_a_running_process_that_kept_it() {
    assert_eq!(
        check_stdin("api", None).unwrap_err().message(),
        "service 'api' is not running"
    );
    assert_eq!(
        check_stdin("api", Some(false)).unwrap_err().message(),
        "service 'api' does not retain stdin"
    );
    assert!(check_stdin("api", Some(true)).is_ok());
}

#[test]
fn windows_services_switch_through_sc_with_their_lifecycles() {
    assert_eq!(plan_switch(&service("api", ServiceType::Process), Switch::Start), Ok(SwitchPlan::Process));
    let mut redis = service("redis", ServiceType::WindowsService);
    assert_eq!(
        plan_switch(&redis, Switch::Stop).unwrap_err().message(),
        "windowsService.serviceName is missing"
    );
    redis.windows_service = Some(WindowsServiceOptions { service_name: "Redis".to_string() });
    assert_eq!(
        plan_switch(&redis, Switch::Start),
        Ok(SwitchPlan::WindowsService {
            name: "Redis".to_string(),
            during: ServiceLifecycle::Starting,
            after: ServiceLifecycle::Running,
        })
    );
    assert_eq!(
        plan_switch(&redis, Switch::Stop),
        Ok(SwitchPlan::WindowsService {
            name: "Redis".to_string(),
            during: ServiceLifecycle::Stopping,
            after: ServiceLifecycle::Stopped,
        })
    );
}
