use devdock::config::{ActionConfig, ActionKind, ActionWhen, ProcessOptions, ServiceConfig, ServiceType};
use devdock::service::{RuntimeServiceState, ServiceLifecycle};
use devdock::tray::{
    create_icon, create_status_icon, parse_menu_event, service_menu, settings_entries,
    status_color, title_case, MenuCommand, MenuEntry, MenuError, ServiceOperation, QUIT_ITEM_ID,
};

fn service(id: &str, service_type: ServiceType) -> ServiceConfig {
    ServiceConfig {
        id: id.to_string(),
        name: "React Native Metro".to_string(),
        service_type,
        group: "mobile".to_string(),
        cwd: None,
        command: Some("npx".to_string()),
        args: Vec::new(),
        env: Vec::new(),
        process: ProcessOptions::default(),
        windows_service: None,
        log: None,
        status: None,
        actions: Vec::new(),
    }
}

fn ids(entries: &[MenuEntry]) -> Vec<String> {
    entries
        .iter()
        .map(|e| match e {
            MenuEntry::Item { id, .. } => id.clone(),
            MenuEntry::Separator => "-".to_string(),
        })
        .collect()
}

#[test]
fn status_colors_follow_menu_semantics() {
    assert_eq!(status_color(ServiceLifecycle::Running), [34, 197, 94, 255]);
    assert_eq!(status_color(ServiceLifecycle::Stopped), [255, 255, 255, 255]);
    assert_eq!(status_color(ServiceLifecycle::Failed), [239, 68, 68, 255]);
}

#[test]
fn stopped_service_offers_start_and_logs() {
    let svc = service("api", ServiceType::Process);
    let menu = service_menu(&svc, &RuntimeServiceState::new(ServiceLifecycle::Stopped));
    assert_eq!(menu.id, "service-menu:api");
    assert_eq!(menu.title, "React Native Metro - Stopped");
    assert_eq!(
        ids(&menu.entries),
        vec!["service:start:api", "-", "service:open-log:api", "service:open-log-terminal:api"]
    );
}

#[test]
fn running_react_native_service_offers_reload_and_actions() {
    let mut svc = service("rn-mobile", ServiceType::ReactNative);
    for (id, when) in [
        ("reload", ActionWhen::Running),
        ("restart-reset-cache", ActionWhen::Any),
        ("on-failure", ActionWhen::Failed),
    ] {
        svc.actions.push(ActionConfig {
            id: id.to_string(),
            label: id.to_uppercase(),
            when,
            kind: ActionKind::Restart,
            input: None,
            command: None,
            args: Vec::new(),
        });
    }
    let mut state = RuntimeServiceState::new(ServiceLifecycle::Running);
    state.detail = Some("ready".to_string());
    let menu = service_menu(&svc, &state);
    assert_eq!(menu.title, "React Native Metro - Running · Ready");
    assert_eq!(
        ids(&menu.entries),
        vec![
            "service:stop:rn-mobile",
            "service:restart:rn-mobile",
            "-",
            "service:open-log:rn-mobile",
            "service:open-log-terminal:rn-mobile",
            "-",
            "react-native:reload:rn-mobile",
            "react-native:open-dev-menu:rn-mobile",
            "-",
            "action:rn-mobile:restart-reset-cache",
        ]
    );
}

#[test]
fn failed_service_offers_start_restart_and_failure_actions() {
    let mut svc = service("api", ServiceType::Process);
    svc.actions.push(ActionConfig {
        id: "diagnose".to_string(),
        label: "Diagnose".to_string(),
        when: ActionWhen::Failed,
        kind: ActionKind::Restart,
        input: None,
        command: None,
        args: Vec::new(),
    });
    let menu = service_menu(&svc, &RuntimeServiceState::new(ServiceLifecycle::Failed));
    assert_eq!(
        ids(&menu.entries),
        vec![
            "service:start:api",
            "service:restart:api",
            "-",
            "service:open-log:api",
            "service:open-log-terminal:api",
            "-",
            "action:api:diagnose",
        ]
    );
}

#[test]
fn menu_ids_dispatch_back() {
    assert_eq!(parse_menu_event(QUIT_ITEM_ID), Ok(MenuCommand::Quit));
    let settings = settings_entries();
    assert_eq!(ids(&settings), vec!["app:reload-config", "app:open-config", "app:open-logs"]);
    assert_eq!(parse_menu_event("app:open-logs"), Ok(MenuCommand::OpenLogs));
    assert_eq!(
        parse_menu_event("service:open-log-terminal:a:b"),
        Ok(MenuCommand::Service {
            operation: ServiceOperation::OpenLogTerminal,
            service_id: "a:b".to_string()
        })
    );
    assert_eq!(
        parse_menu_event("action:api:reset:cache"),
        Ok(MenuCommand::Action { service_id: "api".to_string(), action_id: "reset:cache".to_string() })
    );
    assert_eq!(
        parse_menu_event("react-native:open-dev-menu:metro"),
        Ok(MenuCommand::ReactNative { service_id: "metro".to_string(), input: "d".to_string() })
    );
}

#[test]
fn bad_menu_ids_are_reported() {
    let e = parse_menu_event("service:start").unwrap_err();
    assert_eq!(e, MenuError::InvalidServiceEvent);
    assert_eq!(e.message(), "invalid service menu event");
    assert_eq!(
        parse_menu_event("service:jump:api").unwrap_err().message(),
        "unknown service operation 'jump'"
    );
    assert_eq!(
        parse_menu_event("react-native:shake:metro").unwrap_err().message(),
        "unknown react-native operation 'shake'"
    );
    assert_eq!(parse_menu_event("action:api").unwrap_err(), MenuError::InvalidActionEvent);
    assert_eq!(
        parse_menu_event("app:unknown").unwrap_err().message(),
        "unknown tray menu event 'app:unknown'"
    );
}

#[test]
fn title_case_capitalises_first_letter() {
    assert_eq!(title_case("building"), "Building");
    assert_eq!(title_case(""), "");
    assert_eq!(title_case("ßtraße"), "SStraße");
}

#[test]
fn status_icon_is_a_ringed_dot() {
    let icon = create_status_icon(ServiceLifecycle::Failed);
    assert_eq!(icon.len(), 16 * 16 * 4);
    let pixel = |x: usize, y: usize| icon[(y * 16 + x) * 4..(y * 16 + x) * 4 + 4].to_vec();
    assert_eq!(pixel(7, 7), vec![239, 68, 68, 255]);
    assert_eq!(pixel(7, 2), vec![148, 163, 184, 255]);
    assert_eq!(pixel(0, 0), vec![0, 0, 0, 0]);
}

#[test]
fn app_icon_draws_a_d() {
    let icon = create_icon();
    assert_eq!(icon.len(), 32 * 32 * 4);
    let pixel = |x: usize, y: usize| icon[(y * 32 + x) * 4..(y * 32 + x) * 4 + 4].to_vec();
    assert_eq!(pixel(9, 10), vec![255, 255, 255, 255]);
    assert_eq!(pixel(0, 0), vec![0, 0, 0, 0]);
    assert_eq!(pixel(15, 15), vec![37, 99, 235, 255]);
}

#[test]
fn every_menu_item_dispatches_to_its_service() {
    let mut svc = service("rn", ServiceType::ReactNative);
    svc.actions.push(ActionConfig {
        id: "clear:cache".to_string(),
        label: "Clear".to_string(),
        when: ActionWhen::Any,
        kind: ActionKind::Restart,
        input: None,
        command: None,
        args: Vec::new(),
    });
    for lifecycle in [ServiceLifecycle::Running, ServiceLifecycle::Failed, ServiceLifecycle::Stopped] {
        let menu = service_menu(&svc, &RuntimeServiceState::new(lifecycle));
        for entry in &menu.entries {
            if let MenuEntry::Item { id, .. } = entry {
                let target = match parse_menu_event(id).unwrap() {
                    MenuCommand::Service { service_id, .. } => service_id,
                    MenuCommand::Action { service_id, .. } => service_id,
                    MenuCommand::ReactNative { service_id, .. } => service_id,
                    other => panic!("unexpected command {other:?}"),
                };
                assert_eq!(target, "rn");
            }
        }
    }
}

#[test]
fn failed_service_title_names_its_lifecycle() {
    let mut svc = service("api", ServiceType::Process);
    svc.name = "API Server".to_string();
    let menu = service_menu(&svc, &RuntimeServiceState::new(ServiceLifecycle::Failed));
    assert_eq!(menu.title, "API Server - Failed");
}

#[test]
fn top_menu_lists_services_then_settings_then_quit() {
    let services = vec![service("api", ServiceType::Process), service("web", ServiceType::Process)];
    let entries = devdock::tray::top_menu(&services);
    let names: Vec<String> = entries
        .iter()
        .map(|e| match e {
            devdock::tray::TopEntry::Service(i) => format!("service {i}"),
            devdock::tray::TopEntry::Separator => "-".to_string(),
            devdock::tray::TopEntry::Settings { id, label } => format!("{id} {label}"),
            devdock::tray::TopEntry::Item { id, label } => format!("{id} {label}"),
        })
        .collect();
    assert_eq!(
        names,
        vec!["service 0", "service 1", "-", "app:settings Settings", "-", "app:quit Quit"]
    );
}
