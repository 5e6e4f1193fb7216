use devdock::config::{
    default_app_name, default_log_dir_template, default_log_max_files, default_log_max_size_mb,
    default_restart_delay, default_tail_command, default_terminal_program, default_terminal_shell,
    default_true, expand_all, expand_basic, expand_service, resolve_config, service_keeps_stdin,
    service_log_path, validate, ActionConfig, ActionKind, ActionWhen, AppConfig, ConfigError,
    DevDockConfig, GroupConfig, LogOptions, ProcessOptions, ServiceConfig, ServiceType,
    StatusOptions, TerminalConfig, WindowsServiceOptions, EXAMPLE_CONFIG,
};
use serde_json::Value;

// Builds library values from JSON the way the configuration file is read,
// with the same defaults for omitted fields.

fn text(v: &Value, key: &str) -> Option<String> {
    v.get(key).and_then(|x| x.as_str()).map(|x| x.to_string())
}

fn texts(v: &Value, key: &str) -> Vec<String> {
    match v.get(key).and_then(|x| x.as_array()) {
        Some(items) => items.iter().map(|x| x.as_str().unwrap().to_string()).collect(),
        None => Vec::new(),
    }
}

fn terminal_from(v: Option<&Value>) -> TerminalConfig {
    match v {
        None => TerminalConfig::default(),
        Some(v) => TerminalConfig {
            program: text(v, "program").unwrap_or_else(default_terminal_program),
            shell: text(v, "shell").unwrap_or_else(default_terminal_shell),
            tail_command: text(v, "tailCommand").unwrap_or_else(default_tail_command),
        },
    }
}

fn app_from(v: Option<&Value>) -> AppConfig {
    match v {
        None => AppConfig::default(),
        Some(v) => AppConfig {
            name: text(v, "name").unwrap_or_else(default_app_name),
            log_dir: text(v, "logDir").unwrap_or_else(default_log_dir_template),
            terminal: terminal_from(v.get("terminal")),
        },
    }
}

fn process_from(v: Option<&Value>) -> ProcessOptions {
    match v {
        None => ProcessOptions::default(),
        Some(v) => ProcessOptions {
            kill_tree: v.get("killTree").and_then(|x| x.as_bool()).unwrap_or_else(default_true),
            restart_delay_ms: v
                .get("restartDelayMs")
                .and_then(|x| x.as_u64())
                .unwrap_or_else(default_restart_delay),
            start_on_launch: v.get("startOnLaunch").and_then(|x| x.as_bool()).unwrap_or(false),
            keep_stdin: v.get("keepStdin").and_then(|x| x.as_bool()),
        },
    }
}

fn log_from(v: &Value) -> LogOptions {
    LogOptions {
        file: text(v, "file"),
        rotate: v.get("rotate").and_then(|x| x.as_bool()).unwrap_or_else(default_true),
        max_size_mb: match v.get("maxSizeMb") {
            Some(x) => x.as_u64(),
            None => default_log_max_size_mb(),
        },
        max_files: match v.get("maxFiles") {
            Some(x) => x.as_u64().map(|n| n as u32),
            None => default_log_max_files(),
        },
    }
}

fn status_from(v: &Value) -> StatusOptions {
    let mut patterns = Vec::new();
    if let Some(map) = v.get("patterns").and_then(|x| x.as_object()) {
        for (detail, list) in map {
            let list = list.as_array().unwrap().iter().map(|x| x.as_str().unwrap().to_string());
            patterns.push((detail.clone(), list.collect()));
        }
    }
    StatusOptions { mode: text(v, "mode"), patterns }
}

fn action_from(v: &Value) -> ActionConfig {
    ActionConfig {
        id: text(v, "id").unwrap(),
        label: text(v, "label").unwrap(),
        when: match v.get("when").and_then(|x| x.as_str()) {
            Some("running") => ActionWhen::Running,
            Some("failed") => ActionWhen::Failed,
            Some("stopped") => ActionWhen::Stopped,
            _ => ActionWhen::Any,
        },
        kind: match v.get("kind").and_then(|x| x.as_str()) {
            Some("stdin") => ActionKind::Stdin,
            _ => ActionKind::Restart,
        },
        input: text(v, "input"),
        command: text(v, "command"),
        args: texts(v, "args"),
    }
}

fn service_from(v: &Value) -> ServiceConfig {
    ServiceConfig {
        id: text(v, "id").unwrap(),
        name: text(v, "name").unwrap(),
        service_type: match v.get("type").and_then(|x| x.as_str()).unwrap() {
            "process" => ServiceType::Process,
            "react-native" => ServiceType::ReactNative,
            _ => ServiceType::WindowsService,
        },
        group: text(v, "group").unwrap(),
        cwd: text(v, "cwd"),
        command: text(v, "command"),
        args: texts(v, "args"),
        env: match v.get("env").and_then(|x| x.as_object()) {
            Some(map) => {
                map.iter().map(|(k, x)| (k.clone(), x.as_str().unwrap().to_string())).collect()
            }
            None => Vec::new(),
        },
        process: process_from(v.get("process")),
        windows_service: v
            .get("windowsService")
            .map(|x| WindowsServiceOptions { service_name: text(x, "serviceName").unwrap() }),
        log: v.get("log").map(log_from),
        status: v.get("status").map(status_from),
        actions: match v.get("actions").and_then(|x| x.as_array()) {
            Some(items) => items.iter().map(action_from).collect(),
            None => Vec::new(),
        },
    }
}

fn config_from(v: &Value) -> DevDockConfig {
    DevDockConfig {
        version: v.get("version").unwrap().as_u64().unwrap() as u32,
        app: app_from(v.get("app")),
        groups: match v.get("groups").and_then(|x| x.as_array()) {
            Some(items) => items
                .iter()
                .map(|g| GroupConfig { id: text(g, "id").unwrap(), name: text(g, "name").unwrap() })
                .collect(),
            None => Vec::new(),
        },
        services: match v.get("services").and_then(|x| x.as_array()) {
            Some(items) => items.iter().map(service_from).collect(),
            None => Vec::new(),
        },
    }
}

fn parse_config(json: &str) -> DevDockConfig {
    config_from(&serde_json::from_str::<Value>(json).unwrap())
}

fn parse_service(json: &str) -> ServiceConfig {
    service_from(&serde_json::from_str::<Value>(json).unwrap())
}

#[test]
fn example_config_is_valid() {
    let config = parse_config(EXAMPLE_CONFIG);
    validate(&config).unwrap();
}

#[test]
fn react_native_keeps_stdin_by_default() {
    let config = parse_config(
        r#"{
          "version": 1,
          "groups": [{"id":"mobile","name":"Mobile"}],
          "services": [{
            "id":"metro",
            "name":"Metro",
            "type":"react-native",
            "group":"mobile",
            "command":"npx",
            "actions":[{"id":"reload","label":"Reload","kind":"stdin","input":"r"}]
          }]
        }"#,
    );
    validate(&config).unwrap();
}

#[test]
fn missing_log_uses_service_defaults() {
    let mut service = parse_service(
        r#"{
          "id":"api",
          "name":"API",
          "type":"process",
          "group":"backend",
          "command":"api.exe"
        }"#,
    );
    let log_dir = r"C:\logs";

    expand_service(&mut service, r"C:\app-data", r"C:\config", log_dir);

    let log = service.log.unwrap();
    assert_eq!(log.file.as_deref(), Some(r"C:\logs\api.log"));
    assert!(log.rotate);
    assert_eq!(log.max_size_mb, Some(10));
    assert_eq!(log.max_files, Some(1));
}

#[test]
fn partial_log_uses_field_defaults() {
    let mut service = parse_service(
        r#"{
          "id":"api",
          "name":"API",
          "type":"process",
          "group":"backend",
          "command":"api.exe",
          "log":{"file":"${LOG_DIR}/custom.log"}
        }"#,
    );
    let log_dir = r"C:\logs";

    expand_service(&mut service, r"C:\app-data", r"C:\config", log_dir);

    let log = service.log.unwrap();
    assert_eq!(log.file.as_deref(), Some(r"C:\logs/custom.log"));
    assert!(log.rotate);
    assert_eq!(log.max_size_mb, Some(10));
    assert_eq!(log.max_files, Some(1));
}

fn base_config() -> DevDockConfig {
    parse_config(
        r#"{
          "version": 1,
          "groups": [{"id":"backend","name":"Backend"},{"id":"mobile","name":"Mobile"}],
          "services": [
            {"id":"api","name":"API","type":"process","group":"backend","command":"npm"},
            {"id":"redis","name":"Redis","type":"windows-service","group":"backend",
             "windowsService":{"serviceName":"Redis"}}
          ]
        }"#,
    )
}

#[test]
fn validation_reports_unsupported_version() {
    let mut config = base_config();
    config.version = 2;
    let error = validate(&config).unwrap_err();
    assert_eq!(error, ConfigError::UnsupportedVersion { version: 2 });
    assert_eq!(error.message(), "unsupported config version 2; expected 1");
}

#[test]
fn validation_reports_blank_and_duplicate_group_ids() {
    let mut config = base_config();
    config.groups[1].id = " \t".to_string();
    assert_eq!(validate(&config), Err(ConfigError::GroupIdRequired { index: 1 }));
    assert_eq!(validate(&config).unwrap_err().message(), "groups[1].id is required");

    let mut config = base_config();
    config.groups[1].id = "backend".to_string();
    let error = validate(&config).unwrap_err();
    assert_eq!(error, ConfigError::DuplicateGroupId { index: 1, id: "backend".to_string() });
    assert_eq!(error.message(), "groups[1].id duplicates 'backend'");
}

#[test]
fn validation_reports_service_rules_in_order() {
    let mut config = base_config();
    config.services[1].id = "api".to_string();
    assert_eq!(
        validate(&config).unwrap_err().message(),
        "services[1].id duplicates 'api'"
    );

    let mut config = base_config();
    config.services[0].group = "nowhere".to_string();
    assert_eq!(
        validate(&config).unwrap_err().message(),
        "services[0].group 'nowhere' does not exist"
    );

    let mut config = base_config();
    config.services[0].command = Some(String::new());
    assert_eq!(
        validate(&config).unwrap_err().message(),
        "services[0].command is required for type process"
    );

    let mut config = base_config();
    config.services[1].windows_service = Some(WindowsServiceOptions { service_name: " ".into() });
    assert_eq!(
        validate(&config).unwrap_err().message(),
        "services[1].windowsService.serviceName is required for type windows-service"
    );

    let mut config = base_config();
    config.services[0].id = String::new();
    assert_eq!(validate(&config), Err(ConfigError::ServiceIdRequired { index: 0 }));
}

#[test]
fn validation_checks_stdin_actions() {
    let mut config = base_config();
    config.services[0].actions.push(ActionConfig {
        id: "reload".into(),
        label: "Reload".into(),
        when: ActionWhen::Running,
        kind: ActionKind::Stdin,
        input: Some("r".into()),
        command: None,
        args: Vec::new(),
    });
    assert_eq!(
        validate(&config).unwrap_err().message(),
        "services[0].actions[0].kind=stdin requires process stdin support"
    );
    config.services[0].process.keep_stdin = Some(true);
    assert!(validate(&config).is_ok());
    config.services[0].actions[0].input = None;
    assert_eq!(
        validate(&config).unwrap_err().message(),
        "services[0].actions[0].kind=stdin requires input"
    );
}

#[test]
fn keeps_stdin_follows_setting_then_type() {
    let config = base_config();
    let mut service = config.services[0].clone();
    assert!(!service_keeps_stdin(&service));
    service.service_type = ServiceType::ReactNative;
    assert!(service_keeps_stdin(&service));
    service.process.keep_stdin = Some(false);
    assert!(!service_keeps_stdin(&service));
}

#[test]
fn expansion_replaces_each_placeholder() {
    assert_eq!(
        expand_basic("${APP_DATA}/DevDock/logs", r"C:\Users\a\AppData\Roaming", "cfg"),
        r"C:\Users\a\AppData\Roaming/DevDock/logs"
    );
    assert_eq!(
        expand_all("${CONFIG_DIR}|${LOG_DIR}|${APP_DATA}|${LOG_DIR}", "A", "C", "L"),
        "C|L|A|L"
    );
    assert_eq!(expand_all("no placeholders", "A", "C", "L"), "no placeholders");
    assert_eq!(expand_all("${LOG_DIR", "A", "C", "L"), "${LOG_DIR");
}

#[test]
fn log_path_defaults_to_log_directory() {
    let config = base_config();
    let mut service = config.services[0].clone();
    assert_eq!(service_log_path(&service, r"C:\logs"), r"C:\logs\api.log");
    assert_eq!(service_log_path(&service, r"C:\logs\"), r"C:\logs\api.log");
    service.log = Some(LogOptions {
        file: Some("D:/x.log".into()),
        rotate: true,
        max_size_mb: None,
        max_files: None,
    });
    assert_eq!(service_log_path(&service, r"C:\logs"), "D:/x.log");
}

#[test]
fn resolving_expands_log_dir_and_services() {
    let mut config = base_config();
    config.services[0].args = vec!["--log=${LOG_DIR}/a.txt".to_string()];
    config.services[0].env = vec![("HOME".to_string(), "${APP_DATA}".to_string())];
    let loaded = resolve_config(config, "/tmp/devdock/devdock.config.json".to_string(), "/appdata")
        .unwrap();
    assert_eq!(loaded.log_dir, "/appdata/DevDock/logs");
    assert_eq!(loaded.config.app.log_dir, "/appdata/DevDock/logs");
    assert_eq!(loaded.config.services[0].args[0], "--log=/appdata/DevDock/logs/a.txt");
    assert_eq!(loaded.config.services[0].env[0].1, "/appdata");
    assert_eq!(
        loaded.config.services[0].log.as_ref().unwrap().file.as_deref(),
        Some(r"/appdata/DevDock/logs\api.log")
    );
}

#[test]
fn config_dir_is_the_directory_of_the_config_file() {
    let mut config = base_config();
    config.app.log_dir = "${CONFIG_DIR}/logs".to_string();
    config.services[0].cwd = Some("${CONFIG_DIR}".to_string());
    let loaded =
        resolve_config(config, "/home/me/DevDock/devdock.config.json".to_string(), "/appdata")
            .unwrap();
    assert_eq!(loaded.log_dir, "/home/me/DevDock/logs");
    assert_eq!(loaded.config.services[0].cwd.as_deref(), Some("/home/me/DevDock"));
    assert_eq!(loaded.config_path, "/home/me/DevDock/devdock.config.json");
    assert_eq!(
        resolve_config(base_config(), String::new(), "/appdata"),
        Err(ConfigError::ConfigPathHasNoParent)
    );
}

#[test]
fn defaults_match_documented_values() {
    let app = AppConfig::default();
    assert_eq!(app.name, "DevDock");
    assert_eq!(app.log_dir, "${APP_DATA}/DevDock/logs");
    assert_eq!(app.terminal.program, "wt.exe");
    assert_eq!(app.terminal.shell, "powershell");
    assert_eq!(app.terminal.tail_command, "Get-Content -Path '{logFile}' -Wait");
    let process = ProcessOptions::default();
    assert!(process.kill_tree);
    assert_eq!(process.restart_delay_ms, 1000);
    assert!(!process.start_on_launch);
    assert_eq!(process.keep_stdin, None);
    let log = LogOptions::default();
    assert_eq!(log.file, None);
    assert!(log.rotate);
    assert_eq!(log.max_size_mb, Some(10));
    assert_eq!(log.max_files, Some(1));
}

#[test]
fn default_log_file_follows_windows_join_for_a_rooted_id() {
    let mut service = parse_service(
        r#"{"id":"/x","name":"X","type":"process","group":"backend","command":"x.exe"}"#,
    );
    expand_service(&mut service, r"C:\app-data", r"C:\config", r"C:\logs");
    assert_eq!(service.log.unwrap().file.as_deref(), Some("C:/x.log"));
    let plain = parse_service(
        r#"{"id":"/x","name":"X","type":"process","group":"backend","command":"x.exe"}"#,
    );
    assert_eq!(service_log_path(&plain, r"C:\logs"), "C:/x.log");
}

#[test]
fn config_dir_follows_windows_paths() {
    let mut config = base_config();
    config.services[0].cwd = Some("${CONFIG_DIR}".to_string());
    let loaded = resolve_config(
        config,
        r"C:\Users\me\AppData\Roaming\DevDock\devdock.config.json".to_string(),
        r"C:\Users\me\AppData\Roaming",
    )
    .unwrap();
    assert_eq!(
        loaded.config.services[0].cwd.as_deref(),
        Some(r"C:\Users\me\AppData\Roaming\DevDock")
    );
    assert_eq!(
        resolve_config(base_config(), r"C:\".to_string(), "/appdata"),
        Err(ConfigError::ConfigPathHasNoParent)
    );
    let trailing = resolve_config(base_config(), r"C:\a\b\\".to_string(), r"C:\x").unwrap();
    assert_eq!(trailing.log_dir, r"C:\x/DevDock/logs");
}

#[test]
fn expanding_again_changes_nothing() {
    let mut service = parse_service(
        r#"{"id":"api","name":"API","type":"process","group":"backend","command":"${APP_DATA}\\api.exe","args":["--x"]}"#,
    );
    expand_service(&mut service, r"C:\app-data", r"C:\config", r"C:\logs");
    let once = service.clone();
    expand_service(&mut service, r"C:\app-data", r"C:\config", r"C:\logs");
    assert_eq!(service, once);
    assert_eq!(service.command.as_deref(), Some(r"C:\app-data\api.exe"));
}
