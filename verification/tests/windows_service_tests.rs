use devdock::logs::{app_error_line, app_error_log_path, output_read_error_line};
use devdock::paths::{config_dir_in, config_path_in, join};
use devdock::service::ServiceLifecycle;
use devdock::windows_service::{output_text, query, sc_args, start, stop, CommandOutput};

fn output(success: bool, stdout: &str, stderr: &str) -> CommandOutput {
    CommandOutput { success, stdout: stdout.as_bytes().to_vec(), stderr: stderr.as_bytes().to_vec() }
}

#[test]
fn query_reads_the_state_word() {
    let running = "SERVICE_NAME: Redis\n        STATE              : 4  RUNNING\n";
    assert_eq!(query(&output(true, running, "")), Ok(ServiceLifecycle::Running));
    assert_eq!(query(&output(true, "state: 2 start_pending", "")), Ok(ServiceLifecycle::Starting));
    assert_eq!(query(&output(true, "STATE : 3 STOP_PENDING", "")), Ok(ServiceLifecycle::Stopping));
    assert_eq!(query(&output(true, "STATE : 1 STOPPED", "")), Ok(ServiceLifecycle::Stopped));
    assert_eq!(query(&output(true, "PAUSED", "")), Ok(ServiceLifecycle::Unknown));
}

#[test]
fn failed_commands_report_their_output() {
    let e = query(&output(false, "  [SC] OpenService FAILED 1060:\n", "\n oops ")).unwrap_err();
    assert_eq!(e.message(), "sc.exe query failed: [SC] OpenService FAILED 1060: oops");
    assert_eq!(start(&output(false, "", "denied")).unwrap_err().message(), "sc.exe start failed: denied");
    assert!(stop(&output(true, "", "")).is_ok());
    assert_eq!(output_text(&output(true, "", "")), "");
}

#[test]
fn sc_arguments() {
    assert_eq!(sc_args("query", "Redis"), vec!["query", "Redis"]);
}

#[test]
fn paths_join_with_backslash() {
    assert_eq!(join(r"C:\Users\a\AppData\Roaming", "DevDock"), r"C:\Users\a\AppData\Roaming\DevDock");
    assert_eq!(join("C:/x/", "y"), "C:/x/y");
    assert_eq!(join("C:", "y"), "C:y");
    assert_eq!(join("", "y"), "y");
    assert_eq!(config_dir_in(r"C:\AppData"), r"C:\AppData\DevDock");
    assert_eq!(config_path_in(r"C:\AppData"), r"C:\AppData\DevDock\devdock.config.json");
}

#[test]
fn app_errors_are_logged_as_lines() {
    assert_eq!(app_error_log_path(r"C:\logs"), r"C:\logs\devdock.log");
    assert_eq!(app_error_line("boom"), "[ERROR] boom");
    assert_eq!(output_read_error_line("broken pipe"), "[DevDock] failed to read process output: broken pipe");
}
