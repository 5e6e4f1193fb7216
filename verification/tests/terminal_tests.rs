use devdock::terminal::{
    build_tail_command, powershell_single_quote, tail_launch, LEGACY_TAIL_COMMAND,
};
use devdock::config::TerminalConfig;

#[test]
fn escapes_powershell_single_quotes() {
    assert_eq!(powershell_single_quote("C:/Bob's/log.txt"), "C:/Bob''s/log.txt");
}

#[test]
fn legacy_tail_command_only_loads_last_300_lines() {
    assert_eq!(
        build_tail_command(LEGACY_TAIL_COMMAND, "C:/logs/api.log"),
        "Get-Content -Path 'C:/logs/api.log' -Tail 300 -Wait"
    );
}

#[test]
fn custom_tail_command_is_preserved() {
    assert_eq!(
        build_tail_command("custom-tail '{logFile}'", "C:/logs/api.log"),
        "custom-tail 'C:/logs/api.log'"
    );
}

#[test]
fn quoting_round_trips() {
    let plain = "C:/it's Bob's ''dir''/log.txt";
    let quoted = powershell_single_quote(plain);
    assert_eq!(quoted, "C:/it''s Bob''s ''''dir''''/log.txt");
    assert_eq!(quoted.replace("''", "'"), plain);
}

#[test]
fn paths_with_spaces_stay_inside_quotes() {
    assert_eq!(
        build_tail_command(LEGACY_TAIL_COMMAND, r"C:\Program Files\Bob's app\log.txt"),
        r"Get-Content -Path 'C:\Program Files\Bob''s app\log.txt' -Tail 300 -Wait"
    );
}

#[test]
fn terminal_launch_opens_a_titled_tab() {
    let terminal = TerminalConfig::default();
    let launch = tail_launch(&terminal, "API Server", "C:/logs/api.log");
    assert_eq!(launch.program, "wt.exe");
    assert_eq!(
        launch.args,
        vec![
            "new-tab",
            "--title",
            "API Server",
            "powershell",
            "-NoExit",
            "-Command",
            "Get-Content -Path 'C:/logs/api.log' -Tail 300 -Wait"
        ]
    );
}

#[test]
fn quoting_adds_one_character_per_quote_and_pairs_them() {
    let quoted = powershell_single_quote("it's 'x'''");
    assert_eq!(quoted, "it''s ''x''''''");
    assert_eq!(quoted.chars().count(), "it's 'x'''".chars().count() + 5);
}
