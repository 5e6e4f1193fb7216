use devdock::paths::{config_dir_in, config_path_in, join};

#[test]
fn join_inserts_a_backslash_after_a_plain_directory() {
    assert_eq!(join(r"C:\logs", "api.log"), r"C:\logs\api.log");
    assert_eq!(join(r"C:\logs\", "api.log"), r"C:\logs\api.log");
    assert_eq!(join("C:/logs/", "api.log"), "C:/logs/api.log");
    assert_eq!(join("", "api.log"), "api.log");
}

#[test]
fn join_follows_a_bare_drive_directly() {
    assert_eq!(join("C:", "api.log"), "C:api.log");
}

#[test]
fn join_with_a_rooted_name_keeps_only_the_drive() {
    assert_eq!(join(r"C:\logs", "/x.log"), "C:/x.log");
    assert_eq!(join(r"\\server\share\logs", r"\x.log"), r"\\server\share\x.log");
    assert_eq!(join("logs", r"\x.log"), r"\x.log");
}

#[test]
fn join_with_a_prefixed_name_replaces_the_base() {
    assert_eq!(join(r"C:\logs", r"D:\x.log"), r"D:\x.log");
    assert_eq!(join(r"C:\logs", "D:x.log"), "D:x.log");
    assert_eq!(join(r"C:\logs", r"\\server\share\x.log"), r"\\server\share\x.log");
}

#[test]
fn join_onto_a_verbatim_base_resolves_dots() {
    assert_eq!(join(r"\\?\C:\logs", "api.log"), r"\\?\C:\logs\api.log");
    assert_eq!(join(r"\\?\C:\logs\", "api.log"), r"\\?\C:\logs\api.log");
    assert_eq!(join(r"\\?\C:\logs", r"a\..\.\b.log"), r"\\?\C:\logs\b.log");
    assert_eq!(join(r"\\?\C:\logs", "/x.log"), r"\\?\C:\x.log");
}

#[test]
fn config_locations_sit_under_app_data() {
    assert_eq!(config_dir_in(r"C:\Users\bob\AppData\Roaming"), r"C:\Users\bob\AppData\Roaming\DevDock");
    assert_eq!(
        config_path_in(r"C:\Users\bob\AppData\Roaming"),
        r"C:\Users\bob\AppData\Roaming\DevDock\devdock.config.json"
    );
}
