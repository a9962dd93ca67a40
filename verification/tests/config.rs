use lca_launcher::config::{
    default_data_dir, join, resolve_base_dir, resolve_config, resolve_data_dir, resolve_port,
    Config, ConfigError, APP_DIR_NAME, DATA_DIR_NAME, DATA_DIR_VAR, DEFAULT_PORT, PORT_VAR,
    SEPARATOR, STOCKFISH_PATH_VAR,
};

fn text(s: &str) -> Option<String> {
    Some(s.to_string())
}

#[test]
fn port_unset_gives_default() {
    assert_eq!(resolve_port(None), "42069");
    assert_eq!(DEFAULT_PORT, "42069");
}

#[test]
fn port_set_is_taken_as_it_is() {
    assert_eq!(resolve_port(text("8080")), "8080");
    assert_eq!(resolve_port(text("not a number")), "not a number");
}

#[test]
fn port_set_to_nothing_gives_default() {
    assert_eq!(resolve_port(text("")), "42069");
}

#[test]
fn variable_and_directory_names() {
    assert_eq!(PORT_VAR, "PORT");
    assert_eq!(DATA_DIR_VAR, "DATA_DIR");
    assert_eq!(STOCKFISH_PATH_VAR, "STOCKFISH_PATH");
    assert_eq!(APP_DIR_NAME, "LocalChessAnalyzer");
    assert_eq!(DATA_DIR_NAME, "data");
    assert_eq!(SEPARATOR, '/');
}

#[test]
fn base_dir_prefers_app_data() {
    assert_eq!(resolve_base_dir(text("/app"), text("/home/u")), Ok("/app".to_string()));
    assert_eq!(resolve_base_dir(text("/app"), None), Ok("/app".to_string()));
}

#[test]
fn base_dir_falls_back_to_home() {
    assert_eq!(resolve_base_dir(None, text("/home/u")), Ok("/home/u".to_string()));
}

#[test]
fn base_dir_fails_without_either() {
    assert_eq!(resolve_base_dir(None, None), Err(ConfigError::NoBaseDirectory));
}

#[test]
fn join_puts_one_separator_between() {
    assert_eq!(join("/etc", "passwd"), "/etc/passwd");
    assert_eq!(join("/etc/", "passwd"), "/etc/passwd");
    assert_eq!(join("", "passwd"), "passwd");
    assert_eq!(join("/", "passwd"), "/passwd");
    assert_eq!(join("/h\u{e9}", "x"), "/h\u{e9}/x");
}

#[test]
fn default_data_dir_lies_below_base() {
    assert_eq!(default_data_dir("/home/u/.local/share/app"), "/home/u/.local/share/app/LocalChessAnalyzer/data");
    assert_eq!(default_data_dir("/srv/"), "/srv/LocalChessAnalyzer/data");
    assert_eq!(default_data_dir(""), "LocalChessAnalyzer/data");
    for base in ["/a", "/a/", "rel", "/with space/x", "C:\\Users\\u"] {
        let dir = default_data_dir(base);
        assert!(dir.starts_with(base));
        assert!(dir.ends_with("LocalChessAnalyzer/data"));
    }
}

#[test]
fn data_dir_unset_gives_default_below_base() {
    let dir = resolve_data_dir(None, "/home/u");
    assert_eq!(dir, "/home/u/LocalChessAnalyzer/data");
}

#[test]
fn data_dir_set_is_taken_as_it_is() {
    assert_eq!(resolve_data_dir(text("/tmp/x"), "/home/u"), "/tmp/x");
    assert_eq!(resolve_data_dir(text(""), "/home/u"), "");
}

#[test]
fn config_with_nothing_set() {
    let config = resolve_config(None, None, text("/app"), text("/home/u"));
    assert_eq!(
        config,
        Ok(Config { port: "42069".to_string(), data_dir: "/app/LocalChessAnalyzer/data".to_string() })
    );
}

#[test]
fn config_with_both_set() {
    let config = resolve_config(text("8080"), text("/tmp/x"), None, text("/home/u"));
    assert_eq!(config, Ok(Config { port: "8080".to_string(), data_dir: "/tmp/x".to_string() }));
}

#[test]
fn config_uses_home_when_app_data_is_missing() {
    let config = resolve_config(None, None, None, text("/home/u"));
    assert_eq!(
        config,
        Ok(Config { port: "42069".to_string(), data_dir: "/home/u/LocalChessAnalyzer/data".to_string() })
    );
}

#[test]
fn config_fails_without_base_dir_even_with_data_dir_set() {
    assert_eq!(resolve_config(None, None, None, None), Err(ConfigError::NoBaseDirectory));
    assert_eq!(
        resolve_config(text("8080"), text("/tmp/x"), None, None),
        Err(ConfigError::NoBaseDirectory)
    );
}
