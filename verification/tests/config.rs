use docket::config::{
    launch, parse_port, server_port, Config, Launch, DATABASE_FILE, DATABASE_VARIABLE, DEFAULT_PORT, PORT_VARIABLE,
};
use std::path::PathBuf;

#[test]
fn ports_are_read_as_decimal_numbers() {
    assert_eq!(parse_port("3000"), Some(3000));
    assert_eq!(parse_port("0"), Some(0));
    assert_eq!(parse_port("+8080"), Some(8080));
    assert_eq!(parse_port("65535"), Some(65535));
    assert_eq!(parse_port("0000065535"), Some(65535));
    assert_eq!(parse_port("65536"), None);
    assert_eq!(parse_port("99999999999999999999999"), None);
    assert_eq!(parse_port(""), None);
    assert_eq!(parse_port("+"), None);
    assert_eq!(parse_port("-1"), None);
    assert_eq!(parse_port("++1"), None);
    assert_eq!(parse_port(" 80"), None);
    assert_eq!(parse_port("80 "), None);
    assert_eq!(parse_port("8_0"), None);
    assert_eq!(parse_port("8a"), None);
    assert_eq!(parse_port("٣"), None);
}

#[test]
fn ports_are_read_as_the_standard_library_reads_them() {
    for text in ["1", "+1", "007", "65535", "65536", "70000", "", "+", "-0", "1 ", "x", "+-1", "12345678"] {
        assert_eq!(parse_port(text), text.parse::<u16>().ok());
    }
}

#[test]
fn settings_prefer_the_override() {
    let config = Config::resolve(Some(PathBuf::from("/tmp/x.db")), Some(PathBuf::from("/home/docket.db")), None)
        .unwrap();
    assert_eq!(config.database_path, PathBuf::from("/tmp/x.db"));
    assert_eq!(config.server_port, 3000);
    assert_eq!(DEFAULT_PORT, 3000);
    let config = Config::resolve(None, Some(PathBuf::from("/home/docket.db")), Some("8080")).unwrap();
    assert_eq!(config.database_path, PathBuf::from("/home/docket.db"));
    assert_eq!(config.server_port, 8080);
    let config = Config::resolve(Some(PathBuf::from("a")), None, Some("eighty")).unwrap();
    assert_eq!(config.server_port, 3000);
    assert!(Config::resolve(None, None, Some("1")).is_none());
}

#[test]
fn the_port_given_with_the_command_wins() {
    assert_eq!(server_port(Some(1), Some("2"), 3), 1);
    assert_eq!(server_port(None, Some("2"), 3), 2);
    assert_eq!(server_port(None, Some("two"), 3), 3);
    assert_eq!(server_port(None, None, 3), 3);
}

#[test]
fn the_program_starts_as_server_or_terminal() {
    assert_eq!(launch(Some(Some(9)), Some(8), Some("7"), 6), Launch::Server(9));
    assert_eq!(launch(Some(None), Some(8), Some("7"), 6), Launch::Server(7));
    assert_eq!(launch(Some(None), None, None, 6), Launch::Server(6));
    assert_eq!(launch(None, Some(8), Some("7"), 6), Launch::Server(8));
    assert_eq!(launch(None, None, Some("7"), 6), Launch::Terminal);
}

#[test]
fn test_config_load() {
    let directory = PathBuf::from("/home/user/.config/docket");
    let config = Config::resolve(None, Some(directory.join(DATABASE_FILE)), None).expect("Failed to load config");
    assert!(config.database_path.to_string_lossy().contains("docket.db"));
    assert!(config.server_port > 0);
}

#[test]
fn the_environment_is_read_under_these_names() {
    assert_eq!(DATABASE_VARIABLE, "DOCKET_DB_PATH");
    assert_eq!(PORT_VARIABLE, "DOCKET_PORT");
    assert_eq!(DATABASE_FILE, "docket.db");
}
