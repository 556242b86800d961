use std::sync::OnceLock;

use session_auth::config::{level_of, parse_port, Config, ConfigError, LogLevel, Settings};
use session_auth::docker::DockerMariadbPayload;
use session_auth::errors::{ApiError, ServiceError, STATUS_BAD_REQUEST, STATUS_NOT_FOUND};
use session_auth::user::{describe, validation_error, CreateUser, LoginPayload, UserDto, UserRow};

#[test]
fn login_payload_lowercases_email() {
    let p = LoginPayload::new("Alice@Example.COM", "pw".to_string());
    assert_eq!(p.email, "alice@example.com");
    assert_eq!(p.password, "pw");
}

#[test]
fn login_payload_rules() {
    assert!(LoginPayload::new("a@b.com", "x".to_string()).validate().is_empty());
    let errs = LoginPayload::new("nope", String::new()).validate();
    assert_eq!(errs.len(), 2);
    assert_eq!(errs[0].field, "email");
    assert_eq!(errs[0].message, "Invalid email address");
    assert_eq!(errs[1].field, "password");
    assert_eq!(errs[1].message, "Password cannot be empty");
    assert_eq!(describe(&errs), "email: Invalid email address; password: Password cannot be empty");
    let e = validation_error(&errs);
    assert_eq!(e.status, STATUS_BAD_REQUEST);
    assert_eq!(e.message, "Validation error");
    let only_email = LoginPayload::new("", "x".to_string()).validate();
    assert_eq!(describe(&only_email), "email: Invalid email address");
    assert_eq!(describe(&Vec::new()), "");
}

#[test]
fn create_user_rules() {
    assert!(CreateUser::new("Bo".to_string(), "bo@x.org", "12345678".to_string()).validate().is_empty());
    let errs = CreateUser::new(String::new(), "BO@X.ORG", "1234567".to_string()).validate();
    assert_eq!(errs.len(), 2);
    assert_eq!(errs[0].message, "Name cannot be empty");
    assert_eq!(errs[1].message, "Password must be at least 8 characters");
    assert_eq!(CreateUser::new("B".to_string(), "BO@X.ORG", "x".to_string()).email, "bo@x.org");
}

#[test]
fn mariadb_payload_rules() {
    let mut p = DockerMariadbPayload {
        name: "db".to_string(),
        root_password: "root".to_string(),
        database_name: None,
        user: None,
        password: None,
        port: Some(3306),
    };
    assert!(p.validate().is_empty());
    p.root_password = String::new();
    let errs = p.validate();
    assert_eq!(errs.len(), 1);
    assert_eq!(errs[0].field, "root_password");
}

#[test]
fn user_dto_drops_password() {
    let row = UserRow { id: 1, name: "N".to_string(), email: "e@x.io".to_string(), password: "h".to_string() };
    let dto = UserDto::from_row(&row);
    assert_eq!((dto.id, dto.name.as_str(), dto.email.as_str()), (1, "N", "e@x.io"));
    let borrowed = UserDto::from(&row);
    assert_eq!(borrowed.name, "N");
    let owned = UserDto::from(row);
    assert_eq!(owned.email, "e@x.io");
}

#[test]
fn service_error_builders() {
    let e = ServiceError::not_found("gone").with_details("row 3".to_string());
    assert_eq!(e.status, STATUS_NOT_FOUND);
    assert_eq!(e.message, "gone");
    assert_eq!(e.details.as_deref(), Some("row 3"));
    assert_eq!(e.to_string(), "gone");
    let api = ApiError::from(e);
    assert_eq!(api.status(), 404);
    assert_eq!(api.error, "gone");
    assert_eq!(api.details.as_deref(), Some("row 3"));
    let direct = ApiError::new(418, "teapot".to_string(), None);
    assert_eq!(direct.status, 418);
}

#[test]
fn port_parsing() {
    assert_eq!(parse_port("3000"), Some(3000));
    assert_eq!(parse_port("+80"), Some(80));
    assert_eq!(parse_port("0"), Some(0));
    assert_eq!(parse_port("65535"), Some(65535));
    assert_eq!(parse_port("65536"), None);
    assert_eq!(parse_port("99999999999"), None);
    assert_eq!(parse_port(""), None);
    assert_eq!(parse_port("+"), None);
    assert_eq!(parse_port("-1"), None);
    assert_eq!(parse_port("12a"), None);
    assert_eq!(parse_port(" 1"), None);
    assert_eq!(parse_port("007"), Some(7));
}

#[test]
fn log_levels() {
    assert_eq!(Config::get_log_level(None), LogLevel::Info);
    assert_eq!(Config::get_log_level(Some("DEBUG")), LogLevel::Debug);
    assert_eq!(Config::get_log_level(Some("Warn")), LogLevel::Warn);
    assert_eq!(Config::get_log_level(Some("trace")), LogLevel::Trace);
    assert_eq!(Config::get_log_level(Some("ERROR")), LogLevel::Error);
    assert_eq!(Config::get_log_level(Some("verbose")), LogLevel::Info);
    assert_eq!(level_of("DEBUG"), LogLevel::Info);
}

fn settings(url: Option<&str>) -> Settings {
    Settings {
        database_url: url.map(|s| s.to_string()),
        host: None,
        port: None,
        log_level: None,
        dockerfile_path: None,
    }
}

#[test]
fn config_defaults() {
    let c = Config::new(&settings(Some("postgres://u:p@localhost/db"))).unwrap();
    assert_eq!(c.database_url, "postgres://u:p@localhost/db");
    assert_eq!(c.host, "0.0.0.0");
    assert_eq!(c.port, 3000);
    assert_eq!(c.log_level, LogLevel::Info);
    assert_eq!(c.dockerfile_path, "./dockerfiles/");
}

#[test]
fn config_errors() {
    assert_eq!(Config::new(&settings(None)).unwrap_err(), ConfigError::MissingDatabaseUrl);
    assert_eq!(Config::new(&settings(Some("not a url"))).unwrap_err(), ConfigError::InvalidDatabaseUrl);
    let mut s = settings(Some("postgres://localhost/db"));
    s.port = Some("http".to_string());
    assert_eq!(Config::new(&s).unwrap_err(), ConfigError::PortNotANumber);
    s.port = Some("0".to_string());
    assert_eq!(Config::new(&s).unwrap_err(), ConfigError::PortOutOfRange);
    s.port = Some("8080".to_string());
    s.host = Some(String::new());
    assert_eq!(Config::new(&s).unwrap_err(), ConfigError::EmptyHost);
    s.host = Some("127.0.0.1".to_string());
    s.log_level = Some("DEBUG".to_string());
    let c = Config::new(&s).unwrap();
    assert_eq!((c.port, c.host.as_str(), c.log_level), (8080, "127.0.0.1", LogLevel::Debug));
}

#[test]
fn config_instance_loads_once() {
    let cell = OnceLock::new();
    let first = Config::instance(&cell, &settings(Some("postgres://first/db"))).unwrap();
    assert_eq!(first.database_url, "postgres://first/db");
    let second = Config::instance(&cell, &settings(Some("postgres://second/db"))).unwrap();
    assert_eq!(second.database_url, "postgres://first/db");
}
