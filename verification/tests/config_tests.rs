use retest_gate::config::AuthMode;
use retest_gate::config::build_params;
use retest_gate::config::parse_panel_size;
use retest_gate::error::ConfigError;

fn full_fields() -> (
    Option<String>,
    Option<String>,
    Option<String>,
    Option<String>,
    Option<String>,
    Option<String>,
) {
    (
        Some("db.example".to_string()),
        Some("tester".to_string()),
        Some("secret".to_string()),
        Some("Production".to_string()),
        Some("1433".to_string()),
        Some("SQL".to_string()),
    )
}

#[test]
fn all_fields_build_credential_params() {
    let (server, username, password, database, port, auth) = full_fields();
    let params = build_params(server, username, password, database, port, auth).unwrap();
    assert_eq!(params.server, "db.example");
    assert_eq!(params.username, "tester");
    assert_eq!(params.password, "secret");
    assert_eq!(params.database, Some("Production".to_string()));
    assert_eq!(params.port, Some(1433));
    assert_eq!(params.auth, AuthMode::Credential);
}

#[test]
fn missing_server_is_fatal() {
    let (_, username, password, database, port, auth) = full_fields();
    let r = build_params(None, username, password, database, port, auth);
    assert_eq!(r, Err(ConfigError::MissingServer));
}

#[test]
fn blank_server_counts_as_missing() {
    let (_, username, password, database, port, auth) = full_fields();
    let r = build_params(Some(String::new()), username, password, database, port, auth);
    assert_eq!(r, Err(ConfigError::MissingServer));
}

#[test]
fn missing_username_is_fatal() {
    let (server, _, password, database, port, auth) = full_fields();
    let r = build_params(server, None, password, database, port, auth);
    assert_eq!(r, Err(ConfigError::MissingUsername));
}

#[test]
fn missing_password_is_fatal() {
    let (server, username, _, database, port, auth) = full_fields();
    let r = build_params(server, username, None, database, port, auth);
    assert_eq!(r, Err(ConfigError::MissingPassword));
}

#[test]
fn database_is_optional() {
    let (server, username, password, _, port, auth) = full_fields();
    let params = build_params(server, username, password, None, port, auth).unwrap();
    assert_eq!(params.database, None);
}

#[test]
fn blank_database_means_server_default() {
    let (server, username, password, _, port, auth) = full_fields();
    let params =
        build_params(server, username, password, Some(String::new()), port, auth).unwrap();
    assert_eq!(params.database, None);
}

#[test]
fn port_is_optional() {
    let (server, username, password, database, _, auth) = full_fields();
    let params = build_params(server, username, password, database, None, auth).unwrap();
    assert_eq!(params.port, None);
}

#[test]
fn unreadable_port_is_fatal() {
    let (server, username, password, database, _, auth) = full_fields();
    let r = build_params(
        server,
        username,
        password,
        database,
        Some("not-a-port".to_string()),
        auth,
    );
    assert_eq!(r, Err(ConfigError::InvalidPort));
}

#[test]
fn out_of_range_port_is_fatal() {
    let (server, username, password, database, _, auth) = full_fields();
    let r = build_params(
        server,
        username,
        password,
        database,
        Some("70000".to_string()),
        auth,
    );
    assert_eq!(r, Err(ConfigError::InvalidPort));
}

#[test]
fn win_auth_selects_integrated() {
    let (server, username, password, database, port, _) = full_fields();
    let params = build_params(
        server,
        username,
        password,
        database,
        port,
        Some("WIN".to_string()),
    )
    .unwrap();
    assert_eq!(params.auth, AuthMode::Integrated);
}

#[test]
fn any_other_auth_selects_credentials() {
    let (server, username, password, database, port, _) = full_fields();
    let params = build_params(
        server,
        username,
        password,
        database,
        port,
        Some("win".to_string()),
    )
    .unwrap();
    assert_eq!(params.auth, AuthMode::Credential);
}

#[test]
fn absent_auth_selects_credentials() {
    let (server, username, password, database, port, _) = full_fields();
    let params = build_params(server, username, password, database, port, None).unwrap();
    assert_eq!(params.auth, AuthMode::Credential);
}

#[test]
fn panel_size_defaults_to_one_board() {
    assert_eq!(parse_panel_size(None), 1);
}

#[test]
fn panel_size_reads_a_plain_number() {
    assert_eq!(parse_panel_size(Some("4")), 4);
    assert_eq!(parse_panel_size(Some("255")), 255);
    assert_eq!(parse_panel_size(Some("007")), 7);
}

#[test]
fn unreadable_panel_size_falls_back_to_one() {
    assert_eq!(parse_panel_size(Some("four")), 1);
    assert_eq!(parse_panel_size(Some("")), 1);
    assert_eq!(parse_panel_size(Some("-2")), 1);
}

#[test]
fn out_of_range_panel_size_falls_back_to_one() {
    assert_eq!(parse_panel_size(Some("0")), 1);
    assert_eq!(parse_panel_size(Some("256")), 1);
}
