use parami_exam::config::{parse_port, EnvConfig, DEFAULT_CONFIG_FILE};

fn full_env() -> Vec<(String, String)> {
    vec![
        ("HOME".to_string(), "/root".to_string()),
        ("SERVER_ADDRESS".to_string(), "0.0.0.0".to_string()),
        ("SERVER_PORT".to_string(), "3000".to_string()),
        ("SURREALDB_URL".to_string(), "localhost:8000".to_string()),
        ("SURREALDB_USERNAME".to_string(), "root".to_string()),
        ("SURREALDB_PASSWORD".to_string(), "SECRET-REDACTED".to_string()),
        ("SURREALDB_NAMESPACE".to_string(), "parami".to_string()),
        ("SURREALDB_DBNAME".to_string(), "exam".to_string()),
    ]
}

#[test]
fn config_reads_every_variable() {
    let config = EnvConfig::new(Ok(()), &full_env()).ok().unwrap();
    assert_eq!(config.server_address, "0.0.0.0");
    assert_eq!(config.server_port, "3000");
    assert_eq!(config.surrealdb_url, "localhost:8000");
    assert_eq!(config.surrealdb_username, "root");
    assert_eq!(config.surrealdb_password, "SECRET-REDACTED");
    assert_eq!(config.surrealdb_namespace, "parami");
    assert_eq!(config.surrealdb_database, "exam");
}

#[test]
fn config_load_failure_is_reported() {
    let r = EnvConfig::new(Err("path not found".to_string()), &full_env());
    assert_eq!(r.err().unwrap(), "Failed to load .env file: path not found");
}

#[test]
fn config_names_first_missing_variable() {
    let env: Vec<(String, String)> = full_env()
        .into_iter()
        .filter(|(k, _)| k != "SURREALDB_URL" && k != "SURREALDB_DBNAME")
        .collect();
    let r = EnvConfig::new(Ok(()), &env);
    assert_eq!(r.err().unwrap(), "SURREALDB_URL is not set in the .env file");
}

#[test]
fn config_each_missing_variable_is_named() {
    let names = [
        "SERVER_ADDRESS",
        "SERVER_PORT",
        "SURREALDB_URL",
        "SURREALDB_USERNAME",
        "SURREALDB_PASSWORD",
        "SURREALDB_NAMESPACE",
        "SURREALDB_DBNAME",
    ];
    for name in names {
        let env: Vec<(String, String)> = full_env().into_iter().filter(|(k, _)| k != name).collect();
        let r = EnvConfig::new(Ok(()), &env);
        assert_eq!(r.err().unwrap(), format!("{} is not set in the .env file", name));
    }
}

#[test]
fn config_empty_environment_names_server_address() {
    let r = EnvConfig::new(Ok(()), &Vec::new());
    assert_eq!(r.err().unwrap(), "SERVER_ADDRESS is not set in the .env file");
}

#[test]
fn config_first_of_repeated_variables_wins() {
    let mut env = vec![("SERVER_PORT".to_string(), "8080".to_string())];
    env.extend(full_env());
    let config = EnvConfig::new(Ok(()), &env).ok().unwrap();
    assert_eq!(config.server_port, "8080");
    assert_eq!(config.port(), Some(8080));
}

#[test]
fn config_empty_value_counts_as_set() {
    let mut env = full_env();
    env[1].1 = String::new();
    let config = EnvConfig::new(Ok(()), &env).ok().unwrap();
    assert_eq!(config.server_address, "");
}

#[test]
fn default_config_file_is_dot_env() {
    assert_eq!(DEFAULT_CONFIG_FILE, ".env");
}

#[test]
fn port_parses_like_std() {
    let cases = [
        "3000", "0", "65535", "65536", "+80", "+", "-1", "", "080", "00000000000000065535", "12a",
        " 80", "80 ", "٣", "99999999999999999999",
    ];
    for case in cases {
        assert_eq!(parse_port(case), case.parse::<u16>().ok(), "{:?}", case);
    }
}

#[test]
fn port_exact_values() {
    assert_eq!(parse_port("3000"), Some(3000));
    assert_eq!(parse_port("+443"), Some(443));
    assert_eq!(parse_port("65535"), Some(65535));
    assert_eq!(parse_port("65536"), None);
    assert_eq!(parse_port("-1"), None);
    assert_eq!(parse_port(""), None);
    assert_eq!(parse_port("+"), None);
}

#[test]
fn port_round_trip_of_decimal_text() {
    for port in [0u16, 1, 9, 10, 80, 443, 8080, 65535] {
        assert_eq!(parse_port(&port.to_string()), Some(port));
    }
}
