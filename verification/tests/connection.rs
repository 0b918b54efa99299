use parami_exam::config::EnvConfig;
use parami_exam::connection::{
    ConnectionAction, ConnectionEvent, ConnectionSetup, ConnectionStage, StepOutcome,
};

fn config() -> EnvConfig {
    EnvConfig {
        server_address: "0.0.0.0".to_string(),
        server_port: "3000".to_string(),
        surrealdb_url: "localhost:8000".to_string(),
        surrealdb_username: "root".to_string(),
        surrealdb_password: "pw".to_string(),
        surrealdb_namespace: "ns".to_string(),
        surrealdb_database: "db".to_string(),
    }
}

#[test]
fn connection_happy_path() {
    let (mut setup, action) = ConnectionSetup::start(&config());
    assert!(matches!(action, ConnectionAction::Open { ref url } if url == "localhost:8000"));
    assert!(matches!(setup.stage, ConnectionStage::Opening));
    let action = setup.step(ConnectionEvent::Opened(StepOutcome::Succeeded));
    match action {
        ConnectionAction::SignIn { username, password } => {
            assert_eq!(username, "root");
            assert_eq!(password, "pw");
        },
        _ => panic!("expected a sign-in"),
    }
    let action = setup.step(ConnectionEvent::SignedIn(StepOutcome::Succeeded));
    match action {
        ConnectionAction::Select { namespace, database } => {
            assert_eq!(namespace, "ns");
            assert_eq!(database, "db");
        },
        _ => panic!("expected a selection"),
    }
    let action = setup.step(ConnectionEvent::Selected);
    assert!(matches!(action, ConnectionAction::Connected));
    assert!(matches!(setup.stage, ConnectionStage::Done));
}

#[test]
fn connection_open_failure_stops() {
    let (mut setup, _) = ConnectionSetup::start(&config());
    let action = setup.step(ConnectionEvent::Opened(StepOutcome::Failed("refused".to_string())));
    match action {
        ConnectionAction::Fail { message } => assert_eq!(message, "refused"),
        _ => panic!("expected a failure"),
    }
    assert!(matches!(setup.stage, ConnectionStage::Done));
}

#[test]
fn connection_sign_in_failure_stops() {
    let (mut setup, _) = ConnectionSetup::start(&config());
    setup.step(ConnectionEvent::Opened(StepOutcome::Succeeded));
    let action = setup.step(ConnectionEvent::SignedIn(StepOutcome::Failed("bad password".to_string())));
    match action {
        ConnectionAction::Fail { message } => assert_eq!(message, "bad password"),
        _ => panic!("expected a failure"),
    }
}
