use vstd::prelude::*;

use crate::config::EnvConfig;

verus! {

/// How far the setting up of the database connection has come.
pub enum ConnectionStage {
    /// The connection to the server is being opened.
    Opening,
    /// The root user is signing in.
    SigningIn,
    /// The namespace and the database are being selected.
    Selecting,
    /// Nothing is left to do.
    Done,
}

/// What came of one step of the setup.
pub enum StepOutcome {
    Succeeded,
    /// The step failed, with this message.
    Failed(String),
}

/// What the caller does next to set up the connection.
pub enum ConnectionAction {
    /// Open a WebSocket connection to the server at `url`.
    Open { url: String },
    /// Sign in as the root user with these credentials.
    SignIn { username: String, password: String },
    /// Select this namespace and this database.
    Select { namespace: String, database: String },
    /// Stop: the connection is ready for use.
    Connected,
    /// Stop: a step failed, with this message.
    Fail { message: String },
}

/// What came of the action that the caller was asked to perform.
pub enum ConnectionEvent {
    /// What came of opening the connection.
    Opened(StepOutcome),
    /// What came of signing in.
    SignedIn(StepOutcome),
    /// The selection of the namespace and database was made; whether it
    /// succeeded does not matter.
    Selected,
}

/// The state of the setting up of a database connection: the stage reached
/// and what the later stages need.
pub struct ConnectionSetup {
    pub stage: ConnectionStage,
    pub username: String,
    pub password: String,
    pub namespace: String,
    pub database: String,
}

impl ConnectionSetup {
    /// Whether `event` is what the stage of `self` waits for.
    pub open spec fn accepts(self, event: ConnectionEvent) -> bool {
        match (self.stage, event) {
            (ConnectionStage::Opening, ConnectionEvent::Opened(_)) => true,
            (ConnectionStage::SigningIn, ConnectionEvent::SignedIn(_)) => true,
            (ConnectionStage::Selecting, ConnectionEvent::Selected) => true,
            _ => false,
        }
    }

    /// The state that follows `event`, and the action asked for next: a failed
    /// step ends the setup with its message, a successful one leads to the next
    /// step, and the selection, whatever came of it, ends the setup
    /// successfully.
    pub open spec fn after(self, event: ConnectionEvent) -> (ConnectionSetup, ConnectionAction) {
        match event {
            ConnectionEvent::Opened(StepOutcome::Failed(message))
            | ConnectionEvent::SignedIn(StepOutcome::Failed(message)) => (
                ConnectionSetup { stage: ConnectionStage::Done, ..self },
                ConnectionAction::Fail { message },
            ),
            ConnectionEvent::Opened(StepOutcome::Succeeded) => (
                ConnectionSetup { stage: ConnectionStage::SigningIn, ..self },
                ConnectionAction::SignIn { username: self.username, password: self.password },
            ),
            ConnectionEvent::SignedIn(StepOutcome::Succeeded) => (
                ConnectionSetup { stage: ConnectionStage::Selecting, ..self },
                ConnectionAction::Select { namespace: self.namespace, database: self.database },
            ),
            ConnectionEvent::Selected => (
                ConnectionSetup { stage: ConnectionStage::Done, ..self },
                ConnectionAction::Connected,
            ),
        }
    }

    /// Starts setting up a connection to the database that `config` names: the
    /// first action opens a connection to its URL.
    pub fn start(config: &EnvConfig) -> (r: (ConnectionSetup, ConnectionAction))
        ensures
            r.0.stage is Opening,
            r.0.username == config.surrealdb_username,
            r.0.password == config.surrealdb_password,
            r.0.namespace == config.surrealdb_namespace,
            r.0.database == config.surrealdb_database,
            r.1 == (ConnectionAction::Open { url: config.surrealdb_url }),
    {
        (
            ConnectionSetup {
                stage: ConnectionStage::Opening,
                username: config.surrealdb_username.clone(),
                password: config.surrealdb_password.clone(),
                namespace: config.surrealdb_namespace.clone(),
                database: config.surrealdb_database.clone(),
            },
            ConnectionAction::Open { url: config.surrealdb_url.clone() },
        )
    }

    /// Takes in what came of the last action and says what to do next.
    pub fn step(&mut self, event: ConnectionEvent) -> (action: ConnectionAction)
        requires
            old(self).accepts(event),
        ensures
            (*final(self), action) == old(self).after(event),
    {
        match event {
            ConnectionEvent::Opened(StepOutcome::Failed(message))
            | ConnectionEvent::SignedIn(StepOutcome::Failed(message)) => {
                self.stage = ConnectionStage::Done;
                ConnectionAction::Fail { message }
            },
            ConnectionEvent::Opened(StepOutcome::Succeeded) => {
                self.stage = ConnectionStage::SigningIn;
                ConnectionAction::SignIn {
                    username: self.username.clone(),
                    password: self.password.clone(),
                }
            },
            ConnectionEvent::SignedIn(StepOutcome::Succeeded) => {
                self.stage = ConnectionStage::Selecting;
                ConnectionAction::Select {
                    namespace: self.namespace.clone(),
                    database: self.database.clone(),
                }
            },
            ConnectionEvent::Selected => {
                self.stage = ConnectionStage::Done;
                ConnectionAction::Connected
            },
        }
    }
}

/// How the setup ends, given what came of opening the connection and of
/// signing in.
pub open spec fn connection_outcome(opened: StepOutcome, signed_in: StepOutcome) -> ConnectionAction {
    match (opened, signed_in) {
        (StepOutcome::Failed(message), _) => ConnectionAction::Fail { message },
        (StepOutcome::Succeeded, StepOutcome::Failed(message)) => ConnectionAction::Fail { message },
        (StepOutcome::Succeeded, StepOutcome::Succeeded) => ConnectionAction::Connected,
    }
}

/// The last action of a setup that starts at `setup` and is answered with
/// `opened`, then `signed_in` if it asks for a sign-in, then the selection if
/// it asks for one.
pub open spec fn final_action(setup: ConnectionSetup, opened: StepOutcome, signed_in: StepOutcome) -> ConnectionAction {
    let (s1, a1) = setup.after(ConnectionEvent::Opened(opened));
    if !(a1 is SignIn) {
        a1
    } else {
        let (s2, a2) = s1.after(ConnectionEvent::SignedIn(signed_in));
        if !(a2 is Select) {
            a2
        } else {
            s2.after(ConnectionEvent::Selected).1
        }
    }
}

/// A setup from its start succeeds exactly when the connection opens and the
/// sign-in succeeds, whatever comes of the selection; else it fails with the
/// message of the first step that failed. The sign-in is asked for only once
/// the connection is open, with the configured credentials.
pub proof fn lemma_connection_outcome(setup: ConnectionSetup, opened: StepOutcome, signed_in: StepOutcome)
    requires
        setup.stage is Opening,
    ensures
        final_action(setup, opened, signed_in) == connection_outcome(opened, signed_in),
        setup.after(ConnectionEvent::Opened(opened)).1 is SignIn <==> opened is Succeeded,
        opened is Succeeded ==> setup.after(ConnectionEvent::Opened(opened)).1 == (ConnectionAction::SignIn {
            username: setup.username,
            password: setup.password,
        }),
{
}

} // verus!
