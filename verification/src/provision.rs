use crate::configuration::connection_to;
use crate::configuration::ApplicationView;
use crate::configuration::ConnectionOptions;
use crate::configuration::ConnectionView;
use crate::configuration::DatabaseView;
use crate::configuration::Settings;
use crate::configuration::SettingsView;
use crate::environment::Environment;
use crate::identifier::fresh_identifier;
use crate::identifier::has_identifier_shape;
use crate::identifier::is_identifier;
use vstd::prelude::*;

verus! {

/// Whether the service is started for real or for one isolated test.
#[derive(Clone, Copy, Debug, PartialEq, Eq, Structural)]
pub enum Mode {
    Production,
    Test,
}

/// Why no connections could be provisioned.
#[derive(Clone, Copy, Debug, PartialEq, Eq, Structural)]
pub enum ProvisionError {
    /// The server could not be reached, or turned the credentials down.
    ConnectFailed,
    /// The server did not create the database.
    CreateFailed,
}

/// The statement that creates a database of the given name. The name is
/// written into the statement itself, between double quotes: it is an
/// identifier, which no parameter can carry.
pub open spec fn create_statement_of(name: Seq<char>) -> Seq<char> {
    "CREATE DATABASE \""@ + name + "\";"@
}

/// Writes the statement that creates the database `name`.
pub fn create_database_statement(name: &str) -> (statement: String)
    ensures
        statement@ == create_statement_of(name@),
{
    let mut statement = String::from_str("CREATE DATABASE \"");
    statement.append(name);
    statement.append("\";");
    statement
}

/// What a test changes in its settings: each test gets a database of its
/// own and asks for whatever port is free.
pub open spec fn test_overrides(settings: SettingsView, name: Seq<char>) -> SettingsView {
    SettingsView {
        database: DatabaseView { database_name: name, ..settings.database },
        app: ApplicationView { port: 0, ..settings.app },
        email_client: settings.email_client,
    }
}

/// Applies [`test_overrides`] with the given database name.
pub fn override_for_test(config: &mut Settings, name: String)
    ensures
        final(config)@ == test_overrides(old(config)@, name@),
{
    config.database.database_name = name;
    config.app.port = 0;
}

/// Applies [`test_overrides`] with a fresh database name.
pub fn apply_testing_overrides(config: &mut Settings)
    ensures
        is_identifier(final(config)@.database.database_name),
        final(config)@ == test_overrides(old(config)@, final(config)@.database.database_name),
{
    let name = fresh_identifier();
    override_for_test(config, name);
}

/// The database a test has to create before it connects.
#[derive(Debug)]
pub struct CreateDatabase {
    /// The connection to the maintenance database, with the same credentials.
    pub admin: ConnectionOptions,
    /// The statement to run there.
    pub statement: String,
}

/// What has to be done to have a connection pool.
#[derive(Debug)]
pub struct ProvisionPlan {
    /// In a test, the database to create first.
    pub create: Option<CreateDatabase>,
    /// Where the pool connects, lazily: nothing is sent until first use.
    pub pool: ConnectionOptions,
    /// The most connections the pool may hold.
    pub max_connections: u8,
}

pub struct CreateDatabaseView {
    pub admin: ConnectionView,
    pub statement: Seq<char>,
}

pub struct ProvisionPlanView {
    pub create: Option<CreateDatabaseView>,
    pub pool: ConnectionView,
    pub max_connections: u8,
}

impl View for CreateDatabase {
    type V = CreateDatabaseView;

    open spec fn view(&self) -> CreateDatabaseView {
        CreateDatabaseView { admin: self.admin@, statement: self.statement@ }
    }
}

impl View for ProvisionPlan {
    type V = ProvisionPlanView;

    open spec fn view(&self) -> ProvisionPlanView {
        ProvisionPlanView {
            create: match self.create {
                Some(create) => Some(create@),
                None => None,
            },
            pool: self.pool@,
            max_connections: self.max_connections,
        }
    }
}

/// The plan for given settings: both modes connect to the configured
/// database; a test creates it first, through the maintenance database.
pub open spec fn plan_of(
    settings: SettingsView,
    mode: Mode,
    environment: Environment,
) -> ProvisionPlanView {
    ProvisionPlanView {
        create: if mode == Mode::Test {
            Some(
                CreateDatabaseView {
                    admin: connection_to(settings.database, "postgres"@, environment),
                    statement: create_statement_of(settings.database.database_name),
                },
            )
        } else {
            None
        },
        pool: connection_to(settings.database, settings.database.database_name, environment),
        max_connections: settings.database.max_connections,
    }
}

/// Plans the provisioning. A test whose database name does not have the
/// generated shape gets no plan: no other name is ever written into a
/// statement.
pub fn provision(settings: &Settings, mode: Mode, environment: Environment) -> (outcome: Result<
    ProvisionPlan,
    ProvisionError,
>)
    ensures
        match outcome {
            Ok(plan) => plan@ == plan_of(settings@, mode, environment) && (mode == Mode::Test
                ==> is_identifier(settings@.database.database_name)),
            Err(e) => e == ProvisionError::CreateFailed && mode == Mode::Test
                && !is_identifier(settings@.database.database_name),
        },
{
    let create = match mode {
        Mode::Test => {
            if !has_identifier_shape(settings.database.database_name.as_str()) {
                return Err(ProvisionError::CreateFailed);
            }
            Some(
                CreateDatabase {
                    admin: settings.database.postgres_connection_options(environment),
                    statement: create_database_statement(settings.database.database_name.as_str()),
                },
            )
        },
        Mode::Production => None,
    };
    Ok(
        ProvisionPlan {
            create,
            pool: settings.database.connection_options(environment),
            max_connections: settings.database.max_connections,
        },
    )
}

} // verus!
