use crate::configuration::app_address_of;
use crate::configuration::bind_address_of;
use crate::configuration::config_error_text;
use crate::configuration::get_configuration;
use crate::configuration::resolved;
use crate::configuration::ApplicationView;
use crate::configuration::ConfigError;
use crate::configuration::EmailClientView;
use crate::configuration::Settings;
use crate::configuration::SettingsView;
use crate::domain::is_email_address;
use crate::domain::SubscriberEmail;
use crate::email_client::EmailClient;
use crate::email_client::EmailClientState;
use crate::environment::environment_of;
use crate::environment::Environment;
use crate::identifier::fresh_identifier;
use crate::identifier::has_identifier_shape;
use crate::identifier::is_hyphen_place;
use crate::identifier::is_identifier;
use crate::layers::layer_maps;
use crate::layers::Layer;
use crate::provision::override_for_test;
use crate::provision::plan_of;
use crate::provision::provision;
use crate::provision::test_overrides;
use crate::provision::Mode;
use crate::provision::ProvisionError;
use crate::provision::ProvisionPlan;
use vstd::prelude::*;

verus! {

/// Why no listener serves.
#[derive(Clone, Copy, Debug, PartialEq, Eq, Structural)]
pub enum BindError {
    /// The address could not be bound, or the listener reported no port.
    BindFailed,
    /// The server could not be started on the bound listener.
    ServeFailed,
}

/// Why the shared dependencies could not be built.
#[derive(Clone, Copy, Debug, PartialEq, Eq, Structural)]
pub enum AssemblyError {
    /// The configured sender does not have the shape of an address.
    InvalidSenderAddress,
}

/// Why the schema is not in place.
#[derive(Clone, Copy, Debug, PartialEq, Eq, Structural)]
pub enum MigrationError {
    /// A migration did not go through.
    MigrationFailed,
}

/// The first failure of a start, with the step it came from.
#[derive(Clone, Copy, Debug, PartialEq, Eq, Structural)]
pub enum BootstrapError {
    Config(ConfigError),
    Provision(ProvisionError),
    Bind(BindError),
    Assembly(AssemblyError),
    Migration(MigrationError),
    /// An event arrived that answers no request of the current step.
    OutOfSequence,
}

/// How the failure of a start reads: the step that failed, then the cause.
pub open spec fn bootstrap_error_text(error: BootstrapError) -> Seq<char> {
    match error {
        BootstrapError::Config(e) => "configuration: "@ + config_error_text(e),
        BootstrapError::Provision(ProvisionError::ConnectFailed) =>
            "provisioning: the database server could not be reached"@,
        BootstrapError::Provision(ProvisionError::CreateFailed) =>
            "provisioning: the database could not be created"@,
        BootstrapError::Bind(BindError::BindFailed) => "listener: the address could not be bound"@,
        BootstrapError::Bind(BindError::ServeFailed) =>
            "listener: the server could not be started"@,
        BootstrapError::Assembly(AssemblyError::InvalidSenderAddress) =>
            "assembly: the sender is no valid address"@,
        BootstrapError::Migration(MigrationError::MigrationFailed) =>
            "migration: a migration did not go through"@,
        BootstrapError::OutOfSequence => "an event arrived out of sequence"@,
    }
}

impl BootstrapError {
    /// The failure in words.
    pub fn message(&self) -> (text: String)
        ensures
            text@ == bootstrap_error_text(*self),
    {
        match self {
            BootstrapError::Config(e) => {
                let mut text = String::from_str("configuration: ");
                let cause = e.message();
                text.append(cause.as_str());
                text
            },
            BootstrapError::Provision(ProvisionError::ConnectFailed) => String::from_str(
                "provisioning: the database server could not be reached",
            ),
            BootstrapError::Provision(ProvisionError::CreateFailed) => String::from_str(
                "provisioning: the database could not be created",
            ),
            BootstrapError::Bind(BindError::BindFailed) => String::from_str(
                "listener: the address could not be bound",
            ),
            BootstrapError::Bind(BindError::ServeFailed) => String::from_str(
                "listener: the server could not be started",
            ),
            BootstrapError::Assembly(AssemblyError::InvalidSenderAddress) => String::from_str(
                "assembly: the sender is no valid address",
            ),
            BootstrapError::Migration(MigrationError::MigrationFailed) => String::from_str(
                "migration: a migration did not go through",
            ),
            BootstrapError::OutOfSequence => String::from_str("an event arrived out of sequence"),
        }
    }
}

/// Where a start stands: the step whose outcome it is waiting for.
#[derive(Clone, Copy, Debug, PartialEq, Eq, Structural)]
pub enum Stage {
    ReadingSources,
    Provisioning,
    Binding,
    Starting,
    Migrating,
    Ready,
    Failed,
}

/// What the caller has to do next.
#[derive(Clone, Copy, Debug, PartialEq, Eq, Structural)]
pub enum Action {
    /// Read the environment selector and the configuration sources.
    ReadSources,
    /// Carry out [`Bootstrap::provision_plan`].
    Provision,
    /// Bind a listener to [`Bootstrap::listen_address`] and read its port back.
    Bind,
    /// Start the server on that listener, with the pool and
    /// [`Bootstrap::mail_client`] shared among its workers.
    StartServer,
    /// Apply the pending migrations through the pool.
    Migrate,
    /// Hand the running service to whoever asked for it.
    Release,
    /// Give up and let go of everything acquired so far.
    Abort,
    /// The start is over; there is nothing left to do.
    Nothing,
}

/// What the caller reports back.
#[derive(Debug)]
pub enum Event {
    SourcesRead { selector: String, layers: Vec<Layer> },
    SourcesUnreadable,
    Provisioned,
    ProvisionFailed(ProvisionError),
    Bound { port: u16 },
    BindFailed,
    ServerStarted,
    ServerFailed,
    Migrated,
    MigrationFailed,
}

pub enum EventView {
    SourcesRead { selector: Seq<char>, layers: Seq<Map<Seq<char>, Seq<char>>> },
    SourcesUnreadable,
    Provisioned,
    ProvisionFailed(ProvisionError),
    Bound { port: u16 },
    BindFailed,
    ServerStarted,
    ServerFailed,
    Migrated,
    MigrationFailed,
}

impl View for Event {
    type V = EventView;

    open spec fn view(&self) -> EventView {
        match self {
            Event::SourcesRead { selector, layers } => EventView::SourcesRead {
                selector: selector@,
                layers: layer_maps(layers@),
            },
            Event::SourcesUnreadable => EventView::SourcesUnreadable,
            Event::Provisioned => EventView::Provisioned,
            Event::ProvisionFailed(e) => EventView::ProvisionFailed(*e),
            Event::Bound { port } => EventView::Bound { port: *port },
            Event::BindFailed => EventView::BindFailed,
            Event::ServerStarted => EventView::ServerStarted,
            Event::ServerFailed => EventView::ServerFailed,
            Event::Migrated => EventView::Migrated,
            Event::MigrationFailed => EventView::MigrationFailed,
        }
    }
}

/// One start of the service, as far as it has come.
pub struct BootstrapView {
    pub mode: Mode,
    pub stage: Stage,
    pub environment: Option<Environment>,
    pub settings: Option<SettingsView>,
    pub failure: Option<BootstrapError>,
}

/// A start on which nothing has happened yet.
pub open spec fn initial(mode: Mode) -> BootstrapView {
    BootstrapView {
        mode,
        stage: Stage::ReadingSources,
        environment: None,
        settings: None,
        failure: None,
    }
}

/// The start gives up with `error`.
pub open spec fn failed(s: BootstrapView, error: BootstrapError) -> (BootstrapView, Action) {
    (BootstrapView { stage: Stage::Failed, failure: Some(error), ..s }, Action::Abort)
}

/// The start moves on to `stage`.
pub open spec fn moved(s: BootstrapView, stage: Stage, action: Action) -> (BootstrapView, Action) {
    (BootstrapView { stage, ..s }, action)
}

/// The settings with the port that the listener reported.
pub open spec fn with_port(settings: SettingsView, port: u16) -> SettingsView {
    SettingsView { app: ApplicationView { port, ..settings.app }, ..settings }
}

/// The one transition function of a start: from where it stands and what
/// was reported, to where it stands next and what is to be done. `fresh` is
/// the database name a test is given; a production start ignores it.
pub open spec fn next(s: BootstrapView, event: EventView, fresh: Seq<char>) -> (
    BootstrapView,
    Action,
) {
    match s.stage {
        Stage::ReadingSources => match event {
            EventView::SourcesRead { selector, layers } => match resolved(selector, layers) {
                Err(e) => failed(s, BootstrapError::Config(e)),
                Ok(settings) => if s.mode == Mode::Test && !is_identifier(fresh) {
                    failed(s, BootstrapError::Provision(ProvisionError::CreateFailed))
                } else {
                    (
                        BootstrapView {
                            stage: Stage::Provisioning,
                            environment: environment_of(selector),
                            settings: Some(
                                if s.mode == Mode::Test {
                                    test_overrides(settings, fresh)
                                } else {
                                    settings
                                },
                            ),
                            ..s
                        },
                        Action::Provision,
                    )
                },
            },
            EventView::SourcesUnreadable => failed(s, BootstrapError::Config(ConfigError::Unreadable)),
            _ => failed(s, BootstrapError::OutOfSequence),
        },
        Stage::Provisioning => match event {
            EventView::Provisioned => moved(s, Stage::Binding, Action::Bind),
            EventView::ProvisionFailed(e) => failed(s, BootstrapError::Provision(e)),
            _ => failed(s, BootstrapError::OutOfSequence),
        },
        Stage::Binding => match event {
            EventView::Bound { port } => if port == 0 {
                failed(s, BootstrapError::Bind(BindError::BindFailed))
            } else if !is_email_address(s.settings.unwrap().email_client.sender_email) {
                failed(s, BootstrapError::Assembly(AssemblyError::InvalidSenderAddress))
            } else {
                (
                    BootstrapView {
                        stage: Stage::Starting,
                        settings: Some(with_port(s.settings.unwrap(), port)),
                        ..s
                    },
                    Action::StartServer,
                )
            },
            EventView::BindFailed => failed(s, BootstrapError::Bind(BindError::BindFailed)),
            _ => failed(s, BootstrapError::OutOfSequence),
        },
        Stage::Starting => match event {
            EventView::ServerStarted => moved(s, Stage::Migrating, Action::Migrate),
            EventView::ServerFailed => failed(s, BootstrapError::Bind(BindError::ServeFailed)),
            _ => failed(s, BootstrapError::OutOfSequence),
        },
        Stage::Migrating => match event {
            EventView::Migrated => moved(s, Stage::Ready, Action::Release),
            EventView::MigrationFailed => failed(
                s,
                BootstrapError::Migration(MigrationError::MigrationFailed),
            ),
            _ => failed(s, BootstrapError::OutOfSequence),
        },
        Stage::Ready => (s, Action::Nothing),
        Stage::Failed => (s, Action::Nothing),
    }
}

/// Whether settings have been resolved at this stage.
pub open spec fn is_configured(stage: Stage) -> bool {
    stage == Stage::Provisioning || stage == Stage::Binding || stage == Stage::Starting || stage
        == Stage::Migrating || stage == Stage::Ready
}

/// Whether a listener is bound at this stage.
pub open spec fn is_bound(stage: Stage) -> bool {
    stage == Stage::Starting || stage == Stage::Migrating || stage == Stage::Ready
}

impl BootstrapView {
    /// What holds of every start, wherever it stands.
    pub open spec fn consistent(self) -> bool {
        &&& (self.stage == Stage::Failed) == (self.failure is Some)
        &&& is_configured(self.stage) ==> {
            &&& self.settings is Some
            &&& self.environment is Some
            &&& self.settings.unwrap().valid()
            &&& self.mode == Mode::Test ==> is_identifier(
                self.settings.unwrap().database.database_name,
            )
        }
        &&& is_configured(self.stage) && !is_bound(self.stage) && self.mode == Mode::Test
            ==> self.settings.unwrap().app.port == 0
        &&& is_bound(self.stage) ==> {
            &&& self.settings.unwrap().app.port > 0
            &&& is_email_address(self.settings.unwrap().email_client.sender_email)
        }
    }
}

/// The mail client that settings describe.
pub open spec fn client_of(email: EmailClientView) -> EmailClientState {
    EmailClientState {
        sender: email.sender_email,
        base_url: email.base_url,
        auth_token: email.auth_token,
        timeout_milliseconds: email.timeout_milliseconds,
    }
}

/// Builds the mail client from the settings. Nothing is sent. A sender
/// that does not have the shape of an address fails the assembly.
pub fn assemble(settings: &Settings) -> (outcome: Result<EmailClient, AssemblyError>)
    ensures
        match outcome {
            Ok(client) => is_email_address(settings@.email_client.sender_email) && client@
                == client_of(settings@.email_client),
            Err(e) => !is_email_address(settings@.email_client.sender_email) && e
                == AssemblyError::InvalidSenderAddress,
        },
{
    match SubscriberEmail::parse(settings.email_client.sender_email.clone()) {
        Ok(sender) => Ok(
            EmailClient::new(
                sender,
                settings.email_client.base_url.clone(),
                settings.email_client.auth_token.duplicate(),
                settings.email_client.timeout_milliseconds,
            ),
        ),
        Err(_) => Err(AssemblyError::InvalidSenderAddress),
    }
}

/// What a successful start hands out, as far as it is plain data: the
/// settings the service runs with and the address it answers under. The
/// caller adds the running server task and the pool.
#[derive(Debug)]
pub struct AppHandle {
    pub config: Settings,
    pub address: String,
}

/// One start of the service: the decisions of the sequence
/// resolve, provision, bind, assemble, serve, migrate. The caller does the
/// work each [`Action`] names and reports the outcome as an [`Event`].
#[derive(Debug)]
pub struct Bootstrap {
    mode: Mode,
    stage: Stage,
    environment: Option<Environment>,
    settings: Option<Settings>,
    failure: Option<BootstrapError>,
}

impl View for Bootstrap {
    type V = BootstrapView;

    closed spec fn view(&self) -> BootstrapView {
        BootstrapView {
            mode: self.mode,
            stage: self.stage,
            environment: self.environment,
            settings: match self.settings {
                Some(settings) => Some(settings@),
                None => None,
            },
            failure: self.failure,
        }
    }
}

impl Bootstrap {
    #[verifier::type_invariant]
    spec fn well_formed(self) -> bool {
        self@.consistent()
    }

    /// Begins a start: the first thing to do is to read the sources.
    pub fn start(mode: Mode) -> (begun: (Bootstrap, Action))
        ensures
            begun.0@ == initial(mode),
            begun.1 == Action::ReadSources,
    {
        (
            Bootstrap {
                mode,
                stage: Stage::ReadingSources,
                environment: None,
                settings: None,
                failure: None,
            },
            Action::ReadSources,
        )
    }

    /// Whether this is a start for real or for a test.
    pub fn mode(&self) -> (mode: Mode)
        ensures
            mode == self@.mode,
    {
        self.mode
    }

    /// Where the start stands. Wherever that is, the start is consistent.
    pub fn stage(&self) -> (stage: Stage)
        ensures
            stage == self@.stage,
            self@.consistent(),
    {
        proof {
            use_type_invariant(self);
        }
        self.stage
    }

    /// The failure that ended the start, if one did.
    pub fn failure(&self) -> (failure: Option<BootstrapError>)
        ensures
            failure == self@.failure,
            failure is Some <==> self@.stage == Stage::Failed,
    {
        proof {
            use_type_invariant(self);
        }
        self.failure
    }

    /// The environment the selector named, once the sources are resolved.
    pub fn environment(&self) -> (environment: Option<Environment>)
        ensures
            environment == self@.environment,
    {
        self.environment
    }

    /// What is to be provisioned, while that is the step at hand.
    pub fn provision_plan(&self) -> (plan: Option<ProvisionPlan>)
        ensures
            match plan {
                Some(plan) => self@.stage == Stage::Provisioning && plan@ == plan_of(
                    self@.settings.unwrap(),
                    self@.mode,
                    self@.environment.unwrap(),
                ) && (self@.mode == Mode::Test ==> is_identifier(
                    self@.settings.unwrap().database.database_name,
                )),
                None => self@.stage != Stage::Provisioning,
            },
    {
        proof {
            use_type_invariant(self);
        }
        match self.stage {
            Stage::Provisioning => {
                let settings = self.settings.as_ref().unwrap();
                let environment = self.environment.unwrap();
                match provision(settings, self.mode, environment) {
                    Ok(plan) => Some(plan),
                    Err(_) => {
                        assert(false);
                        None
                    },
                }
            },
            _ => None,
        }
    }

    /// The `host:port` to bind, while that is the step at hand. A test asks
    /// for port 0, that is for whatever port is free.
    pub fn listen_address(&self) -> (address: Option<String>)
        ensures
            match address {
                Some(address) => self@.stage == Stage::Binding && address@ == bind_address_of(
                    self@.settings.unwrap().app,
                ) && (self@.mode == Mode::Test ==> self@.settings.unwrap().app.port == 0),
                None => self@.stage != Stage::Binding,
            },
    {
        proof {
            use_type_invariant(self);
        }
        match self.stage {
            Stage::Binding => Some(self.settings.as_ref().unwrap().app.bind_address()),
            _ => None,
        }
    }

    /// The mail client the server is to share, once a listener is bound.
    pub fn mail_client(&self) -> (client: Option<EmailClient>)
        ensures
            match client {
                Some(client) => is_bound(self@.stage) && client@ == client_of(
                    self@.settings.unwrap().email_client,
                ),
                None => !is_bound(self@.stage),
            },
    {
        proof {
            use_type_invariant(self);
        }
        match self.stage {
            Stage::Starting | Stage::Migrating | Stage::Ready => {
                match assemble(self.settings.as_ref().unwrap()) {
                    Ok(client) => Some(client),
                    Err(_) => {
                        assert(false);
                        None
                    },
                }
            },
            _ => None,
        }
    }

    /// The settings of the running service: there are none to be had before
    /// every step has succeeded.
    pub fn settings(&self) -> (settings: Option<&Settings>)
        ensures
            match settings {
                Some(settings) => self@.stage == Stage::Ready && self@.settings == Some(
                    settings@,
                ) && settings@.valid() && settings@.app.port > 0,
                None => self@.stage != Stage::Ready,
            },
    {
        proof {
            use_type_invariant(self);
        }
        match self.stage {
            Stage::Ready => self.settings.as_ref(),
            _ => None,
        }
    }

    /// The address under which the running service answers, with the port
    /// that the listener reported.
    pub fn address(&self) -> (address: Option<String>)
        ensures
            match address {
                Some(address) => self@.stage == Stage::Ready && address@ == app_address_of(
                    self@.settings.unwrap().app,
                ) && self@.settings.unwrap().app.port > 0,
                None => self@.stage != Stage::Ready,
            },
    {
        proof {
            use_type_invariant(self);
        }
        match self.stage {
            Stage::Ready => Some(self.settings.as_ref().unwrap().app_address()),
            _ => None,
        }
    }

    /// Ends the start. Only a start on which every step has succeeded gives
    /// a handle; one that failed gives its failure, and one that is still
    /// under way is out of sequence.
    pub fn release(self) -> (released: Result<AppHandle, BootstrapError>)
        ensures
            match released {
                Ok(handle) => self@.stage == Stage::Ready && self@.settings == Some(
                    handle.config@,
                ) && handle.address@ == app_address_of(handle.config@.app)
                    && handle.config@.app.port > 0 && handle.config@.valid(),
                Err(e) => self@.stage != Stage::Ready && e == match self@.failure {
                    Some(failure) => failure,
                    None => BootstrapError::OutOfSequence,
                },
            },
    {
        proof {
            use_type_invariant(&self);
        }
        let Bootstrap { mode: _, stage, environment: _, settings, failure } = self;
        match stage {
            Stage::Ready => {
                let config = settings.unwrap();
                let address = config.app_address();
                Ok(AppHandle { config, address })
            },
            _ => match failure {
                Some(failure) => Err(failure),
                None => Err(BootstrapError::OutOfSequence),
            },
        }
    }

    /// Takes one step with a database name supplied by the caller.
    pub fn advance(self, event: Event, fresh: String) -> (stepped: (Bootstrap, Action))
        ensures
            (stepped.0@, stepped.1) == next(self@, event@, fresh@),
    {
        proof {
            use_type_invariant(&self);
        }
        let Bootstrap { mode, stage, environment, settings, failure } = self;
        match stage {
            Stage::ReadingSources => match event {
                Event::SourcesRead { selector, layers } => {
                    match get_configuration(selector.as_str(), &layers) {
                        Err(e) => (
                            Bootstrap {
                                mode,
                                stage: Stage::Failed,
                                environment,
                                settings,
                                failure: Some(BootstrapError::Config(e)),
                            },
                            Action::Abort,
                        ),
                        Ok(resolved_settings) => {
                            let named = Environment::parse(selector.as_str());
                            let mut resolved_settings = resolved_settings;
                            match mode {
                                Mode::Test => {
                                    if !has_identifier_shape(fresh.as_str()) {
                                        return (
                                            Bootstrap {
                                                mode,
                                                stage: Stage::Failed,
                                                environment,
                                                settings,
                                                failure: Some(
                                                    BootstrapError::Provision(
                                                        ProvisionError::CreateFailed,
                                                    ),
                                                ),
                                            },
                                            Action::Abort,
                                        );
                                    }
                                    override_for_test(&mut resolved_settings, fresh);
                                },
                                Mode::Production => {},
                            }
                            (
                                Bootstrap {
                                    mode,
                                    stage: Stage::Provisioning,
                                    environment: Some(named.unwrap()),
                                    settings: Some(resolved_settings),
                                    failure,
                                },
                                Action::Provision,
                            )
                        },
                    }
                },
                Event::SourcesUnreadable => (
                    Bootstrap {
                        mode,
                        stage: Stage::Failed,
                        environment,
                        settings,
                        failure: Some(BootstrapError::Config(ConfigError::Unreadable)),
                    },
                    Action::Abort,
                ),
                _ => (
                    Bootstrap {
                        mode,
                        stage: Stage::Failed,
                        environment,
                        settings,
                        failure: Some(BootstrapError::OutOfSequence),
                    },
                    Action::Abort,
                ),
            },
            Stage::Provisioning => match event {
                Event::Provisioned => (
                    Bootstrap { mode, stage: Stage::Binding, environment, settings, failure },
                    Action::Bind,
                ),
                Event::ProvisionFailed(e) => (
                    Bootstrap {
                        mode,
                        stage: Stage::Failed,
                        environment,
                        settings,
                        failure: Some(BootstrapError::Provision(e)),
                    },
                    Action::Abort,
                ),
                _ => (
                    Bootstrap {
                        mode,
                        stage: Stage::Failed,
                        environment,
                        settings,
                        failure: Some(BootstrapError::OutOfSequence),
                    },
                    Action::Abort,
                ),
            },
            Stage::Binding => match event {
                Event::Bound { port } => {
                    if port == 0 {
                        (
                            Bootstrap {
                                mode,
                                stage: Stage::Failed,
                                environment,
                                settings,
                                failure: Some(BootstrapError::Bind(BindError::BindFailed)),
                            },
                            Action::Abort,
                        )
                    } else {
                        let mut bound = settings.unwrap();
                        match assemble(&bound) {
                            Err(e) => (
                                Bootstrap {
                                    mode,
                                    stage: Stage::Failed,
                                    environment,
                                    settings: Some(bound),
                                    failure: Some(BootstrapError::Assembly(e)),
                                },
                                Action::Abort,
                            ),
                            Ok(_) => {
                                bound.app.port = port;
                                (
                                    Bootstrap {
                                        mode,
                                        stage: Stage::Starting,
                                        environment,
                                        settings: Some(bound),
                                        failure,
                                    },
                                    Action::StartServer,
                                )
                            },
                        }
                    }
                },
                Event::BindFailed => (
                    Bootstrap {
                        mode,
                        stage: Stage::Failed,
                        environment,
                        settings,
                        failure: Some(BootstrapError::Bind(BindError::BindFailed)),
                    },
                    Action::Abort,
                ),
                _ => (
                    Bootstrap {
                        mode,
                        stage: Stage::Failed,
                        environment,
                        settings,
                        failure: Some(BootstrapError::OutOfSequence),
                    },
                    Action::Abort,
                ),
            },
            Stage::Starting => match event {
                Event::ServerStarted => (
                    Bootstrap { mode, stage: Stage::Migrating, environment, settings, failure },
                    Action::Migrate,
                ),
                Event::ServerFailed => (
                    Bootstrap {
                        mode,
                        stage: Stage::Failed,
                        environment,
                        settings,
                        failure: Some(BootstrapError::Bind(BindError::ServeFailed)),
                    },
                    Action::Abort,
                ),
                _ => (
                    Bootstrap {
                        mode,
                        stage: Stage::Failed,
                        environment,
                        settings,
                        failure: Some(BootstrapError::OutOfSequence),
                    },
                    Action::Abort,
                ),
            },
            Stage::Migrating => match event {
                Event::Migrated => (
                    Bootstrap { mode, stage: Stage::Ready, environment, settings, failure },
                    Action::Release,
                ),
                Event::MigrationFailed => (
                    Bootstrap {
                        mode,
                        stage: Stage::Failed,
                        environment,
                        settings,
                        failure: Some(BootstrapError::Migration(MigrationError::MigrationFailed)),
                    },
                    Action::Abort,
                ),
                _ => (
                    Bootstrap {
                        mode,
                        stage: Stage::Failed,
                        environment,
                        settings,
                        failure: Some(BootstrapError::OutOfSequence),
                    },
                    Action::Abort,
                ),
            },
            Stage::Ready => (
                Bootstrap { mode, stage, environment, settings, failure },
                Action::Nothing,
            ),
            Stage::Failed => (
                Bootstrap { mode, stage, environment, settings, failure },
                Action::Nothing,
            ),
        }
    }

    /// Takes one step. A test is given a fresh database name at the step
    /// that resolves its sources; which name cannot be known beforehand,
    /// only that it has the generated shape. No other step draws a name.
    pub fn step(self, event: Event) -> (stepped: (Bootstrap, Action))
        ensures
            exists|fresh: Seq<char>|
                is_identifier(fresh) && (stepped.0@, stepped.1) == #[trigger] next(
                    self@,
                    event@,
                    fresh,
                ),
    {
        let draws = match (self.mode, self.stage) {
            (Mode::Test, Stage::ReadingSources) => true,
            _ => false,
        };
        if draws {
            let fresh = fresh_identifier();
            let ghost name = fresh@;
            let stepped = self.advance(event, fresh);
            assert((stepped.0@, stepped.1) == next(self@, event@, name));
            stepped
        } else {
            let stepped = self.advance(event, String::new());
            proof {
                let name = Seq::new(
                    36,
                    |i: int|
                        if is_hyphen_place(i) {
                            '-'
                        } else if i == 14 {
                            '4'
                        } else if i == 19 {
                            '8'
                        } else {
                            '0'
                        },
                );
                assert(is_identifier(name));
                assert((stepped.0@, stepped.1) == next(self@, event@, name));
            }
            stepped
        }
    }
}

/// Begins the start of the service for real: the configured database and
/// the configured port are used as they stand.
pub fn spawn_prod_app() -> (begun: (Bootstrap, Action))
    ensures
        begun.0@ == initial(Mode::Production),
        begun.1 == Action::ReadSources,
{
    Bootstrap::start(Mode::Production)
}

/// Begins the start of the service for one test: it will get a database of
/// its own and whatever port is free.
pub fn spawn_test_app() -> (begun: (Bootstrap, Action))
    ensures
        begun.0@ == initial(Mode::Test),
        begun.1 == Action::ReadSources,
{
    Bootstrap::start(Mode::Test)
}

} // verus!
