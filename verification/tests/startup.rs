use zero2prod::configuration::ConfigError;
use zero2prod::configuration::SettingKey;
use zero2prod::environment::Environment;
use zero2prod::identifier::has_identifier_shape;
use zero2prod::layers::Layer;
use zero2prod::provision::Mode;
use zero2prod::provision::ProvisionError;
use zero2prod::startup::assemble;
use zero2prod::startup::Action;
use zero2prod::startup::AssemblyError;
use zero2prod::startup::BindError;
use zero2prod::startup::Bootstrap;
use zero2prod::startup::BootstrapError;
use zero2prod::startup::Event;
use zero2prod::startup::MigrationError;
use zero2prod::startup::Stage;

fn base_layer() -> Layer {
    let mut layer = Layer::new();
    layer.set("app.port".to_string(), "8000".to_string());
    layer.set("app.host".to_string(), "127.0.0.1".to_string());
    layer.set("database.host".to_string(), "localhost".to_string());
    layer.set("database.port".to_string(), "5432".to_string());
    layer.set("database.username".to_string(), "postgres".to_string());
    layer.set("database.password".to_string(), "password".to_string());
    layer.set("database.database_name".to_string(), "newsletter".to_string());
    layer.set("database.max_connections".to_string(), "10".to_string());
    layer.set("email_client.base_url".to_string(), "http://localhost:9000".to_string());
    layer.set("email_client.sender_email".to_string(), "test@gmail.com".to_string());
    layer.set("email_client.auth_token".to_string(), "my-secret-token".to_string());
    layer.set("email_client.timeout_milliseconds".to_string(), "10000".to_string());
    layer
}

fn layer_with(key: &str, value: &str) -> Layer {
    let mut layer = Layer::new();
    layer.set(key.to_string(), value.to_string());
    layer
}

fn sources(selector: &str, layers: Vec<Layer>) -> Event {
    Event::SourcesRead { selector: selector.to_string(), layers }
}

fn good_sources() -> Event {
    sources("LOCAL", vec![base_layer()])
}

fn run(mode: Mode, events: Vec<Event>) -> (Bootstrap, Vec<Action>) {
    let (mut bootstrap, first) = Bootstrap::start(mode);
    let mut actions = vec![first];
    for event in events {
        let (next, action) = bootstrap.step(event);
        bootstrap = next;
        actions.push(action);
    }
    (bootstrap, actions)
}

fn successful_events(port: u16) -> Vec<Event> {
    vec![
        good_sources(),
        Event::Provisioned,
        Event::Bound { port },
        Event::ServerStarted,
        Event::Migrated,
    ]
}

#[test]
fn a_start_begins_by_reading_the_sources() {
    let (bootstrap, action) = Bootstrap::start(Mode::Production);
    assert_eq!(action, Action::ReadSources);
    assert_eq!(bootstrap.stage(), Stage::ReadingSources);
    assert_eq!(bootstrap.mode(), Mode::Production);
    assert_eq!(bootstrap.failure(), None);
    assert!(bootstrap.settings().is_none());
    assert!(bootstrap.address().is_none());
    assert!(bootstrap.provision_plan().is_none());
    assert!(bootstrap.listen_address().is_none());
    assert!(bootstrap.mail_client().is_none());
}

#[test]
fn a_production_start_runs_through_every_step_in_order() {
    let (bootstrap, actions) = run(Mode::Production, successful_events(8000));
    assert_eq!(
        actions,
        vec![
            Action::ReadSources,
            Action::Provision,
            Action::Bind,
            Action::StartServer,
            Action::Migrate,
            Action::Release,
        ]
    );
    assert_eq!(bootstrap.stage(), Stage::Ready);
    assert_eq!(bootstrap.failure(), None);
    assert_eq!(bootstrap.environment(), Some(Environment::Local));
    assert_eq!(bootstrap.address().unwrap(), "http://127.0.0.1:8000");
    let settings = bootstrap.settings().unwrap();
    assert_eq!(settings.app.port, 8000);
    assert_eq!(settings.database.database_name, "newsletter");
}

#[test]
fn a_production_start_binds_the_configured_address() {
    let (bootstrap, _) = run(Mode::Production, vec![good_sources(), Event::Provisioned]);
    assert_eq!(bootstrap.stage(), Stage::Binding);
    assert_eq!(bootstrap.listen_address().unwrap(), "127.0.0.1:8000");
}

#[test]
fn a_production_start_plans_no_database_creation() {
    let (bootstrap, _) = run(
        Mode::Production,
        vec![sources("PRODUCTION", vec![base_layer()])],
    );
    assert_eq!(bootstrap.stage(), Stage::Provisioning);
    let plan = bootstrap.provision_plan().unwrap();
    assert!(plan.create.is_none());
    assert_eq!(plan.pool.database, "newsletter");
    assert_eq!(plan.max_connections, 10);
}

#[test]
fn health_check_works() {
    let (bootstrap, actions) = run(Mode::Test, successful_events(49152));
    assert_eq!(actions.last(), Some(&Action::Release));
    assert_eq!(bootstrap.stage(), Stage::Ready);
    assert_eq!(bootstrap.address().unwrap(), "http://127.0.0.1:49152");
    assert!(bootstrap.mail_client().is_some());
}

#[test]
fn a_test_start_asks_for_port_zero_and_reports_the_assigned_port() {
    let (bootstrap, _) = run(Mode::Test, vec![good_sources(), Event::Provisioned]);
    assert_eq!(bootstrap.listen_address().unwrap(), "127.0.0.1:0");
    let (bootstrap, action) = bootstrap.step(Event::Bound { port: 50123 });
    assert_eq!(action, Action::StartServer);
    let (bootstrap, _) = bootstrap.step(Event::ServerStarted);
    let (bootstrap, _) = bootstrap.step(Event::Migrated);
    let settings = bootstrap.settings().unwrap();
    assert_ne!(settings.app.port, 0);
    assert_eq!(settings.app.port, 50123);
}

#[test]
fn a_test_start_creates_a_database_of_its_own() {
    let (bootstrap, actions) = run(Mode::Test, vec![good_sources()]);
    assert_eq!(actions, vec![Action::ReadSources, Action::Provision]);
    let plan = bootstrap.provision_plan().unwrap();
    let create = plan.create.unwrap();
    assert_eq!(create.admin.database, "postgres");
    assert!(has_identifier_shape(&plan.pool.database));
    assert_eq!(create.statement, format!("CREATE DATABASE \"{}\";", plan.pool.database));
    assert_ne!(plan.pool.database, "newsletter");
}

#[test]
fn two_test_starts_get_two_databases() {
    let (first, _) = run(Mode::Test, successful_events(50001));
    let (second, _) = run(Mode::Test, successful_events(50002));
    let first = first.settings().unwrap();
    let second = second.settings().unwrap();
    assert!(has_identifier_shape(&first.database.database_name));
    assert!(has_identifier_shape(&second.database.database_name));
    assert_ne!(first.database.database_name, second.database.database_name);
    assert_ne!(first.app.port, second.app.port);
}

#[test]
fn a_given_name_is_the_name_of_the_test_database() {
    let (bootstrap, _) = Bootstrap::start(Mode::Test);
    let (bootstrap, action) =
        bootstrap.advance(good_sources(), "123e4567-e89b-42d3-a456-426614174000".to_string());
    assert_eq!(action, Action::Provision);
    let plan = bootstrap.provision_plan().unwrap();
    assert_eq!(plan.pool.database, "123e4567-e89b-42d3-a456-426614174000");
    assert_eq!(
        plan.create.unwrap().statement,
        "CREATE DATABASE \"123e4567-e89b-42d3-a456-426614174000\";"
    );
}

#[test]
fn a_test_start_refuses_a_name_without_the_generated_shape() {
    let (bootstrap, _) = Bootstrap::start(Mode::Test);
    let (bootstrap, action) = bootstrap.advance(good_sources(), "x\"; DROP TABLE y; --".to_string());
    assert_eq!(action, Action::Abort);
    assert_eq!(
        bootstrap.failure(),
        Some(BootstrapError::Provision(ProvisionError::CreateFailed))
    );
}

#[test]
fn a_production_start_ignores_the_given_name() {
    let (bootstrap, _) = Bootstrap::start(Mode::Production);
    let (bootstrap, action) = bootstrap.advance(good_sources(), "whatever".to_string());
    assert_eq!(action, Action::Provision);
    assert_eq!(bootstrap.provision_plan().unwrap().pool.database, "newsletter");
}

#[test]
fn an_unknown_environment_fails_the_start_and_binds_nothing() {
    for mode in [Mode::Production, Mode::Test] {
        let (bootstrap, actions) = run(
            mode,
            vec![
                sources("STAGING", vec![base_layer()]),
                Event::Provisioned,
                Event::Bound { port: 8000 },
                Event::ServerStarted,
                Event::Migrated,
            ],
        );
        assert_eq!(
            bootstrap.failure(),
            Some(BootstrapError::Config(ConfigError::InvalidEnvironment))
        );
        assert_eq!(bootstrap.stage(), Stage::Failed);
        assert!(!actions.contains(&Action::Bind));
        assert_eq!(
            actions,
            vec![
                Action::ReadSources,
                Action::Abort,
                Action::Nothing,
                Action::Nothing,
                Action::Nothing,
                Action::Nothing,
            ]
        );
        assert!(bootstrap.address().is_none());
        assert!(bootstrap.settings().is_none());
        assert!(bootstrap.listen_address().is_none());
    }
}

#[test]
fn max_connections_of_zero_fails_the_start_before_any_listener() {
    let cases = vec![
        (
            vec![base_layer(), layer_with("database.max_connections", "0")],
            ConfigError::InvalidValue(SettingKey::DatabaseMaxConnections),
        ),
        (
            vec![base_layer(), layer_with("database.max_connections", "lots")],
            ConfigError::InvalidValue(SettingKey::DatabaseMaxConnections),
        ),
        (
            vec![layer_with("app.port", "8000")],
            ConfigError::MissingField(SettingKey::DatabaseUsername),
        ),
    ];
    for (layers, expected) in cases {
        let (bootstrap, actions) =
            run(Mode::Test, vec![sources("LOCAL", layers), Event::Provisioned]);
        assert_eq!(bootstrap.failure(), Some(BootstrapError::Config(expected)));
        assert!(!actions.contains(&Action::Bind));
        assert!(bootstrap.address().is_none());
    }
}

#[test]
fn unreadable_sources_fail_the_start() {
    let (bootstrap, actions) = run(Mode::Production, vec![Event::SourcesUnreadable]);
    assert_eq!(bootstrap.failure(), Some(BootstrapError::Config(ConfigError::Unreadable)));
    assert_eq!(actions, vec![Action::ReadSources, Action::Abort]);
}

#[test]
fn a_failed_provisioning_fails_the_start() {
    for error in [ProvisionError::ConnectFailed, ProvisionError::CreateFailed] {
        let (bootstrap, actions) =
            run(Mode::Test, vec![good_sources(), Event::ProvisionFailed(error)]);
        assert_eq!(bootstrap.failure(), Some(BootstrapError::Provision(error)));
        assert_eq!(actions, vec![Action::ReadSources, Action::Provision, Action::Abort]);
    }
}

#[test]
fn a_failed_bind_fails_the_start() {
    let (bootstrap, actions) =
        run(Mode::Production, vec![good_sources(), Event::Provisioned, Event::BindFailed]);
    assert_eq!(bootstrap.failure(), Some(BootstrapError::Bind(BindError::BindFailed)));
    assert_eq!(actions.last(), Some(&Action::Abort));
    assert!(bootstrap.mail_client().is_none());
}

#[test]
fn a_listener_without_a_port_counts_as_not_bound() {
    let (bootstrap, actions) = run(
        Mode::Test,
        vec![good_sources(), Event::Provisioned, Event::Bound { port: 0 }],
    );
    assert_eq!(bootstrap.failure(), Some(BootstrapError::Bind(BindError::BindFailed)));
    assert_eq!(actions.last(), Some(&Action::Abort));
}

#[test]
fn an_invalid_sender_fails_the_assembly_and_starts_no_server() {
    for sender in ["no-at-sign.example.com", "@example.com", "sender@", ""] {
        let layers = vec![base_layer(), layer_with("email_client.sender_email", sender)];
        let (bootstrap, actions) = run(
            Mode::Production,
            vec![
                sources("LOCAL", layers),
                Event::Provisioned,
                Event::Bound { port: 8000 },
                Event::ServerStarted,
                Event::Migrated,
            ],
        );
        assert_eq!(
            bootstrap.failure(),
            Some(BootstrapError::Assembly(AssemblyError::InvalidSenderAddress))
        );
        assert!(!actions.contains(&Action::StartServer));
        assert!(!actions.contains(&Action::Migrate));
        assert!(!actions.contains(&Action::Release));
        assert!(bootstrap.mail_client().is_none());
        assert!(bootstrap.address().is_none());
    }
}

#[test]
fn a_server_that_does_not_start_fails_the_start() {
    let (bootstrap, actions) = run(
        Mode::Production,
        vec![good_sources(), Event::Provisioned, Event::Bound { port: 8000 }, Event::ServerFailed],
    );
    assert_eq!(bootstrap.failure(), Some(BootstrapError::Bind(BindError::ServeFailed)));
    assert_eq!(actions.last(), Some(&Action::Abort));
    assert!(!actions.contains(&Action::Migrate));
}

#[test]
fn a_failed_migration_releases_nothing() {
    let (bootstrap, actions) = run(
        Mode::Test,
        vec![
            good_sources(),
            Event::Provisioned,
            Event::Bound { port: 50000 },
            Event::ServerStarted,
            Event::MigrationFailed,
        ],
    );
    assert_eq!(
        bootstrap.failure(),
        Some(BootstrapError::Migration(MigrationError::MigrationFailed))
    );
    assert!(!actions.contains(&Action::Release));
    assert!(bootstrap.settings().is_none());
    assert!(bootstrap.address().is_none());
}

#[test]
fn an_event_out_of_turn_fails_the_start() {
    let (bootstrap, actions) = run(Mode::Production, vec![Event::Migrated]);
    assert_eq!(bootstrap.failure(), Some(BootstrapError::OutOfSequence));
    assert_eq!(actions, vec![Action::ReadSources, Action::Abort]);
    let (bootstrap, _) = run(Mode::Production, vec![good_sources(), Event::ServerStarted]);
    assert_eq!(bootstrap.failure(), Some(BootstrapError::OutOfSequence));
    let (bootstrap, _) = run(Mode::Production, vec![good_sources(), good_sources()]);
    assert_eq!(bootstrap.failure(), Some(BootstrapError::OutOfSequence));
}

#[test]
fn a_finished_start_answers_nothing_more() {
    let mut events = successful_events(8000);
    events.push(Event::Migrated);
    events.push(Event::BindFailed);
    let (bootstrap, actions) = run(Mode::Production, events);
    assert_eq!(bootstrap.stage(), Stage::Ready);
    assert_eq!(actions[6], Action::Nothing);
    assert_eq!(actions[7], Action::Nothing);
    assert_eq!(bootstrap.address().unwrap(), "http://127.0.0.1:8000");
}

#[test]
fn the_first_failure_is_kept() {
    let (bootstrap, actions) = run(
        Mode::Production,
        vec![good_sources(), Event::ProvisionFailed(ProvisionError::ConnectFailed), Event::BindFailed],
    );
    assert_eq!(
        bootstrap.failure(),
        Some(BootstrapError::Provision(ProvisionError::ConnectFailed))
    );
    assert_eq!(actions.last(), Some(&Action::Nothing));
}

#[test]
fn the_mail_client_is_built_from_the_settings() {
    let (bootstrap, _) = run(
        Mode::Production,
        vec![good_sources(), Event::Provisioned, Event::Bound { port: 8000 }],
    );
    let client = bootstrap.mail_client().unwrap();
    assert_eq!(client.sender(), "test@gmail.com");
    assert_eq!(client.base_url(), "http://localhost:9000");
    assert_eq!(client.timeout_milliseconds(), 10000);
}

#[test]
fn assembling_checks_the_sender() {
    let (bootstrap, _) = run(Mode::Production, successful_events(8000));
    let settings = bootstrap.settings().unwrap();
    let client = assemble(settings).unwrap();
    assert_eq!(client.sender(), "test@gmail.com");
    let mut broken = settings.duplicate();
    broken.email_client.sender_email = "nobody".to_string();
    assert!(matches!(assemble(&broken), Err(AssemblyError::InvalidSenderAddress)));
}

#[test]
fn only_a_finished_start_releases_a_handle() {
    let (bootstrap, _) = run(Mode::Test, successful_events(50010));
    let handle = bootstrap.release().unwrap();
    assert_eq!(handle.address, "http://127.0.0.1:50010");
    assert_eq!(handle.config.app.port, 50010);
    assert!(has_identifier_shape(&handle.config.database.database_name));

    let (bootstrap, _) = run(Mode::Production, vec![good_sources(), Event::Provisioned]);
    assert_eq!(bootstrap.release().unwrap_err(), BootstrapError::OutOfSequence);

    let (bootstrap, _) = run(Mode::Production, vec![good_sources(), Event::BindFailed]);
    assert_eq!(bootstrap.release().unwrap_err(), BootstrapError::OutOfSequence);

    let (bootstrap, _) =
        run(Mode::Production, vec![good_sources(), Event::Provisioned, Event::BindFailed]);
    assert_eq!(
        bootstrap.release().unwrap_err(),
        BootstrapError::Bind(BindError::BindFailed)
    );
}

#[test]
fn the_two_entry_points_differ_in_the_mode_only() {
    let (production, first) = zero2prod::startup::spawn_prod_app();
    let (test, second) = zero2prod::startup::spawn_test_app();
    assert_eq!(production.mode(), Mode::Production);
    assert_eq!(test.mode(), Mode::Test);
    assert_eq!(first, Action::ReadSources);
    assert_eq!(second, Action::ReadSources);
    assert_eq!(production.stage(), test.stage());
}

#[test]
fn a_failure_reads_as_step_and_cause() {
    assert_eq!(
        BootstrapError::Config(ConfigError::MissingField(SettingKey::AppHost)).message(),
        "configuration: missing setting: app.host"
    );
    assert_eq!(
        BootstrapError::Provision(ProvisionError::ConnectFailed).message(),
        "provisioning: the database server could not be reached"
    );
    assert_eq!(
        BootstrapError::Provision(ProvisionError::CreateFailed).message(),
        "provisioning: the database could not be created"
    );
    assert_eq!(
        BootstrapError::Bind(BindError::BindFailed).message(),
        "listener: the address could not be bound"
    );
    assert_eq!(
        BootstrapError::Bind(BindError::ServeFailed).message(),
        "listener: the server could not be started"
    );
    assert_eq!(
        BootstrapError::Assembly(AssemblyError::InvalidSenderAddress).message(),
        "assembly: the sender is no valid address"
    );
    assert_eq!(
        BootstrapError::Migration(MigrationError::MigrationFailed).message(),
        "migration: a migration did not go through"
    );
    assert_eq!(BootstrapError::OutOfSequence.message(), "an event arrived out of sequence");
}
