use zero2prod::configuration::get_configuration;
use zero2prod::configuration::ConfigError;
use zero2prod::configuration::SettingKey;
use zero2prod::environment::Environment;
use zero2prod::environment::SslMode;
use zero2prod::layers::lookup;
use zero2prod::layers::Layer;

fn base_layer() -> Layer {
    let mut layer = Layer::new();
    layer.set("app.port".to_string(), "8000".to_string());
    layer.set("app.host".to_string(), "127.0.0.1".to_string());
    layer.set("database.host".to_string(), "localhost".to_string());
    layer.set("database.port".to_string(), "5432".to_string());
    layer.set("database.username".to_string(), "postgres".to_string());
    layer.set("database.password".to_string(), "password".to_string());
    layer.set("database.database_name".to_string(), "newsletter".to_string());
    layer.set("database.max_connections".to_string(), "10".to_string());
    layer.set("email_client.base_url".to_string(), "http://localhost:9000".to_string());
    layer.set("email_client.sender_email".to_string(), "test@gmail.com".to_string());
    layer.set("email_client.auth_token".to_string(), "my-secret-token".to_string());
    layer.set("email_client.timeout_milliseconds".to_string(), "10000".to_string());
    layer
}

fn layer_with(key: &str, value: &str) -> Layer {
    let mut layer = Layer::new();
    layer.set(key.to_string(), value.to_string());
    layer
}

fn base_without(key: &str) -> Layer {
    let base = base_layer();
    let mut layer = Layer::new();
    for entry in base.entries {
        if entry.key != key {
            layer.set(entry.key, entry.value);
        }
    }
    layer
}

#[test]
fn the_base_source_alone_resolves() {
    let settings = get_configuration("LOCAL", &vec![base_layer()]).unwrap();
    assert_eq!(settings.app.port, 8000);
    assert_eq!(settings.app.host, "127.0.0.1");
    assert_eq!(settings.database.host, "localhost");
    assert_eq!(settings.database.port, 5432);
    assert_eq!(settings.database.username, "postgres");
    assert_eq!(settings.database.password.expose(), "password");
    assert_eq!(settings.database.database_name, "newsletter");
    assert_eq!(settings.database.max_connections, 10);
    assert_eq!(settings.email_client.base_url, "http://localhost:9000");
    assert_eq!(settings.email_client.sender_email, "test@gmail.com");
    assert_eq!(settings.email_client.auth_token.expose(), "my-secret-token");
    assert_eq!(settings.email_client.timeout_milliseconds, 10000);
}

#[test]
fn an_environment_variable_wins_over_a_file_value() {
    let layers = vec![
        base_layer(),
        layer_with("app.port", "9000"),
        layer_with("app.port", "9100"),
    ];
    let settings = get_configuration("PRODUCTION", &layers).unwrap();
    assert_eq!(settings.app.port, 9100);
    assert_eq!(settings.app.host, "127.0.0.1");
}

#[test]
fn the_environment_file_wins_over_the_base_file() {
    let layers = vec![base_layer(), layer_with("database.host", "db.internal"), Layer::new()];
    let settings = get_configuration("CI", &layers).unwrap();
    assert_eq!(settings.database.host, "db.internal");
    assert_eq!(settings.database.port, 5432);
}

#[test]
fn an_absent_environment_file_is_no_error() {
    let layers = vec![base_layer(), Layer::new(), Layer::new()];
    assert!(get_configuration("LOCAL", &layers).is_ok());
}

#[test]
fn a_later_entry_of_one_source_replaces_an_earlier_one() {
    let mut layer = base_layer();
    layer.set("app.host".to_string(), "0.0.0.0".to_string());
    let settings = get_configuration("LOCAL", &vec![layer]).unwrap();
    assert_eq!(settings.app.host, "0.0.0.0");
}

#[test]
fn lookup_takes_the_last_source_that_has_the_key() {
    let layers = vec![
        layer_with("a", "1"),
        layer_with("a", "2"),
        layer_with("b", "3"),
    ];
    assert_eq!(lookup(&layers, "a"), Some(&"2".to_string()));
    assert_eq!(lookup(&layers, "b"), Some(&"3".to_string()));
    assert_eq!(lookup(&layers, "c"), None);
    assert_eq!(layers[0].get("a"), Some(&"1".to_string()));
    assert_eq!(layers[0].get("b"), None);
}

#[test]
fn an_unknown_environment_is_rejected() {
    for selector in ["STAGING", "", "production", "local", " LOCAL", "CI "] {
        assert_eq!(
            get_configuration(selector, &vec![base_layer()]).unwrap_err(),
            ConfigError::InvalidEnvironment
        );
    }
}

#[test]
fn an_unknown_environment_is_reported_before_any_setting() {
    assert_eq!(
        get_configuration("STAGING", &vec![Layer::new()]).unwrap_err(),
        ConfigError::InvalidEnvironment
    );
}

#[test]
fn every_known_environment_is_accepted() {
    assert_eq!(Environment::parse("PRODUCTION"), Ok(Environment::Production));
    assert_eq!(Environment::parse("LOCAL"), Ok(Environment::Local));
    assert_eq!(Environment::parse("CI"), Ok(Environment::Ci));
    for environment in [Environment::Production, Environment::Local, Environment::Ci] {
        assert_eq!(Environment::parse(environment.selector()), Ok(environment));
    }
}

#[test]
fn each_environment_has_its_own_file() {
    assert_eq!(Environment::Production.overlay_file(), "prod.yaml");
    assert_eq!(Environment::Local.overlay_file(), "local.yaml");
    assert_eq!(Environment::Ci.overlay_file(), "ci.yaml");
}

#[test]
fn only_production_requires_tls() {
    assert_eq!(Environment::Production.ssl_mode(), SslMode::Require);
    assert_eq!(Environment::Local.ssl_mode(), SslMode::Prefer);
    assert_eq!(Environment::Ci.ssl_mode(), SslMode::Prefer);
}

#[test]
fn each_missing_setting_is_named() {
    for key in SettingKey::all() {
        let layers = vec![base_without(key.name())];
        assert_eq!(
            get_configuration("LOCAL", &layers).unwrap_err(),
            ConfigError::MissingField(key)
        );
    }
}

#[test]
fn the_first_missing_setting_is_reported() {
    assert_eq!(
        get_configuration("LOCAL", &vec![Layer::new()]).unwrap_err(),
        ConfigError::MissingField(SettingKey::DatabaseUsername)
    );
}

#[test]
fn a_port_that_is_no_number_is_rejected() {
    let layers = vec![base_layer(), layer_with("app.port", "eighty")];
    assert_eq!(
        get_configuration("LOCAL", &layers).unwrap_err(),
        ConfigError::InvalidValue(SettingKey::AppPort)
    );
    let layers = vec![base_layer(), layer_with("database.port", "70000")];
    assert_eq!(
        get_configuration("LOCAL", &layers).unwrap_err(),
        ConfigError::InvalidValue(SettingKey::DatabasePort)
    );
    let layers = vec![base_layer(), layer_with("email_client.timeout_milliseconds", "-5")];
    assert_eq!(
        get_configuration("LOCAL", &layers).unwrap_err(),
        ConfigError::InvalidValue(SettingKey::EmailTimeout)
    );
}

#[test]
fn max_connections_of_zero_is_rejected() {
    let layers = vec![base_layer(), layer_with("database.max_connections", "0")];
    assert_eq!(
        get_configuration("LOCAL", &layers).unwrap_err(),
        ConfigError::InvalidValue(SettingKey::DatabaseMaxConnections)
    );
}

#[test]
fn max_connections_omitted_is_rejected() {
    let layers = vec![base_without("database.max_connections")];
    assert_eq!(
        get_configuration("LOCAL", &layers).unwrap_err(),
        ConfigError::MissingField(SettingKey::DatabaseMaxConnections)
    );
}

#[test]
fn max_connections_out_of_range_is_rejected() {
    for value in ["256", "many", "", "1.5"] {
        let layers = vec![base_layer(), layer_with("database.max_connections", value)];
        assert_eq!(
            get_configuration("LOCAL", &layers).unwrap_err(),
            ConfigError::InvalidValue(SettingKey::DatabaseMaxConnections)
        );
    }
    let layers = vec![base_layer(), layer_with("database.max_connections", "255")];
    assert_eq!(get_configuration("LOCAL", &layers).unwrap().database.max_connections, 255);
    let layers = vec![base_layer(), layer_with("database.max_connections", "1")];
    assert_eq!(get_configuration("LOCAL", &layers).unwrap().database.max_connections, 1);
}

#[test]
fn a_port_of_zero_is_a_valid_setting() {
    let layers = vec![base_layer(), layer_with("app.port", "0")];
    assert_eq!(get_configuration("LOCAL", &layers).unwrap().app.port, 0);
}

#[test]
fn the_setting_names_are_the_dotted_keys() {
    let names: Vec<&str> = SettingKey::all().iter().map(|key| key.name()).collect();
    assert_eq!(
        names,
        vec![
            "database.username",
            "database.password",
            "database.port",
            "database.host",
            "database.database_name",
            "database.max_connections",
            "app.port",
            "app.host",
            "email_client.base_url",
            "email_client.sender_email",
            "email_client.auth_token",
            "email_client.timeout_milliseconds",
        ]
    );
}

#[test]
fn the_addresses_are_built_from_host_and_port() {
    let settings = get_configuration("LOCAL", &vec![base_layer()]).unwrap();
    assert_eq!(settings.app.bind_address(), "127.0.0.1:8000");
    assert_eq!(settings.app_address(), "http://127.0.0.1:8000");
}

#[test]
fn the_connection_options_follow_the_settings() {
    let settings = get_configuration("LOCAL", &vec![base_layer()]).unwrap();
    let options = settings.database.connection_options(Environment::Local);
    assert_eq!(options.host, "localhost");
    assert_eq!(options.port, 5432);
    assert_eq!(options.username, "postgres");
    assert_eq!(options.password.expose(), "password");
    assert_eq!(options.database, "newsletter");
    assert_eq!(options.ssl_mode, SslMode::Prefer);
    let options = settings.database.connection_options(Environment::Production);
    assert_eq!(options.ssl_mode, SslMode::Require);
}

#[test]
fn the_maintenance_connection_goes_to_postgres() {
    let settings = get_configuration("CI", &vec![base_layer()]).unwrap();
    let options = settings.database.postgres_connection_options(Environment::Ci);
    assert_eq!(options.database, "postgres");
    assert_eq!(options.host, "localhost");
    assert_eq!(options.username, "postgres");
    assert_eq!(options.password.expose(), "password");
    assert_eq!(options.ssl_mode, SslMode::Prefer);
}

#[test]
fn a_duplicate_of_the_settings_has_the_same_contents() {
    let settings = get_configuration("LOCAL", &vec![base_layer()]).unwrap();
    let copy = settings.duplicate();
    assert_eq!(copy.app.port, 8000);
    assert_eq!(copy.database.password.expose(), "password");
    assert_eq!(copy.email_client.auth_token.expose(), "my-secret-token");
    assert_eq!(copy.database.database_name, "newsletter");
}

#[test]
fn secrets_do_not_show_in_debug_output() {
    let settings = get_configuration("LOCAL", &vec![base_layer()]).unwrap();
    let shown = format!("{:?}", settings);
    assert!(!shown.contains("my-secret-token"));
    assert!(!shown.contains("password\""));
    assert!(shown.contains("REDACTED"));
    assert!(shown.contains("newsletter"));
}

#[test]
fn a_configuration_error_names_the_setting_and_no_value() {
    assert_eq!(
        ConfigError::InvalidEnvironment.message(),
        "invalid APP_ENVIRONMENT, use one of PRODUCTION, LOCAL, or CI"
    );
    assert_eq!(
        ConfigError::MissingField(SettingKey::DatabasePassword).message(),
        "missing setting: database.password"
    );
    assert_eq!(
        ConfigError::InvalidValue(SettingKey::AppPort).message(),
        "invalid value for setting: app.port"
    );
    assert_eq!(ConfigError::Unreadable.message(), "the configuration sources could not be read");
}
