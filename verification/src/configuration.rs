use crate::environment::environment_of;
use crate::environment::ssl_mode_of;
use crate::environment::Environment;
use crate::environment::SslMode;
use crate::layers::layer_maps;
use crate::layers::lookup;
use crate::layers::merged;
use crate::layers::Layer;
use crate::numbers::decimal_of;
use crate::numbers::decimal_text;
use crate::numbers::parse_decimal;
use crate::numbers::render_decimal;
use crate::secret::SecretText;
use vstd::prelude::*;

verus! {

/// The settings that every configuration must supply.
#[derive(Clone, Copy, Debug, PartialEq, Eq, Structural)]
pub enum SettingKey {
    DatabaseUsername,
    DatabasePassword,
    DatabasePort,
    DatabaseHost,
    DatabaseName,
    DatabaseMaxConnections,
    AppPort,
    AppHost,
    EmailBaseUrl,
    EmailSender,
    EmailAuthToken,
    EmailTimeout,
}

/// Why no settings could be produced.
#[derive(Clone, Copy, Debug, PartialEq, Eq, Structural)]
pub enum ConfigError {
    /// The environment selector names none of the known environments.
    InvalidEnvironment,
    /// No source has a value for this setting.
    MissingField(SettingKey),
    /// The value found for this setting is not a number in its range.
    InvalidValue(SettingKey),
    /// A source could not be read at all.
    Unreadable,
}

/// The dotted key under which the sources hold a setting.
pub open spec fn key_name(key: SettingKey) -> Seq<char> {
    match key {
        SettingKey::DatabaseUsername => "database.username"@,
        SettingKey::DatabasePassword => "database.password"@,
        SettingKey::DatabasePort => "database.port"@,
        SettingKey::DatabaseHost => "database.host"@,
        SettingKey::DatabaseName => "database.database_name"@,
        SettingKey::DatabaseMaxConnections => "database.max_connections"@,
        SettingKey::AppPort => "app.port"@,
        SettingKey::AppHost => "app.host"@,
        SettingKey::EmailBaseUrl => "email_client.base_url"@,
        SettingKey::EmailSender => "email_client.sender_email"@,
        SettingKey::EmailAuthToken => "email_client.auth_token"@,
        SettingKey::EmailTimeout => "email_client.timeout_milliseconds"@,
    }
}

/// How a failure to resolve the settings reads. It names the setting at
/// fault and never a value, so that no secret can show in it.
pub open spec fn config_error_text(error: ConfigError) -> Seq<char> {
    match error {
        ConfigError::InvalidEnvironment =>
            "invalid APP_ENVIRONMENT, use one of PRODUCTION, LOCAL, or CI"@,
        ConfigError::MissingField(key) => "missing setting: "@ + key_name(key),
        ConfigError::InvalidValue(key) => "invalid value for setting: "@ + key_name(key),
        ConfigError::Unreadable => "the configuration sources could not be read"@,
    }
}

impl ConfigError {
    /// The failure in words.
    pub fn message(&self) -> (text: String)
        ensures
            text@ == config_error_text(*self),
    {
        match self {
            ConfigError::InvalidEnvironment => String::from_str(
                "invalid APP_ENVIRONMENT, use one of PRODUCTION, LOCAL, or CI",
            ),
            ConfigError::MissingField(key) => {
                let mut text = String::from_str("missing setting: ");
                text.append(key.name());
                text
            },
            ConfigError::InvalidValue(key) => {
                let mut text = String::from_str("invalid value for setting: ");
                text.append(key.name());
                text
            },
            ConfigError::Unreadable => String::from_str(
                "the configuration sources could not be read",
            ),
        }
    }
}

/// Whether a setting is a number.
pub open spec fn is_number(key: SettingKey) -> bool {
    key == SettingKey::DatabasePort || key == SettingKey::DatabaseMaxConnections || key
        == SettingKey::AppPort || key == SettingKey::EmailTimeout
}

/// The smallest value a numeric setting may have.
pub open spec fn lower_bound(key: SettingKey) -> nat {
    if key == SettingKey::DatabaseMaxConnections {
        1
    } else {
        0
    }
}

/// The largest value a numeric setting may have.
pub open spec fn upper_bound(key: SettingKey) -> nat {
    match key {
        SettingKey::DatabasePort => 0xffff,
        SettingKey::AppPort => 0xffff,
        SettingKey::DatabaseMaxConnections => 0xff,
        _ => 0xffff_ffff_ffff_ffff,
    }
}

/// The number a raw text stands for as the value of `key`.
pub open spec fn number_of(text: Seq<char>, key: SettingKey) -> Option<nat> {
    match decimal_of(text, upper_bound(key)) {
        Some(n) => if n >= lower_bound(key) {
            Some(n)
        } else {
            None
        },
        None => None,
    }
}

/// What is wrong with one setting in the merged sources, if anything.
pub open spec fn problem_at(merged: Map<Seq<char>, Seq<char>>, key: SettingKey) -> Option<
    ConfigError,
> {
    if !merged.contains_key(key_name(key)) {
        Some(ConfigError::MissingField(key))
    } else if is_number(key) && number_of(merged[key_name(key)], key) is None {
        Some(ConfigError::InvalidValue(key))
    } else {
        None
    }
}

pub struct ApplicationView {
    pub port: u16,
    pub host: Seq<char>,
}

pub struct EmailClientView {
    pub base_url: Seq<char>,
    pub sender_email: Seq<char>,
    pub auth_token: Seq<char>,
    pub timeout_milliseconds: u64,
}

pub struct DatabaseView {
    pub username: Seq<char>,
    pub password: Seq<char>,
    pub port: u16,
    pub host: Seq<char>,
    pub database_name: Seq<char>,
    pub max_connections: u8,
}

pub struct SettingsView {
    pub database: DatabaseView,
    pub app: ApplicationView,
    pub email_client: EmailClientView,
}

pub struct ConnectionView {
    pub host: Seq<char>,
    pub port: u16,
    pub username: Seq<char>,
    pub password: Seq<char>,
    pub database: Seq<char>,
    pub ssl_mode: SslMode,
}

/// The text the merged sources hold for a setting.
pub open spec fn text_at(merged: Map<Seq<char>, Seq<char>>, key: SettingKey) -> Seq<char> {
    merged[key_name(key)]
}

/// The number the merged sources hold for a numeric setting.
pub open spec fn number_at(merged: Map<Seq<char>, Seq<char>>, key: SettingKey) -> nat {
    number_of(merged[key_name(key)], key).unwrap()
}

/// The settings that merged sources without a problem stand for.
pub open spec fn settings_of(merged: Map<Seq<char>, Seq<char>>) -> SettingsView {
    SettingsView {
        database: DatabaseView {
            username: text_at(merged, SettingKey::DatabaseUsername),
            password: text_at(merged, SettingKey::DatabasePassword),
            port: number_at(merged, SettingKey::DatabasePort) as u16,
            host: text_at(merged, SettingKey::DatabaseHost),
            database_name: text_at(merged, SettingKey::DatabaseName),
            max_connections: number_at(merged, SettingKey::DatabaseMaxConnections) as u8,
        },
        app: ApplicationView {
            port: number_at(merged, SettingKey::AppPort) as u16,
            host: text_at(merged, SettingKey::AppHost),
        },
        email_client: EmailClientView {
            base_url: text_at(merged, SettingKey::EmailBaseUrl),
            sender_email: text_at(merged, SettingKey::EmailSender),
            auth_token: text_at(merged, SettingKey::EmailAuthToken),
            timeout_milliseconds: number_at(merged, SettingKey::EmailTimeout) as u64,
        },
    }
}

/// The first problem among the settings, taken in their fixed order.
pub open spec fn first_problem(merged: Map<Seq<char>, Seq<char>>) -> Option<ConfigError> {
    if problem_at(merged, SettingKey::DatabaseUsername) is Some {
        problem_at(merged, SettingKey::DatabaseUsername)
    } else if problem_at(merged, SettingKey::DatabasePassword) is Some {
        problem_at(merged, SettingKey::DatabasePassword)
    } else if problem_at(merged, SettingKey::DatabasePort) is Some {
        problem_at(merged, SettingKey::DatabasePort)
    } else if problem_at(merged, SettingKey::DatabaseHost) is Some {
        problem_at(merged, SettingKey::DatabaseHost)
    } else if problem_at(merged, SettingKey::DatabaseName) is Some {
        problem_at(merged, SettingKey::DatabaseName)
    } else if problem_at(merged, SettingKey::DatabaseMaxConnections) is Some {
        problem_at(merged, SettingKey::DatabaseMaxConnections)
    } else if problem_at(merged, SettingKey::AppPort) is Some {
        problem_at(merged, SettingKey::AppPort)
    } else if problem_at(merged, SettingKey::AppHost) is Some {
        problem_at(merged, SettingKey::AppHost)
    } else if problem_at(merged, SettingKey::EmailBaseUrl) is Some {
        problem_at(merged, SettingKey::EmailBaseUrl)
    } else if problem_at(merged, SettingKey::EmailSender) is Some {
        problem_at(merged, SettingKey::EmailSender)
    } else if problem_at(merged, SettingKey::EmailAuthToken) is Some {
        problem_at(merged, SettingKey::EmailAuthToken)
    } else {
        problem_at(merged, SettingKey::EmailTimeout)
    }
}

/// What a selector and an ordered list of sources resolve to: the selector
/// is judged first, then the settings in their fixed order, and the first
/// failure is the answer.
pub open spec fn resolved(selector: Seq<char>, layers: Seq<Map<Seq<char>, Seq<char>>>) -> Result<
    SettingsView,
    ConfigError,
> {
    if environment_of(selector) is None {
        Err(ConfigError::InvalidEnvironment)
    } else {
        match first_problem(merged(layers)) {
            Some(problem) => Err(problem),
            None => Ok(settings_of(merged(layers))),
        }
    }
}

/// The text that settings hold for a setting that is text.
pub open spec fn setting_text(settings: SettingsView, key: SettingKey) -> Seq<char> {
    match key {
        SettingKey::DatabaseUsername => settings.database.username,
        SettingKey::DatabasePassword => settings.database.password,
        SettingKey::DatabaseHost => settings.database.host,
        SettingKey::DatabaseName => settings.database.database_name,
        SettingKey::AppHost => settings.app.host,
        SettingKey::EmailBaseUrl => settings.email_client.base_url,
        SettingKey::EmailSender => settings.email_client.sender_email,
        SettingKey::EmailAuthToken => settings.email_client.auth_token,
        _ => Seq::empty(),
    }
}

/// The number that settings hold for a setting that is a number.
pub open spec fn setting_number(settings: SettingsView, key: SettingKey) -> nat {
    match key {
        SettingKey::DatabasePort => settings.database.port as nat,
        SettingKey::DatabaseMaxConnections => settings.database.max_connections as nat,
        SettingKey::AppPort => settings.app.port as nat,
        SettingKey::EmailTimeout => settings.email_client.timeout_milliseconds as nat,
        _ => 0,
    }
}

/// The deepest override decides every setting: where the sources resolve,
/// and a source has a value for a setting that no later source has, the
/// resolved settings hold that value, read as a number where the setting is
/// a number.
pub proof fn lemma_deepest_override_decides(
    selector: Seq<char>,
    layers: Seq<Map<Seq<char>, Seq<char>>>,
    i: int,
    key: SettingKey,
)
    requires
        resolved(selector, layers) is Ok,
        0 <= i < layers.len(),
        layers[i].contains_key(key_name(key)),
        forall|j: int| i < j < layers.len() ==> !(#[trigger] layers[j]).contains_key(key_name(key)),
    ensures
        is_number(key) ==> number_of(layers[i][key_name(key)], key) == Some(
            setting_number(resolved(selector, layers)->Ok_0, key),
        ),
        !is_number(key) ==> setting_text(resolved(selector, layers)->Ok_0, key)
            == layers[i][key_name(key)],
{
    crate::layers::lemma_deepest_layer_wins(layers, i, key_name(key));
    let all = merged(layers);
    assert(first_problem(all) is None);
    assert(problem_at(all, key) is None);
}

/// Settings that resolve are valid, and every one of their values is what
/// the merged sources hold for its key.
pub proof fn lemma_resolved_is_valid(selector: Seq<char>, layers: Seq<Map<Seq<char>, Seq<char>>>)
    requires
        resolved(selector, layers) is Ok,
    ensures
        environment_of(selector) is Some,
        resolved(selector, layers)->Ok_0.valid(),
        forall|key: SettingKey| #[trigger] problem_at(merged(layers), key) is None,
{
    let all = merged(layers);
    assert(first_problem(all) is None);
    assert forall|key: SettingKey| #[trigger] problem_at(all, key) is None by {
        match key {
            SettingKey::DatabaseUsername => {},
            SettingKey::DatabasePassword => {},
            SettingKey::DatabasePort => {},
            SettingKey::DatabaseHost => {},
            SettingKey::DatabaseName => {},
            SettingKey::DatabaseMaxConnections => {},
            SettingKey::AppPort => {},
            SettingKey::AppHost => {},
            SettingKey::EmailBaseUrl => {},
            SettingKey::EmailSender => {},
            SettingKey::EmailAuthToken => {},
            SettingKey::EmailTimeout => {},
        }
    }
}

impl SettingKey {
    /// The dotted key under which the sources hold this setting.
    pub fn name(&self) -> (name: &'static str)
        ensures
            name@ == key_name(*self),
    {
        match self {
            SettingKey::DatabaseUsername => "database.username",
            SettingKey::DatabasePassword => "database.password",
            SettingKey::DatabasePort => "database.port",
            SettingKey::DatabaseHost => "database.host",
            SettingKey::DatabaseName => "database.database_name",
            SettingKey::DatabaseMaxConnections => "database.max_connections",
            SettingKey::AppPort => "app.port",
            SettingKey::AppHost => "app.host",
            SettingKey::EmailBaseUrl => "email_client.base_url",
            SettingKey::EmailSender => "email_client.sender_email",
            SettingKey::EmailAuthToken => "email_client.auth_token",
            SettingKey::EmailTimeout => "email_client.timeout_milliseconds",
        }
    }

    /// The range a numeric setting must lie in.
    fn bounds(&self) -> (range: (u64, u64))
        requires
            is_number(*self),
        ensures
            range.0 == lower_bound(*self),
            range.1 == upper_bound(*self),
    {
        match self {
            SettingKey::DatabasePort => (0, 0xffff),
            SettingKey::AppPort => (0, 0xffff),
            SettingKey::DatabaseMaxConnections => (1, 0xff),
            _ => (0, 0xffff_ffff_ffff_ffff),
        }
    }

    /// All settings, in the order in which they are judged.
    pub fn all() -> (keys: Vec<SettingKey>)
        ensures
            keys@ == seq![
                SettingKey::DatabaseUsername,
                SettingKey::DatabasePassword,
                SettingKey::DatabasePort,
                SettingKey::DatabaseHost,
                SettingKey::DatabaseName,
                SettingKey::DatabaseMaxConnections,
                SettingKey::AppPort,
                SettingKey::AppHost,
                SettingKey::EmailBaseUrl,
                SettingKey::EmailSender,
                SettingKey::EmailAuthToken,
                SettingKey::EmailTimeout,
            ],
    {
        let mut keys: Vec<SettingKey> = Vec::new();
        keys.push(SettingKey::DatabaseUsername);
        keys.push(SettingKey::DatabasePassword);
        keys.push(SettingKey::DatabasePort);
        keys.push(SettingKey::DatabaseHost);
        keys.push(SettingKey::DatabaseName);
        keys.push(SettingKey::DatabaseMaxConnections);
        keys.push(SettingKey::AppPort);
        keys.push(SettingKey::AppHost);
        keys.push(SettingKey::EmailBaseUrl);
        keys.push(SettingKey::EmailSender);
        keys.push(SettingKey::EmailAuthToken);
        keys.push(SettingKey::EmailTimeout);
        assert(keys@ =~= seq![
            SettingKey::DatabaseUsername,
            SettingKey::DatabasePassword,
            SettingKey::DatabasePort,
            SettingKey::DatabaseHost,
            SettingKey::DatabaseName,
            SettingKey::DatabaseMaxConnections,
            SettingKey::AppPort,
            SettingKey::AppHost,
            SettingKey::EmailBaseUrl,
            SettingKey::EmailSender,
            SettingKey::EmailAuthToken,
            SettingKey::EmailTimeout,
        ]);
        keys
    }
}

/// Where the service listens.
#[derive(Debug)]
pub struct ApplicationSettings {
    pub port: u16,
    pub host: String,
}

/// How the outbound mail service is reached.
#[derive(Debug)]
pub struct EmailClientSettings {
    pub base_url: String,
    pub sender_email: String,
    pub auth_token: SecretText,
    pub timeout_milliseconds: u64,
}

/// How the database is reached.
#[derive(Debug)]
pub struct DatabaseSettings {
    pub username: String,
    pub password: SecretText,
    pub port: u16,
    pub host: String,
    pub database_name: String,
    pub max_connections: u8,
}

/// Everything one start of the service is configured with.
#[derive(Debug)]
pub struct Settings {
    pub database: DatabaseSettings,
    pub app: ApplicationSettings,
    pub email_client: EmailClientSettings,
}

/// The parameters of one database connection.
#[derive(Debug)]
pub struct ConnectionOptions {
    pub host: String,
    pub port: u16,
    pub username: String,
    pub password: SecretText,
    pub database: String,
    pub ssl_mode: SslMode,
}

impl View for ApplicationSettings {
    type V = ApplicationView;

    open spec fn view(&self) -> ApplicationView {
        ApplicationView { port: self.port, host: self.host@ }
    }
}

impl View for EmailClientSettings {
    type V = EmailClientView;

    open spec fn view(&self) -> EmailClientView {
        EmailClientView {
            base_url: self.base_url@,
            sender_email: self.sender_email@,
            auth_token: self.auth_token@,
            timeout_milliseconds: self.timeout_milliseconds,
        }
    }
}

impl View for DatabaseSettings {
    type V = DatabaseView;

    open spec fn view(&self) -> DatabaseView {
        DatabaseView {
            username: self.username@,
            password: self.password@,
            port: self.port,
            host: self.host@,
            database_name: self.database_name@,
            max_connections: self.max_connections,
        }
    }
}

impl View for Settings {
    type V = SettingsView;

    open spec fn view(&self) -> SettingsView {
        SettingsView {
            database: self.database@,
            app: self.app@,
            email_client: self.email_client@,
        }
    }
}

impl View for ConnectionOptions {
    type V = ConnectionView;

    open spec fn view(&self) -> ConnectionView {
        ConnectionView {
            host: self.host@,
            port: self.port,
            username: self.username@,
            password: self.password@,
            database: self.database@,
            ssl_mode: self.ssl_mode,
        }
    }
}

/// The connection to one database of the configured server.
pub open spec fn connection_to(
    database: DatabaseView,
    name: Seq<char>,
    environment: Environment,
) -> ConnectionView {
    ConnectionView {
        host: database.host,
        port: database.port,
        username: database.username,
        password: database.password,
        database: name,
        ssl_mode: ssl_mode_of(environment),
    }
}

/// `host:port`, the form in which a listener is asked for.
pub open spec fn bind_address_of(app: ApplicationView) -> Seq<char> {
    app.host + ":"@ + decimal_text(app.port as nat)
}

/// The address under which the running service answers HTTP requests.
pub open spec fn app_address_of(app: ApplicationView) -> Seq<char> {
    "http://"@ + bind_address_of(app)
}

impl SettingsView {
    /// What must hold of settings before anything is started with them.
    pub open spec fn valid(self) -> bool {
        self.database.max_connections >= 1
    }
}

impl ApplicationSettings {
    /// `host:port`, the form in which a listener is asked for.
    pub fn bind_address(&self) -> (address: String)
        ensures
            address@ == bind_address_of(self@),
    {
        let mut address = self.host.clone();
        address.append(":");
        let port = render_decimal(self.port as u64);
        address.append(port.as_str());
        address
    }

    /// A second value with the same contents.
    pub fn duplicate(&self) -> (copy: ApplicationSettings)
        ensures
            copy@ == self@,
    {
        ApplicationSettings { port: self.port, host: self.host.clone() }
    }
}

impl EmailClientSettings {
    /// A second value with the same contents.
    pub fn duplicate(&self) -> (copy: EmailClientSettings)
        ensures
            copy@ == self@,
    {
        EmailClientSettings {
            base_url: self.base_url.clone(),
            sender_email: self.sender_email.clone(),
            auth_token: self.auth_token.duplicate(),
            timeout_milliseconds: self.timeout_milliseconds,
        }
    }
}

impl DatabaseSettings {
    /// The connection to the server's maintenance database, from which
    /// other databases are created.
    pub fn postgres_connection_options(&self, environment: Environment) -> (options:
        ConnectionOptions)
        ensures
            options@ == connection_to(self@, "postgres"@, environment),
    {
        ConnectionOptions {
            host: self.host.clone(),
            port: self.port,
            username: self.username.clone(),
            password: self.password.duplicate(),
            database: String::from_str("postgres"),
            ssl_mode: environment.ssl_mode(),
        }
    }

    /// The connection to the configured database.
    pub fn connection_options(&self, environment: Environment) -> (options: ConnectionOptions)
        ensures
            options@ == connection_to(self@, self@.database_name, environment),
    {
        ConnectionOptions {
            host: self.host.clone(),
            port: self.port,
            username: self.username.clone(),
            password: self.password.duplicate(),
            database: self.database_name.clone(),
            ssl_mode: environment.ssl_mode(),
        }
    }

    /// A second value with the same contents.
    pub fn duplicate(&self) -> (copy: DatabaseSettings)
        ensures
            copy@ == self@,
    {
        DatabaseSettings {
            username: self.username.clone(),
            password: self.password.duplicate(),
            port: self.port,
            host: self.host.clone(),
            database_name: self.database_name.clone(),
            max_connections: self.max_connections,
        }
    }
}

impl Settings {
    /// The address under which the running service answers HTTP requests.
    pub fn app_address(&self) -> (address: String)
        ensures
            address@ == app_address_of(self@.app),
    {
        let mut address = String::from_str("http://");
        let rest = self.app.bind_address();
        address.append(rest.as_str());
        address
    }

    /// A second value with the same contents.
    pub fn duplicate(&self) -> (copy: Settings)
        ensures
            copy@ == self@,
    {
        Settings {
            database: self.database.duplicate(),
            app: self.app.duplicate(),
            email_client: self.email_client.duplicate(),
        }
    }
}

/// The text of a setting, or the report that it is missing.
fn text_setting(layers: &Vec<Layer>, key: SettingKey) -> (found: Result<String, ConfigError>)
    requires
        !is_number(key),
    ensures
        match found {
            Ok(text) => problem_at(merged(layer_maps(layers@)), key) is None && text@ == text_at(
                merged(layer_maps(layers@)),
                key,
            ),
            Err(e) => problem_at(merged(layer_maps(layers@)), key) == Some(e),
        },
{
    match lookup(layers, key.name()) {
        Some(text) => Ok(text.clone()),
        None => Err(ConfigError::MissingField(key)),
    }
}

/// The value of a numeric setting, or the report of what is wrong with it.
fn number_setting(layers: &Vec<Layer>, key: SettingKey) -> (found: Result<u64, ConfigError>)
    requires
        is_number(key),
    ensures
        match found {
            Ok(n) => problem_at(merged(layer_maps(layers@)), key) is None && n == number_at(
                merged(layer_maps(layers@)),
                key,
            ),
            Err(e) => problem_at(merged(layer_maps(layers@)), key) == Some(e),
        },
{
    let (low, high) = key.bounds();
    match lookup(layers, key.name()) {
        Some(text) => match parse_decimal(text.as_str(), high) {
            Some(n) => {
                if n >= low {
                    Ok(n)
                } else {
                    Err(ConfigError::InvalidValue(key))
                }
            },
            None => Err(ConfigError::InvalidValue(key)),
        },
        None => Err(ConfigError::MissingField(key)),
    }
}

/// Resolves the settings from the environment selector and the ordered
/// sources (base file, environment file, environment variables): the later
/// source overrides the earlier one setting by setting, numbers are read
/// from their text, and the first failure is reported.
pub fn get_configuration(selector: &str, layers: &Vec<Layer>) -> (outcome: Result<
    Settings,
    ConfigError,
>)
    ensures
        match outcome {
            Ok(settings) => resolved(selector@, layer_maps(layers@)) == Ok::<
                SettingsView,
                ConfigError,
            >(settings@) && settings@.valid(),
            Err(e) => resolved(selector@, layer_maps(layers@)) == Err::<SettingsView, ConfigError>(
                e,
            ),
        },
{
    match Environment::parse(selector) {
        Ok(_) => {},
        Err(e) => {
            return Err(e);
        },
    }
    let username = match text_setting(layers, SettingKey::DatabaseUsername) {
        Ok(v) => v,
        Err(e) => {
            return Err(e);
        },
    };
    let password = match text_setting(layers, SettingKey::DatabasePassword) {
        Ok(v) => v,
        Err(e) => {
            return Err(e);
        },
    };
    let database_port = match number_setting(layers, SettingKey::DatabasePort) {
        Ok(v) => v,
        Err(e) => {
            return Err(e);
        },
    };
    let database_host = match text_setting(layers, SettingKey::DatabaseHost) {
        Ok(v) => v,
        Err(e) => {
            return Err(e);
        },
    };
    let database_name = match text_setting(layers, SettingKey::DatabaseName) {
        Ok(v) => v,
        Err(e) => {
            return Err(e);
        },
    };
    let max_connections = match number_setting(layers, SettingKey::DatabaseMaxConnections) {
        Ok(v) => v,
        Err(e) => {
            return Err(e);
        },
    };
    let app_port = match number_setting(layers, SettingKey::AppPort) {
        Ok(v) => v,
        Err(e) => {
            return Err(e);
        },
    };
    let app_host = match text_setting(layers, SettingKey::AppHost) {
        Ok(v) => v,
        Err(e) => {
            return Err(e);
        },
    };
    let base_url = match text_setting(layers, SettingKey::EmailBaseUrl) {
        Ok(v) => v,
        Err(e) => {
            return Err(e);
        },
    };
    let sender_email = match text_setting(layers, SettingKey::EmailSender) {
        Ok(v) => v,
        Err(e) => {
            return Err(e);
        },
    };
    let auth_token = match text_setting(layers, SettingKey::EmailAuthToken) {
        Ok(v) => v,
        Err(e) => {
            return Err(e);
        },
    };
    let timeout = match number_setting(layers, SettingKey::EmailTimeout) {
        Ok(v) => v,
        Err(e) => {
            return Err(e);
        },
    };
    Ok(
        Settings {
            database: DatabaseSettings {
                username,
                password: SecretText::new(password),
                port: database_port as u16,
                host: database_host,
                database_name,
                max_connections: max_connections as u8,
            },
            app: ApplicationSettings { port: app_port as u16, host: app_host },
            email_client: EmailClientSettings {
                base_url,
                sender_email,
                auth_token: SecretText::new(auth_token),
                timeout_milliseconds: timeout,
            },
        },
    )
}

} // verus!
