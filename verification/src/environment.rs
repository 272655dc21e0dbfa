use crate::configuration::ConfigError;
use crate::text::same_text;
use vstd::prelude::*;

verus! {

/// The closed set of environments the service can be started in.
#[derive(Clone, Copy, Debug, PartialEq, Eq, Structural)]
pub enum Environment {
    Production,
    Local,
    Ci,
}

/// How strongly a database connection insists on TLS.
#[derive(Clone, Copy, Debug, PartialEq, Eq, Structural)]
pub enum SslMode {
    /// Use TLS where the server offers it.
    Prefer,
    /// Refuse to connect without TLS.
    Require,
}

/// The environment a selector names; `None` for anything outside the set.
pub open spec fn environment_of(selector: Seq<char>) -> Option<Environment> {
    if selector == "PRODUCTION"@ {
        Some(Environment::Production)
    } else if selector == "LOCAL"@ {
        Some(Environment::Local)
    } else if selector == "CI"@ {
        Some(Environment::Ci)
    } else {
        None
    }
}

/// The selector that names an environment.
pub open spec fn selector_of(environment: Environment) -> Seq<char> {
    match environment {
        Environment::Production => "PRODUCTION"@,
        Environment::Local => "LOCAL"@,
        Environment::Ci => "CI"@,
    }
}

/// The file that holds an environment's own settings.
pub open spec fn overlay_file_of(environment: Environment) -> Seq<char> {
    match environment {
        Environment::Production => "prod.yaml"@,
        Environment::Local => "local.yaml"@,
        Environment::Ci => "ci.yaml"@,
    }
}

/// TLS is required in production and preferred everywhere else.
pub open spec fn ssl_mode_of(environment: Environment) -> SslMode {
    if environment == Environment::Production {
        SslMode::Require
    } else {
        SslMode::Prefer
    }
}

/// Each environment is found again from its own selector.
pub proof fn lemma_selector_round_trip(environment: Environment)
    ensures
        environment_of(selector_of(environment)) == Some(environment),
{
    reveal_strlit("PRODUCTION");
    reveal_strlit("LOCAL");
    reveal_strlit("CI");
    assert("PRODUCTION"@.len() == 10);
    assert("LOCAL"@.len() == 5);
    assert("CI"@.len() == 2);
}

impl Environment {
    /// Reads the environment selector; anything but the three known names is
    /// turned down.
    pub fn parse(selector: &str) -> (parsed: Result<Environment, ConfigError>)
        ensures
            parsed == match environment_of(selector@) {
                Some(environment) => Ok::<Environment, ConfigError>(environment),
                None => Err(ConfigError::InvalidEnvironment),
            },
    {
        if same_text(selector, "PRODUCTION") {
            Ok(Environment::Production)
        } else if same_text(selector, "LOCAL") {
            Ok(Environment::Local)
        } else if same_text(selector, "CI") {
            Ok(Environment::Ci)
        } else {
            Err(ConfigError::InvalidEnvironment)
        }
    }

    /// The selector that names this environment.
    pub fn selector(&self) -> (name: &'static str)
        ensures
            name@ == selector_of(*self),
    {
        match self {
            Environment::Production => "PRODUCTION",
            Environment::Local => "LOCAL",
            Environment::Ci => "CI",
        }
    }

    /// The file that holds this environment's own settings.
    pub fn overlay_file(&self) -> (name: &'static str)
        ensures
            name@ == overlay_file_of(*self),
    {
        match self {
            Environment::Production => "prod.yaml",
            Environment::Local => "local.yaml",
            Environment::Ci => "ci.yaml",
        }
    }

    /// How strongly database connections insist on TLS here.
    pub fn ssl_mode(&self) -> (mode: SslMode)
        ensures
            mode == ssl_mode_of(*self),
    {
        match self {
            Environment::Production => SslMode::Require,
            _ => SslMode::Prefer,
        }
    }
}

} // verus!
