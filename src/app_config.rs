//! Selection of the application's runtime environment, and the settings that
//! decide where the application's configuration is read from.
use vstd::prelude::*;
use vstd::string::*;

use crate::text::{eq_ignore_ascii_case, same_text_ignore_ascii_case};

verus! {

/// Suffix of the environment variable that names the runtime environment;
/// the variable's full name is the environment prefix followed by it.
pub const APP_ENVIRONMENT_KEY: &'static str = "ENVIRONMENT";

/// Prefix of the environment variables that override configuration values.
pub const DEFAULT_ENV_PREFIX: &'static str = "RUST_APP";

/// Separator of nested keys in the names of those environment variables.
pub const DEFAULT_ENV_SEPARATOR: &'static str = "__";

/// Base name of the configuration files.
pub const SETTINGS_FILE_BASE: &'static str = "app_settings";

/// The environment an application runs in.
#[derive(Clone, Debug, PartialEq, Eq, Hash)]
pub enum AppEnvironment {
    Dev,
    Prod,
    Custom(String),
}

pub open spec fn dev_name() -> Seq<char> {
    seq!['d', 'e', 'v']
}

pub open spec fn prod_name() -> Seq<char> {
    seq!['p', 'r', 'o', 'd']
}

/// The name of an environment: `dev`, `prod`, or a custom name as given.
pub open spec fn environment_name(e: AppEnvironment) -> Seq<char> {
    match e {
        AppEnvironment::Dev => dev_name(),
        AppEnvironment::Prod => prod_name(),
        AppEnvironment::Custom(s) => s@,
    }
}

/// `e` is the environment that the name `s` selects: `dev` and `prod` in any
/// ASCII case select the two built-in environments, any other name a custom
/// environment under that very name.
pub open spec fn environment_named(e: AppEnvironment, s: Seq<char>) -> bool {
    if eq_ignore_ascii_case(s, dev_name()) {
        e is Dev
    } else if eq_ignore_ascii_case(s, prod_name()) {
        e is Prod
    } else {
        e is Custom && e->Custom_0@ == s
    }
}

impl AppEnvironment {
    /// The environment that `value` names.
    pub fn from_name(value: &str) -> (r: Self)
        ensures
            environment_named(r, value@),
    {
        proof {
            reveal_strlit("dev");
            reveal_strlit("prod");
        }
        let dev = "dev";
        let prod = "prod";
        assert(dev@ =~= dev_name());
        assert(prod@ =~= prod_name());
        if same_text_ignore_ascii_case(value, dev) {
            AppEnvironment::Dev
        } else if same_text_ignore_ascii_case(value, prod) {
            AppEnvironment::Prod
        } else {
            AppEnvironment::Custom(String::from_str(value))
        }
    }

    /// The name of the environment.
    pub fn name(&self) -> (r: String)
        ensures
            r@ == environment_name(*self),
    {
        proof {
            reveal_strlit("dev");
            reveal_strlit("prod");
        }
        match self {
            AppEnvironment::Dev => {
                let r = String::from_str("dev");
                assert(r@ =~= dev_name());
                r
            },
            AppEnvironment::Prod => {
                let r = String::from_str("prod");
                assert(r@ =~= prod_name());
                r
            },
            AppEnvironment::Custom(s) => s.clone(),
        }
    }

    /// Name of the configuration file that holds this environment's
    /// settings: the base name, a dot, and the environment's name.
    pub fn settings_file_name(&self) -> (r: String)
        ensures
            r@ == SETTINGS_FILE_BASE@ + seq!['.'] + environment_name(*self),
    {
        let mut r = String::from_str(SETTINGS_FILE_BASE);
        proof {
            reveal_strlit(".");
        }
        r.append(".");
        let name = self.name();
        r.append(name.as_str());
        r
    }
}

/// The environment selected by the value of the environment variable, if it
/// is set; `Dev` where it is not.
pub fn app_environment_from(value: Option<&str>) -> (r: AppEnvironment)
    ensures
        match value {
            Some(v) => environment_named(r, v@),
            None => r is Dev,
        },
{
    match value {
        Some(v) => AppEnvironment::from_name(v),
        None => AppEnvironment::Dev,
    }
}

/// Name of the environment variable that selects the runtime environment.
pub fn environment_variable_name(prefix: &str) -> (r: String)
    ensures
        r@ == prefix@ + APP_ENVIRONMENT_KEY@,
{
    let mut r = String::from_str(prefix);
    r.append(APP_ENVIRONMENT_KEY);
    r
}

/// What a configuration builder is told: the environment selected, and how
/// environment variables that override configuration values are named.
pub struct ConfigBuildingInfo {
    pub app_environment: AppEnvironment,
    pub env_prefix: String,
    pub env_separator: String,
}

/// Settings for reading an application's configuration.
pub struct AppConfigurationBuilder {
    env_prefix: String,
    env_separator: String,
}

impl AppConfigurationBuilder {
    pub closed spec fn prefix(&self) -> Seq<char> {
        self.env_prefix@
    }

    pub closed spec fn separator(&self) -> Seq<char> {
        self.env_separator@
    }

    /// The default settings: prefix `RUST_APP` and separator `__`.
    pub fn new() -> (r: Self)
        ensures
            r.prefix() == DEFAULT_ENV_PREFIX@,
            r.separator() == DEFAULT_ENV_SEPARATOR@,
    {
        Self {
            env_prefix: String::from_str(DEFAULT_ENV_PREFIX),
            env_separator: String::from_str(DEFAULT_ENV_SEPARATOR),
        }
    }

    pub fn with_custom_env_prefix(self, env_prefix: String) -> (r: Self)
        ensures
            r.prefix() == env_prefix@,
            r.separator() == self.separator(),
    {
        Self { env_prefix, ..self }
    }

    pub fn with_custom_env_separator(self, env_separator: String) -> (r: Self)
        ensures
            r.prefix() == self.prefix(),
            r.separator() == env_separator@,
    {
        Self { env_separator, ..self }
    }

    pub fn env_prefix(&self) -> (r: &str)
        ensures
            r@ == self.prefix(),
    {
        self.env_prefix.as_str()
    }

    pub fn env_separator(&self) -> (r: &str)
        ensures
            r@ == self.separator(),
    {
        self.env_separator.as_str()
    }

    /// Name of the environment variable that selects the runtime environment.
    pub fn environment_variable(&self) -> (r: String)
        ensures
            r@ == self.prefix() + APP_ENVIRONMENT_KEY@,
    {
        environment_variable_name(self.env_prefix.as_str())
    }

    /// What a configuration builder is told, given the selected environment.
    pub fn into_building_info(self, app_environment: AppEnvironment) -> (r: ConfigBuildingInfo)
        ensures
            r.app_environment == app_environment,
            r.env_prefix@ == self.prefix(),
            r.env_separator@ == self.separator(),
    {
        ConfigBuildingInfo { app_environment, env_prefix: self.env_prefix, env_separator: self.env_separator }
    }
}

impl Default for AppConfigurationBuilder {
    fn default() -> (r: Self)
        ensures
            r.prefix() == DEFAULT_ENV_PREFIX@,
            r.separator() == DEFAULT_ENV_SEPARATOR@,
    {
        Self::new()
    }
}

} // verus!
