use vstd::prelude::*;
use vstd::std_specs::convert::FromSpecImpl;
use vstd::string::StringExecFns;

verus! {

/// The connection settings as the configuration file holds them.
#[derive(Debug)]
pub struct DatabaseConfig {
    /// The host of the database server.
    pub host: String,
    /// The port of the database server.
    pub port: u16,
    /// The user to connect as.
    pub username: String,
    /// The password of that user.
    pub password: String,
    /// The database to open.
    pub database: String,
}

/// The configuration of the program.
#[derive(Debug)]
pub struct AppConfig {
    /// The connection settings.
    pub database: DatabaseConfig,
}

impl AppConfig {
    /// The configuration names a local server on port 5432, with user,
    /// password and database all `postgres`.
    pub open spec fn is_default(&self) -> bool {
        &&& self.database.host@ == "localhost"@
        &&& self.database.port == 5432
        &&& self.database.username@ == "postgres"@
        &&& self.database.password@ == "postgres"@
        &&& self.database.database@ == "postgres"@
    }

    /// The configuration to start with, and whether it has to be written
    /// to the configuration file: what the file held, where there was one,
    /// and otherwise the default configuration, which is then to be saved.
    pub fn load(stored: Option<AppConfig>) -> (loaded: (AppConfig, bool))
        ensures
            stored matches Some(config) ==> loaded.0 == config && !loaded.1,
            stored is None ==> loaded.0.is_default() && loaded.1,
    {
        match stored {
            Some(config) => (config, false),
            None => (AppConfig::default(), true),
        }
    }
}

impl Default for AppConfig {
    fn default() -> (config: Self)
        ensures
            config.is_default(),
    {
        AppConfig {
            database: DatabaseConfig {
                host: String::from_str("localhost"),
                port: 5432,
                username: String::from_str("postgres"),
                password: String::from_str("postgres"),
                database: String::from_str("postgres"),
            },
        }
    }
}

impl From<DatabaseConfig> for crate::database::DatabaseConfig {
    fn from(config: DatabaseConfig) -> (settings: crate::database::DatabaseConfig) {
        crate::database::DatabaseConfig {
            host: config.host,
            port: config.port,
            username: config.username,
            password: config.password,
            database: config.database,
        }
    }
}

impl FromSpecImpl<DatabaseConfig> for crate::database::DatabaseConfig {
    open spec fn obeys_from_spec() -> bool {
        true
    }

    open spec fn from_spec(config: DatabaseConfig) -> crate::database::DatabaseConfig {
        crate::database::DatabaseConfig {
            host: config.host,
            port: config.port,
            username: config.username,
            password: config.password,
            database: config.database,
        }
    }
}

} // verus!
