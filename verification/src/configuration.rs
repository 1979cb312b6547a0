//! Application and database settings, and the environment the service runs
//! in. Loading the settings from a file is the caller's concern; the logic
//! here builds the strings derived from them.

use vstd::prelude::*;

use crate::strutil::{dec_nat, format_u64, str_eq};

verus! {

/// Settings of the HTTP server: where to listen, and the token-signing
/// secret.
pub struct AppSettings {
    pub host: String,
    pub port: u16,
    pub jwt_secret: String,
}

/// Settings of the database the repository persists to.
pub struct DatabaseSettings {
    pub user: String,
    pub password: String,
    pub port: u16,
    pub host: String,
    pub db_name: String,
}

/// The whole configuration.
pub struct AppConfig {
    pub app_settings: AppSettings,
    pub database_settings: DatabaseSettings,
}

impl DatabaseSettings {
    /// The connection string of the database server, without a database name.
    pub fn connection_string(&self) -> (r: String)
        ensures
            r@ == "postgres://"@ + self.user@ + ":"@ + self.password@ + "@"@ + self.host@ + ":"@
                + dec_nat(self.port as nat),
    {
        let mut s = String::new();
        s.append("postgres://");
        s.append(self.user.as_str());
        s.append(":");
        s.append(self.password.as_str());
        s.append("@");
        s.append(self.host.as_str());
        s.append(":");
        let port = format_u64(self.port as u64);
        s.append(port.as_str());
        proof {
            assert(s@ =~= "postgres://"@ + self.user@ + ":"@ + self.password@ + "@"@ + self.host@
                + ":"@ + dec_nat(self.port as nat));
        }
        s
    }

    /// The connection string of one named database on that server.
    pub fn connection_string_with_db_name(&self) -> (r: String)
        ensures
            r@ == "postgres://"@ + self.user@ + ":"@ + self.password@ + "@"@ + self.host@ + ":"@
                + dec_nat(self.port as nat) + "/"@ + self.db_name@,
    {
        let mut s = self.connection_string();
        s.append("/");
        s.append(self.db_name.as_str());
        proof {
            assert(s@ =~= "postgres://"@ + self.user@ + ":"@ + self.password@ + "@"@ + self.host@
                + ":"@ + dec_nat(self.port as nat) + "/"@ + self.db_name@);
        }
        s
    }
}

impl AppSettings {
    /// The `host:port` address the server binds.
    pub fn address(&self) -> (r: String)
        ensures
            r@ == self.host@ + ":"@ + dec_nat(self.port as nat),
    {
        let mut s = String::new();
        s.append(self.host.as_str());
        s.append(":");
        let port = format_u64(self.port as u64);
        s.append(port.as_str());
        proof {
            assert(s@ =~= self.host@ + ":"@ + dec_nat(self.port as nat));
        }
        s
    }
}

/// Which environment the service runs in.
#[derive(Clone, Copy, PartialEq, Eq, Structural, Debug)]
pub enum Environment {
    Production,
    Development,
    Test,
}

impl Environment {
    /// Parses the `ENVIRONMENT` variable's value.
    pub fn try_from(value: &str) -> (r: Result<Environment, &'static str>)
        ensures
            match r {
                Ok(Environment::Production) => value@ == "PRODUCTION"@,
                Ok(Environment::Development) => value@ == "DEVELOPMENT"@,
                Ok(Environment::Test) => value@ == "TEST"@,
                Err(m) => value@ != "PRODUCTION"@ && value@ != "DEVELOPMENT"@ && value@ != "TEST"@
                    && m@ == (if value@ == ""@ {
                    "environment variable missing"@
                } else {
                    "environment variable should be either PRODCUTION/TEST/DEVELOPMENT"@
                }),
            },
    {
        if str_eq(value, "PRODUCTION") {
            Ok(Environment::Production)
        } else if str_eq(value, "DEVELOPMENT") {
            Ok(Environment::Development)
        } else if str_eq(value, "TEST") {
            Ok(Environment::Test)
        } else if str_eq(value, "") {
            Err("environment variable missing")
        } else {
            Err("environment variable should be either PRODCUTION/TEST/DEVELOPMENT")
        }
    }

    /// The configuration file read in this environment.
    pub fn config_file(&self) -> (r: &'static str)
        ensures
            match *self {
                Environment::Production => r@ == "config/config.prod.yml"@,
                Environment::Development => r@ == "config/config.dev.yml"@,
                Environment::Test => r@ == "config/config.test.yml"@,
            },
    {
        match self {
            Environment::Production => "config/config.prod.yml",
            Environment::Development => "config/config.dev.yml",
            Environment::Test => "config/config.test.yml",
        }
    }
}

} // verus!
