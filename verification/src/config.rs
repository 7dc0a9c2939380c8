//! The settings of the service and how they are read from its environment.

use crate::text::{parse_u64, parsed_u64};
use vstd::prelude::*;
use vstd::string::*;

verus! {

/// Process-wide settings, fixed once the service has started.
#[derive(Clone, Debug)]
pub struct Config {
    pub server_addr: String,
    pub database_url: String,
    pub database_name: String,
    pub kafka_brokers: String,
    pub kafka_product_events_topic: String,
    pub jwt_secret: String,
    pub jwt_expiration_hours: u64,
}

/// The mathematical value of [`Config`].
pub struct ConfigView {
    pub server_addr: Seq<char>,
    pub database_url: Seq<char>,
    pub database_name: Seq<char>,
    pub kafka_brokers: Seq<char>,
    pub kafka_product_events_topic: Seq<char>,
    pub jwt_secret: Seq<char>,
    pub jwt_expiration_hours: u64,
}

impl View for Config {
    type V = ConfigView;

    open spec fn view(&self) -> ConfigView {
        ConfigView {
            server_addr: self.server_addr@,
            database_url: self.database_url@,
            database_name: self.database_name@,
            kafka_brokers: self.kafka_brokers@,
            kafka_product_events_topic: self.kafka_product_events_topic@,
            jwt_secret: self.jwt_secret@,
            jwt_expiration_hours: self.jwt_expiration_hours,
        }
    }
}

/// What the environment of the process holds under each name that the
/// service reads, in the order in which it reads them.
#[derive(Debug)]
pub struct Environment {
    /// `SERVER_ADDR`
    pub server_addr: Option<String>,
    /// `DATABASE_URL`
    pub database_url: Option<String>,
    /// `DATABASE_NAME`
    pub database_name: Option<String>,
    /// `KAFKA_BROKERS`
    pub kafka_brokers: Option<String>,
    /// `KAFKA_PRODUCT_EVENTS_TOPIC`
    pub kafka_product_events_topic: Option<String>,
    /// `JWT_SECRET`
    pub jwt_secret: Option<String>,
    /// `JWT_EXPIRATION_HOURS`
    pub jwt_expiration_hours: Option<String>,
}

/// Why the settings could not be read.
#[derive(Debug)]
pub enum ConfigError {
    /// A name without default is not set; holds the name.
    Missing(String),
    /// The number of hours is set and is not a number.
    InvalidExpiration,
}

/// The mathematical value of [`ConfigError`].
pub enum ConfigFailure {
    Missing(Seq<char>),
    InvalidExpiration,
}

impl View for ConfigError {
    type V = ConfigFailure;

    open spec fn view(&self) -> ConfigFailure {
        match self {
            ConfigError::Missing(name) => ConfigFailure::Missing(name@),
            ConfigError::InvalidExpiration => ConfigFailure::InvalidExpiration,
        }
    }
}

/// The mathematical value of an optional text.
pub open spec fn value_view(value: Option<String>) -> Option<Seq<char>> {
    match value {
        Some(text) => Some(text@),
        None => None,
    }
}

/// The mathematical value of the settings, or of the failure to read them.
pub open spec fn config_view(r: Result<Config, ConfigError>) -> Result<ConfigView, ConfigFailure> {
    match r {
        Ok(config) => Ok(config@),
        Err(e) => Err(e@),
    }
}

/// The number of hours that a token lasts: twenty-four where none is set.
pub open spec fn expiration_hours(value: Option<Seq<char>>) -> Option<u64> {
    match value {
        Some(text) => parsed_u64(text),
        None => Some(24u64),
    }
}

/// The settings that an environment gives. The address defaults to every
/// interface on port 8000 and the hours to twenty-four; the other five names
/// have to be set, and the first that is not is reported.
pub open spec fn settings(
    server_addr: Option<Seq<char>>,
    database_url: Option<Seq<char>>,
    database_name: Option<Seq<char>>,
    kafka_brokers: Option<Seq<char>>,
    kafka_product_events_topic: Option<Seq<char>>,
    jwt_secret: Option<Seq<char>>,
    jwt_expiration_hours: Option<Seq<char>>,
) -> Result<ConfigView, ConfigFailure> {
    if database_url is None {
        Err(ConfigFailure::Missing("DATABASE_URL"@))
    } else if database_name is None {
        Err(ConfigFailure::Missing("DATABASE_NAME"@))
    } else if kafka_brokers is None {
        Err(ConfigFailure::Missing("KAFKA_BROKERS"@))
    } else if kafka_product_events_topic is None {
        Err(ConfigFailure::Missing("KAFKA_PRODUCT_EVENTS_TOPIC"@))
    } else if jwt_secret is None {
        Err(ConfigFailure::Missing("JWT_SECRET"@))
    } else {
        match expiration_hours(jwt_expiration_hours) {
            Some(hours) => Ok(
                ConfigView {
                    server_addr: match server_addr {
                        Some(addr) => addr,
                        None => "0.0.0.0:8000"@,
                    },
                    database_url: database_url.unwrap(),
                    database_name: database_name.unwrap(),
                    kafka_brokers: kafka_brokers.unwrap(),
                    kafka_product_events_topic: kafka_product_events_topic.unwrap(),
                    jwt_secret: jwt_secret.unwrap(),
                    jwt_expiration_hours: hours,
                },
            ),
            None => Err(ConfigFailure::InvalidExpiration),
        }
    }
}

/// Takes a value that has to be set.
fn required(value: Option<String>, name: &str) -> (r: Result<String, ConfigError>)
    ensures
        match value {
            Some(text) => r matches Ok(t) && t@ == text@,
            None => r matches Err(e) && e@ == ConfigFailure::Missing(name@),
        },
{
    match value {
        Some(text) => Ok(text),
        None => Err(ConfigError::Missing(name.to_owned())),
    }
}

impl Config {
    /// Reads the settings from what the environment holds.
    pub fn from_env(env: Environment) -> (r: Result<Config, ConfigError>)
        ensures
            config_view(r) == settings(
                value_view(env.server_addr),
                value_view(env.database_url),
                value_view(env.database_name),
                value_view(env.kafka_brokers),
                value_view(env.kafka_product_events_topic),
                value_view(env.jwt_secret),
                value_view(env.jwt_expiration_hours),
            ),
    {
        let server_addr = match env.server_addr {
            Some(addr) => addr,
            None => String::from_str("0.0.0.0:8000"),
        };
        let database_url = match required(env.database_url, "DATABASE_URL") {
            Ok(v) => v,
            Err(e) => {
                return Err(e);
            },
        };
        let database_name = match required(env.database_name, "DATABASE_NAME") {
            Ok(v) => v,
            Err(e) => {
                return Err(e);
            },
        };
        let kafka_brokers = match required(env.kafka_brokers, "KAFKA_BROKERS") {
            Ok(v) => v,
            Err(e) => {
                return Err(e);
            },
        };
        let kafka_product_events_topic = match required(
            env.kafka_product_events_topic,
            "KAFKA_PRODUCT_EVENTS_TOPIC",
        ) {
            Ok(v) => v,
            Err(e) => {
                return Err(e);
            },
        };
        let jwt_secret = match required(env.jwt_secret, "JWT_SECRET") {
            Ok(v) => v,
            Err(e) => {
                return Err(e);
            },
        };
        let hours = match env.jwt_expiration_hours {
            Some(text) => parse_u64(text.as_str()),
            None => Some(24u64),
        };
        match hours {
            Some(jwt_expiration_hours) => Ok(
                Config {
                    server_addr,
                    database_url,
                    database_name,
                    kafka_brokers,
                    kafka_product_events_topic,
                    jwt_secret,
                    jwt_expiration_hours,
                },
            ),
            None => Err(ConfigError::InvalidExpiration),
        }
    }
}

} // verus!
