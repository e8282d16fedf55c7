//! Worker configuration and the message-bus client settings derived from it.
use vstd::prelude::*;

verus! {

/// How long a job stays relevant, in seconds.
pub const JOB_EXPIRATION_TIME_SECONDS: u64 = 3600;

/// How long the bot may stay idle in a channel, in seconds.
pub const BOT_IDLE_TIME_SECONDS: u64 = 600;

#[derive(Clone, Debug)]
pub struct ServerConfig {
    pub discord_bot_id: u64,
    pub discord_bot_token: String,
    pub job_expiration_time_seconds: u64,
    pub bot_idle_time_seconds: u64,
}

/// Where the message bus is and how to reach it securely.
#[derive(Clone, Debug)]
pub struct KafkaConfig {
    pub kafka_uri: String,
    pub kafka_topic: String,
    pub kafka_use_ssl: Option<bool>,
    pub kafka_use_sasl: Option<bool>,
    pub kafka_username: Option<String>,
    pub kafka_password: Option<String>,
    pub kafka_ssl_cert: Option<String>,
    pub kafka_ssl_key: Option<String>,
    pub kafka_ssl_ca: Option<String>,
}

#[derive(Clone, Debug)]
pub struct Config {
    pub config: ServerConfig,
    pub kafka: KafkaConfig,
    pub redis_url: Option<String>,
}

/// A security option is switched on only by an explicit `true`.
pub open spec fn switched_on(flag: Option<bool>) -> bool {
    flag == Some(true)
}

/// `s` sets `key` to `value`.
pub open spec fn is_setting(s: (String, String), key: Seq<char>, value: Seq<char>) -> bool {
    s.0@ == key && s.1@ == value
}

/// A security setting that is switched on but lacks a value it needs.
#[derive(Clone, Copy, Debug, PartialEq, Eq)]
pub enum SecurityError {
    MissingCa,
    MissingCert,
    MissingKey,
    MissingUsername,
    MissingPassword,
}

impl SecurityError {
    pub open spec fn text(&self) -> Seq<char> {
        match self {
            SecurityError::MissingCa => "Kafka CA Not Found"@,
            SecurityError::MissingCert => "Kafka Cert Not Found"@,
            SecurityError::MissingKey => "Kafka Key Not Found"@,
            SecurityError::MissingUsername => "Kafka Username Not Found"@,
            SecurityError::MissingPassword => "Kafka Password Not Found"@,
        }
    }

    pub fn message(&self) -> (r: &'static str)
        ensures
            r@ == self.text(),
    {
        match self {
            SecurityError::MissingCa => "Kafka CA Not Found",
            SecurityError::MissingCert => "Kafka Cert Not Found",
            SecurityError::MissingKey => "Kafka Key Not Found",
            SecurityError::MissingUsername => "Kafka Username Not Found",
            SecurityError::MissingPassword => "Kafka Password Not Found",
        }
    }
}

impl ServerConfig {
    /// A server configuration with the fixed job expiry and idle times.
    pub fn new(discord_bot_id: u64, discord_bot_token: String) -> (r: ServerConfig)
        ensures
            r.discord_bot_id == discord_bot_id,
            r.discord_bot_token == discord_bot_token,
            r.job_expiration_time_seconds == JOB_EXPIRATION_TIME_SECONDS,
            r.bot_idle_time_seconds == BOT_IDLE_TIME_SECONDS,
    {
        ServerConfig {
            discord_bot_id,
            discord_bot_token,
            job_expiration_time_seconds: JOB_EXPIRATION_TIME_SECONDS,
            bot_idle_time_seconds: BOT_IDLE_TIME_SECONDS,
        }
    }
}

fn setting(key: &str, value: &str) -> (r: (String, String))
    ensures
        is_setting(r, key@, value@),
{
    (String::from_str(key), String::from_str(value))
}

/// The security settings for the bus client. TLS, when switched on, takes
/// precedence over SASL and needs the CA, certificate and key locations;
/// SASL needs a username and a password. The first missing value is
/// reported. With neither switched on there is nothing to set.
pub fn configure_kafka_ssl(config: &KafkaConfig) -> (r: Result<Vec<(String, String)>, SecurityError>)
    ensures
        switched_on(config.kafka_use_ssl) ==> {
            &&& config.kafka_ssl_ca is None ==> r == Err::<Vec<(String, String)>, SecurityError>(
                SecurityError::MissingCa,
            )
            &&& config.kafka_ssl_ca is Some && config.kafka_ssl_cert is None ==> r == Err::<
                Vec<(String, String)>,
                SecurityError,
            >(SecurityError::MissingCert)
            &&& config.kafka_ssl_ca is Some && config.kafka_ssl_cert is Some
                && config.kafka_ssl_key is None ==> r == Err::<Vec<(String, String)>, SecurityError>(
                SecurityError::MissingKey,
            )
            &&& config.kafka_ssl_ca is Some && config.kafka_ssl_cert is Some
                && config.kafka_ssl_key is Some ==> {
                &&& r is Ok
                &&& r->Ok_0@.len() == 4
                &&& is_setting(r->Ok_0@[0], "security.protocol"@, "ssl"@)
                &&& is_setting(r->Ok_0@[1], "ssl.ca.location"@, config.kafka_ssl_ca->Some_0@)
                &&& is_setting(
                    r->Ok_0@[2],
                    "ssl.certificate.location"@,
                    config.kafka_ssl_cert->Some_0@,
                )
                &&& is_setting(r->Ok_0@[3], "ssl.key.location"@, config.kafka_ssl_key->Some_0@)
            }
        },
        !switched_on(config.kafka_use_ssl) && switched_on(config.kafka_use_sasl) ==> {
            &&& config.kafka_username is None ==> r == Err::<Vec<(String, String)>, SecurityError>(
                SecurityError::MissingUsername,
            )
            &&& config.kafka_username is Some && config.kafka_password is None ==> r == Err::<
                Vec<(String, String)>,
                SecurityError,
            >(SecurityError::MissingPassword)
            &&& config.kafka_username is Some && config.kafka_password is Some ==> {
                &&& r is Ok
                &&& r->Ok_0@.len() == 4
                &&& is_setting(r->Ok_0@[0], "security.protocol"@, "SASL_PLAINTEXT"@)
                &&& is_setting(r->Ok_0@[1], "sasl.mechanisms"@, "PLAIN"@)
                &&& is_setting(r->Ok_0@[2], "sasl.username"@, config.kafka_username->Some_0@)
                &&& is_setting(r->Ok_0@[3], "sasl.password"@, config.kafka_password->Some_0@)
            }
        },
        !switched_on(config.kafka_use_ssl) && !switched_on(config.kafka_use_sasl) ==> r is Ok
            && r->Ok_0@.len() == 0,
{
    let mut settings: Vec<(String, String)> = Vec::new();
    if config.kafka_use_ssl == Some(true) {
        let ca = match &config.kafka_ssl_ca {
            Some(v) => v,
            None => return Err(SecurityError::MissingCa),
        };
        let cert = match &config.kafka_ssl_cert {
            Some(v) => v,
            None => return Err(SecurityError::MissingCert),
        };
        let key = match &config.kafka_ssl_key {
            Some(v) => v,
            None => return Err(SecurityError::MissingKey),
        };
        settings.push(setting("security.protocol", "ssl"));
        settings.push(setting("ssl.ca.location", ca.as_str()));
        settings.push(setting("ssl.certificate.location", cert.as_str()));
        settings.push(setting("ssl.key.location", key.as_str()));
    } else if config.kafka_use_sasl == Some(true) {
        let username = match &config.kafka_username {
            Some(v) => v,
            None => return Err(SecurityError::MissingUsername),
        };
        let password = match &config.kafka_password {
            Some(v) => v,
            None => return Err(SecurityError::MissingPassword),
        };
        settings.push(setting("security.protocol", "SASL_PLAINTEXT"));
        settings.push(setting("sasl.mechanisms", "PLAIN"));
        settings.push(setting("sasl.username", username.as_str()));
        settings.push(setting("sasl.password", password.as_str()));
    }
    Ok(settings)
}

/// The settings of a producer on the given brokers.
pub fn producer_settings(brokers: &str) -> (r: Vec<(String, String)>)
    ensures
        r@.len() == 1,
        is_setting(r@[0], "bootstrap.servers"@, brokers@),
{
    let mut settings: Vec<(String, String)> = Vec::new();
    settings.push(setting("bootstrap.servers", brokers));
    settings
}

/// The settings of a consumer in the given group on the given brokers:
/// no end-of-partition notices, a six-second session timeout, and offsets
/// committed automatically.
pub fn consumer_settings(brokers: &str, group_id: &str) -> (r: Vec<(String, String)>)
    ensures
        r@.len() == 5,
        is_setting(r@[0], "group.id"@, group_id@),
        is_setting(r@[1], "bootstrap.servers"@, brokers@),
        is_setting(r@[2], "enable.partition.eof"@, "false"@),
        is_setting(r@[3], "session.timeout.ms"@, "6000"@),
        is_setting(r@[4], "enable.auto.commit"@, "true"@),
{
    let mut settings: Vec<(String, String)> = Vec::new();
    settings.push(setting("group.id", group_id));
    settings.push(setting("bootstrap.servers", brokers));
    settings.push(setting("enable.partition.eof", "false"));
    settings.push(setting("session.timeout.ms", "6000"));
    settings.push(setting("enable.auto.commit", "true"));
    settings
}

} // verus!
