use std::time::Duration;

use ravalink_worker::config::{
    configure_kafka_ssl, consumer_settings, producer_settings, KafkaConfig, SecurityError, ServerConfig,
};
use ravalink_worker::helpers::{
    get_timestamp, get_unix_timestamp, minutes_to_duration, print_warnings, program_candidates,
};

fn kafka() -> KafkaConfig {
    KafkaConfig {
        kafka_uri: "localhost:9092".to_string(),
        kafka_topic: "jobs".to_string(),
        kafka_use_ssl: None,
        kafka_use_sasl: None,
        kafka_username: None,
        kafka_password: None,
        kafka_ssl_cert: None,
        kafka_ssl_key: None,
        kafka_ssl_ca: None,
    }
}

fn pairs(v: &[(&str, &str)]) -> Vec<(String, String)> {
    v.iter().map(|(k, x)| (k.to_string(), x.to_string())).collect()
}

#[test]
fn no_security_sets_nothing() {
    assert_eq!(configure_kafka_ssl(&kafka()), Ok(vec![]));
    let mut c = kafka();
    c.kafka_use_ssl = Some(false);
    c.kafka_use_sasl = Some(false);
    assert_eq!(configure_kafka_ssl(&c), Ok(vec![]));
}

#[test]
fn ssl_settings() {
    let mut c = kafka();
    c.kafka_use_ssl = Some(true);
    c.kafka_use_sasl = Some(true);
    c.kafka_ssl_ca = Some("/ca.pem".to_string());
    c.kafka_ssl_cert = Some("/cert.pem".to_string());
    c.kafka_ssl_key = Some("/key.pem".to_string());
    assert_eq!(
        configure_kafka_ssl(&c),
        Ok(pairs(&[
            ("security.protocol", "ssl"),
            ("ssl.ca.location", "/ca.pem"),
            ("ssl.certificate.location", "/cert.pem"),
            ("ssl.key.location", "/key.pem"),
        ]))
    );
}

#[test]
fn ssl_missing_values() {
    let mut c = kafka();
    c.kafka_use_ssl = Some(true);
    assert_eq!(configure_kafka_ssl(&c), Err(SecurityError::MissingCa));
    c.kafka_ssl_ca = Some("/ca.pem".to_string());
    assert_eq!(configure_kafka_ssl(&c), Err(SecurityError::MissingCert));
    c.kafka_ssl_cert = Some("/cert.pem".to_string());
    assert_eq!(configure_kafka_ssl(&c), Err(SecurityError::MissingKey));
    assert_eq!(SecurityError::MissingKey.message(), "Kafka Key Not Found");
}

#[test]
fn sasl_settings_and_missing_values() {
    let mut c = kafka();
    c.kafka_use_sasl = Some(true);
    assert_eq!(configure_kafka_ssl(&c), Err(SecurityError::MissingUsername));
    c.kafka_username = Some("SECRET-REDACTED".to_string());
    assert_eq!(configure_kafka_ssl(&c), Err(SecurityError::MissingPassword));
    c.kafka_password = Some("pw".to_string());
    assert_eq!(
        configure_kafka_ssl(&c),
        Ok(pairs(&[
            ("security.protocol", "SASL_PLAINTEXT"),
            ("sasl.mechanisms", "PLAIN"),
            ("sasl.username", "SECRET-REDACTED"),
            ("sasl.password", "pw"),
        ]))
    );
}

#[test]
fn client_settings() {
    assert_eq!(producer_settings("b:1"), pairs(&[("bootstrap.servers", "b:1")]));
    assert_eq!(
        consumer_settings("b:1", "worker-7"),
        pairs(&[
            ("group.id", "worker-7"),
            ("bootstrap.servers", "b:1"),
            ("enable.partition.eof", "false"),
            ("session.timeout.ms", "6000"),
            ("enable.auto.commit", "true"),
        ])
    );
}

#[test]
fn server_config_defaults() {
    let c = ServerConfig::new(12, "t".to_string());
    assert_eq!(c.discord_bot_id, 12);
    assert_eq!(c.job_expiration_time_seconds, 3600);
    assert_eq!(c.bot_idle_time_seconds, 600);
}

#[test]
fn minutes_become_seconds() {
    assert_eq!(minutes_to_duration(0), Duration::from_secs(0));
    assert_eq!(minutes_to_duration(2), Duration::from_secs(120));
    assert_eq!(minutes_to_duration(2).as_secs(), 120);
}

#[test]
fn timestamps_follow_the_clock() {
    let before = get_unix_timestamp().expect("clock after the epoch");
    let secs = get_timestamp().expect("clock after the epoch");
    assert!(secs >= before.as_secs());
    assert!(secs > 1_600_000_000);
}

#[test]
fn warning_only_when_downloader_is_missing() {
    assert!(print_warnings(true).is_empty());
    let w = print_warnings(false);
    assert_eq!(w.len(), 1);
    assert!(w[0].starts_with("yt-dlp is not installed!"));
}

#[test]
fn search_path_candidates() {
    assert_eq!(program_candidates("/usr/bin:/bin", "yt-dlp"), vec!["/usr/bin/yt-dlp", "/bin/yt-dlp"]);
    assert_eq!(program_candidates("", "x"), vec!["/x"]);
    assert_eq!(program_candidates("a::b:", "x"), vec!["a/x", "/x", "b/x", "/x"]);
}
