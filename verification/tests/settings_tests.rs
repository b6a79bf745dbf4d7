use imgforge::config::settings::{
    default_worker_count, validate_worker_count, worker_count_exceeds_automatic, Config, ConfigError,
};
use imgforge::middleware::generate_request_id;

const MAX_PERMITS: usize = usize::MAX >> 3;

#[test]
fn worker_count_must_be_positive() {
    assert!(matches!(validate_worker_count(0), Err(ConfigError::ZeroWorkers)));
    assert!(validate_worker_count(1).is_ok());
}

#[test]
fn worker_count_must_fit_tokio_semaphore() {
    assert!(validate_worker_count(MAX_PERMITS).is_ok());
    assert!(matches!(
        validate_worker_count(MAX_PERMITS.saturating_add(1)),
        Err(ConfigError::WorkerCountTooLarge { .. })
    ));
}

#[test]
fn the_automatic_worker_count_is_twice_the_cpus() {
    assert_eq!(default_worker_count(4), 8);
    assert_eq!(default_worker_count(0), 2);
    assert_eq!(default_worker_count(usize::MAX), usize::MAX);
    assert!(worker_count_exceeds_automatic(9, 4));
    assert!(!worker_count_exceeds_automatic(8, 4));
}

#[test]
fn hex_keys_are_decoded() {
    let config = Config::with_hex_keys("00ff10", "abcd").expect("valid hex");
    assert_eq!(config.key, vec![0x00, 0xff, 0x10]);
    assert_eq!(config.salt, vec![0xab, 0xcd]);
    assert!(matches!(Config::with_hex_keys("0g", "ab"), Err(ConfigError::InvalidKey(_))));
    assert!(matches!(Config::with_hex_keys("ab", "abc"), Err(ConfigError::InvalidSalt(_))));
}

#[test]
fn request_ids_are_ten_alphanumeric_characters() {
    let id = generate_request_id();
    assert_eq!(id.len(), 10);
    assert!(id.chars().all(|c| c.is_ascii_alphanumeric()));
}
