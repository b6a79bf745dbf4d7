use imgforge::config::settings::{default_worker_count, Config, ConfigError};
use imgforge::config::DefaultOutputFormat;
use imgforge::constants::{
    ENV_BIND, ENV_DEFAULT_FORMAT, ENV_MAX_RESULT_DIMENSION, ENV_MAX_SRC_FILE_SIZE, ENV_MAX_SRC_RESOLUTION,
    ENV_ONLY_PRESETS, ENV_PRESETS, ENV_PROMETHEUS_BIND, ENV_WORKERS,
};
use imgforge::limits::{MaxResultDimension, MaxSourceFileSize, MaxSourceResolution};
use imgforge::string_map::StringMap;

const CPUS: usize = 4;

fn vars(pairs: &[(&str, &str)]) -> StringMap<String> {
    let mut map = StringMap::new();
    for (name, value) in pairs {
        map.insert(name.to_string(), value.to_string());
    }
    map
}

fn load(pairs: &[(&str, &str)]) -> Result<Config, ConfigError> {
    Config::from_vars(&vars(pairs), CPUS)
}

#[test]
fn prometheus_numeric_port_maps_to_default_host() {
    let config = load(&[(ENV_PROMETHEUS_BIND, "3005")]).expect("config loads");
    assert_eq!(config.prometheus_bind_address.as_deref(), Some("0.0.0.0:3005"));
}

#[test]
fn bind_numeric_port_maps_to_default_host() {
    let config = load(&[(ENV_BIND, "3456")]).expect("config loads");
    assert_eq!(config.bind_address, "0.0.0.0:3456");
    assert_eq!(config.prometheus_bind_address, None);
}

#[test]
fn invalid_worker_count_fails_configuration() {
    let result = load(&[(ENV_WORKERS, "invalid")]);
    assert!(matches!(
        result,
        Err(ConfigError::InvalidWorkerCount {
            name: ENV_WORKERS,
            value,
            ..
        }) if value == "invalid"
    ));
}

#[test]
fn zero_worker_count_selects_the_automatic_default() {
    let config = load(&[(ENV_WORKERS, "0")]).expect("config loads");
    assert_eq!(config.workers, default_worker_count(CPUS));
}

#[test]
fn explicit_worker_count_is_preserved() {
    let config = load(&[(ENV_WORKERS, "3")]).expect("config loads");
    assert_eq!(config.workers, 3);
}

#[test]
fn test_config_default_format_from_env() {
    let config = load(&[]).expect("config loads");
    assert_eq!(config.default_format, DefaultOutputFormat::Source);

    let config = load(&[(ENV_DEFAULT_FORMAT, "JPEG")]).expect("config loads");
    assert_eq!(config.default_format, DefaultOutputFormat::Jpeg);

    let config = load(&[(ENV_DEFAULT_FORMAT, "heic")]).expect("config loads");
    assert_eq!(config.default_format, DefaultOutputFormat::Heif);

    assert!(matches!(
        load(&[(ENV_DEFAULT_FORMAT, "bmp")]),
        Err(ConfigError::InvalidDefaultFormat { value, .. }) if value == "bmp"
    ));
}

#[test]
fn test_config_presets_from_env() {
    let config = load(&[
        (ENV_PRESETS, "thumbnail=resize:fit:150:150,default=quality:90"),
        (ENV_ONLY_PRESETS, "true"),
    ])
    .expect("config loads");

    assert_eq!(config.presets.len(), 2);
    assert_eq!(config.presets.get("thumbnail").map(|opts| opts.len()), Some(1));
    assert_eq!(config.presets.get("default").map(|opts| opts.len()), Some(1));
    assert!(config.only_presets);
}

#[test]
fn test_config_only_presets_false_by_default() {
    let config = load(&[]).expect("config loads");
    assert!(!config.only_presets);
}

#[test]
fn invalid_max_source_file_size_fails_configuration() {
    let result = load(&[(ENV_MAX_SRC_FILE_SIZE, "invalid")]);
    assert!(matches!(
        result,
        Err(ConfigError::InvalidSecurityLimit {
            name: ENV_MAX_SRC_FILE_SIZE,
            ..
        })
    ));
}

#[test]
fn non_finite_max_source_resolution_fails_configuration() {
    for value in ["NaN", "inf", "-inf"] {
        let result = load(&[(ENV_MAX_SRC_RESOLUTION, value)]);
        assert!(matches!(
            result,
            Err(ConfigError::InvalidSecurityLimit {
                name: ENV_MAX_SRC_RESOLUTION,
                ..
            })
        ));
    }
}

#[test]
fn max_result_dimension_is_validated_at_startup() {
    let config = load(&[(ENV_MAX_RESULT_DIMENSION, "8192")]).expect("valid dimension");
    assert_eq!(config.max_result_dimension.map(MaxResultDimension::get), Some(8192));

    for value in ["0", "-1", "huge"] {
        assert!(matches!(
            load(&[(ENV_MAX_RESULT_DIMENSION, value)]),
            Err(ConfigError::InvalidSecurityLimit {
                name: ENV_MAX_RESULT_DIMENSION,
                ..
            })
        ));
    }
}

#[test]
fn valid_security_limits_are_stored_as_validated_types() {
    let config = load(&[(ENV_MAX_SRC_FILE_SIZE, "4096"), (ENV_MAX_SRC_RESOLUTION, "2.5")])
        .expect("security limits are valid");

    assert_eq!(config.max_src_file_size.map(MaxSourceFileSize::get), Some(4096));
    assert_eq!(config.max_src_resolution.map(MaxSourceResolution::pixels), Some(2_500_000));
}
