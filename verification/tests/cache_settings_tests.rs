use imgforge::caching::config::{CacheConfig, CacheError};
use imgforge::constants::{ENV_CACHE_DISK_CAPACITY, ENV_CACHE_DISK_PATH, ENV_CACHE_MEMORY_CAPACITY, ENV_CACHE_TYPE};
use imgforge::string_map::StringMap;

fn settings(pairs: &[(&str, &str)]) -> StringMap<String> {
    let mut map = StringMap::new();
    for (name, value) in pairs {
        map.insert(name.to_string(), value.to_string());
    }
    map
}

#[test]
fn no_cache_type_means_no_cache() {
    assert!(matches!(CacheConfig::from_vars(&settings(&[])), Ok(None)));
}

#[test]
fn memory_cache_defaults_to_a_thousand_entries() {
    let config = CacheConfig::from_vars(&settings(&[(ENV_CACHE_TYPE, "MEMORY")]));
    assert!(matches!(config, Ok(Some(CacheConfig::Memory { capacity: 1000 }))));
}

#[test]
fn hybrid_cache_reads_all_three_settings() {
    let config = CacheConfig::from_vars(&settings(&[
        (ENV_CACHE_TYPE, "hybrid"),
        (ENV_CACHE_MEMORY_CAPACITY, "50"),
        (ENV_CACHE_DISK_PATH, "/var/cache/imgforge"),
        (ENV_CACHE_DISK_CAPACITY, "+4096"),
    ]));
    match config {
        Ok(Some(CacheConfig::Hybrid { memory_capacity, disk_path, disk_capacity })) => {
            assert_eq!(memory_capacity, 50);
            assert_eq!(disk_path, "/var/cache/imgforge");
            assert_eq!(disk_capacity, 4096);
        }
        other => panic!("unexpected: {other:?}"),
    }
}

#[test]
fn disk_cache_without_a_path_names_the_missing_setting() {
    let config = CacheConfig::from_vars(&settings(&[(ENV_CACHE_TYPE, "disk"), (ENV_CACHE_DISK_CAPACITY, "x")]));
    assert!(matches!(config, Err(CacheError::Environment { name }) if name == ENV_CACHE_DISK_PATH));
}

#[test]
fn bad_capacity_names_the_setting_and_its_text() {
    let config = CacheConfig::from_vars(&settings(&[(ENV_CACHE_TYPE, "memory"), (ENV_CACHE_MEMORY_CAPACITY, "lots")]));
    match config {
        Err(CacheError::InvalidCapacity { name, value }) => {
            assert_eq!(name, ENV_CACHE_MEMORY_CAPACITY);
            assert_eq!(value, "lots");
        }
        other => panic!("unexpected: {other:?}"),
    }
}

#[test]
fn unknown_cache_type_is_refused_with_its_text() {
    let config = CacheConfig::from_vars(&settings(&[(ENV_CACHE_TYPE, "redis")]));
    assert!(matches!(config, Err(CacheError::UnsupportedType { value }) if value == "redis"));
}
