use rwrs_server::config::{parse_u64, Config, MapEntry, MapsConfig};
use rwrs_server::release::{RepoVersion, VersionInfo};

#[test]
fn test_config_default_values() {
    // Create config without environment values to test defaults
    let config = Config::new(None, None, None, None, None, None, None).unwrap();

    // Test default values
    assert_eq!(config.host, "127.0.0.1");
    assert_eq!(config.port, "5800");
    assert_eq!(config.cache_duration_secs, 3);
    assert_eq!(config.rate_limit_duration_secs, 3);
    assert_eq!(config.maps_config_path, "maps.json");
    assert!(config.android_repo_url.is_none());
    assert!(config.web_repo_url.is_none());
}

#[test]
fn test_maps_config_creation() {
    let config = MapsConfig::new();
    assert_eq!(config.get_maps().len(), 0);
}

#[test]
fn test_version_info_creation() {
    let version_info = VersionInfo {
        android: RepoVersion {
            version: Some("v2.0.0".to_string()),
            url: Some("https://github.com/example/android/releases/tag/v2.0.0".to_string()),
        },
        web: RepoVersion { version: None, url: None },
    };

    assert_eq!(version_info.android.version, Some("v2.0.0".to_string()));
    assert_eq!(version_info.web.version, None);
}

#[test]
fn test_version_info_empty() {
    let version_info = VersionInfo {
        android: RepoVersion { version: None, url: None },
        web: RepoVersion { version: None, url: None },
    };

    assert!(version_info.android.version.is_none());
    assert!(version_info.web.version.is_none());
}

#[test]
fn test_map_entry_creation() {
    let entry = MapEntry {
        name: "Test Map".to_string(),
        path: "media/packages/vanilla/maps/test".to_string(),
        image: "test.png".to_string(),
    };

    assert_eq!(entry.name, "Test Map");
    assert_eq!(entry.path, "media/packages/vanilla/maps/test");
    assert_eq!(entry.image, "test.png");
}

#[test]
fn config_parses_durations() {
    let config = Config::new(
        Some("0.0.0.0".to_string()),
        Some("8080".to_string()),
        Some("120".to_string()),
        Some("45".to_string()),
        Some("other.json".to_string()),
        Some("https://github.com/a/b".to_string()),
        None,
    )
    .unwrap();

    assert_eq!(config.host, "0.0.0.0");
    assert_eq!(config.port, "8080");
    assert_eq!(config.cache_duration_secs, 120);
    assert_eq!(config.rate_limit_duration_secs, 45);
    assert_eq!(config.maps_config_path, "other.json");
    assert_eq!(config.android_repo_url, Some("https://github.com/a/b".to_string()));
    assert_eq!(config.web_repo_url, None);
}

#[test]
fn config_falls_back_on_bad_durations() {
    // not a number, and a number too large for u64: both fall back to 3
    let config = Config::new(
        None,
        None,
        Some("abc".to_string()),
        Some("99999999999999999999999".to_string()),
        None,
        None,
        None,
    )
    .unwrap();

    assert_eq!(config.cache_duration_secs, 3);
    assert_eq!(config.rate_limit_duration_secs, 3);
}

#[test]
fn decimal_parsing_is_exact() {
    assert_eq!(parse_u64("0"), Some(0));
    assert_eq!(parse_u64("7"), Some(7));
    assert_eq!(parse_u64("120"), Some(120));
    assert_eq!(parse_u64("007"), Some(7));
    // the largest value that fits, and the first that does not
    assert_eq!(parse_u64("18446744073709551615"), Some(u64::MAX));
    assert_eq!(parse_u64("18446744073709551616"), None);
    assert_eq!(parse_u64(""), None);
    assert_eq!(parse_u64("12a"), None);
    assert_eq!(parse_u64("-1"), None);
    assert_eq!(parse_u64("+1"), None);
    assert_eq!(parse_u64(" 1"), None);
}

#[test]
fn maps_copy_preserves_entries() {
    let config = MapsConfig {
        maps: vec![
            MapEntry {
                name: "One".to_string(),
                path: "p/one".to_string(),
                image: "one.png".to_string(),
            },
            MapEntry {
                name: "Two".to_string(),
                path: "p/two".to_string(),
                image: "two.png".to_string(),
            },
        ],
    };

    let maps = config.get_maps();
    assert_eq!(maps.len(), 2);
    assert_eq!(maps[0].name, "One");
    assert_eq!(maps[0].path, "p/one");
    assert_eq!(maps[0].image, "one.png");
    assert_eq!(maps[1].name, "Two");
    assert_eq!(maps[1].path, "p/two");
    assert_eq!(maps[1].image, "two.png");
}
