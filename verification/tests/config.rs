use awtrix3::cli::{get_device_host, ResolveError};
use awtrix3::commands::device::{add, device_to_test, remove, DeviceError};
use awtrix3::config::{
    add_device, default_color, default_format, default_log_level, default_retries,
    default_timeout, remove_device, Config, DeviceConfig, Preferences,
};

fn entry(name: &str, host: &str) -> (String, DeviceConfig) {
    (
        name.to_string(),
        DeviceConfig { host: host.to_string(), name: name.to_uppercase(), timeout: 30, retries: 3 },
    )
}

fn two_devices() -> Config {
    let mut config = Config::default();
    config.devices.push(entry("desk", "10.0.0.1"));
    config.devices.push(entry("hall", "10.0.0.2"));
    config
}

#[test]
fn test_default_config() {
    let config = Config::default();
    assert!(config.devices.is_empty());
    assert!(config.default_device.is_none());
    assert_eq!(config.preferences.default_format, "table");
}

#[test]
fn the_defaults_are_as_documented() {
    assert_eq!(default_timeout(), 30);
    assert_eq!(default_retries(), 3);
    assert_eq!(default_format(), "table");
    assert!(default_color());
    assert_eq!(default_log_level(), "info");
    let preferences = Preferences::default();
    assert_eq!(preferences.default_format, "table");
    assert!(preferences.colored_output);
    assert_eq!(preferences.log_level, "info");
}

#[test]
fn a_device_is_found_under_its_name() {
    let config = two_devices();
    assert_eq!(config.device("desk").unwrap().host, "10.0.0.1");
    assert_eq!(config.device("hall").unwrap().host, "10.0.0.2");
    assert!(config.device("Desk").is_none());
    assert!(config.device("").is_none());
}

#[test]
fn adding_a_device_puts_it_under_its_name() {
    let config = add_device(Config::default(), "desk".to_string(), "10.0.0.1".to_string(), "Desk clock".to_string(), false);
    assert_eq!(config.devices.len(), 1);
    let device = config.device("desk").unwrap();
    assert_eq!(device.host, "10.0.0.1");
    assert_eq!(device.name, "Desk clock");
    assert_eq!(device.timeout, 30);
    assert_eq!(device.retries, 3);
    // The first device becomes the default without being asked.
    assert_eq!(config.default_device, Some("desk".to_string()));

    let config = add_device(config, "hall".to_string(), "10.0.0.2".to_string(), "Hall".to_string(), false);
    assert_eq!(config.default_device, Some("desk".to_string()));
    let config = add_device(config, "attic".to_string(), "10.0.0.3".to_string(), "Attic".to_string(), true);
    assert_eq!(config.default_device, Some("attic".to_string()));
    assert_eq!(config.devices.len(), 3);

    // A second device under a name takes the place of the first.
    let config = add_device(config, "desk".to_string(), "10.0.0.9".to_string(), "New".to_string(), false);
    assert_eq!(config.devices.len(), 3);
    assert_eq!(config.device("desk").unwrap().host, "10.0.0.9");
    assert_eq!(config.device("hall").unwrap().host, "10.0.0.2");
}

#[test]
fn removing_a_device_clears_a_default_that_named_it() {
    let mut config = two_devices();
    config.default_device = Some("desk".to_string());
    let config = remove_device(config, "desk");
    assert!(config.device("desk").is_none());
    assert_eq!(config.device("hall").unwrap().host, "10.0.0.2");
    assert!(config.default_device.is_none());

    let mut config = two_devices();
    config.default_device = Some("hall".to_string());
    let config = remove_device(config, "desk");
    assert_eq!(config.default_device, Some("hall".to_string()));
    let config = remove_device(config, "nobody");
    assert_eq!(config.devices.len(), 1);
    assert_eq!(config.default_device, Some("hall".to_string()));
}

#[test]
fn a_device_given_comes_first() {
    let mut config = two_devices();
    config.default_device = Some("hall".to_string());
    assert_eq!(get_device_host(Some("desk"), Some("env.local"), &config).unwrap(), "10.0.0.1");
    assert_eq!(get_device_host(Some("192.168.7.7"), Some("env.local"), &config).unwrap(), "192.168.7.7");
    assert_eq!(get_device_host(Some("desk"), None, &config).unwrap(), "10.0.0.1");
}

#[test]
fn the_environment_comes_before_the_default() {
    let mut config = two_devices();
    config.default_device = Some("hall".to_string());
    assert_eq!(get_device_host(None, Some("env.local"), &config).unwrap(), "env.local");
    // What the environment names is a host, not a name to look up.
    assert_eq!(get_device_host(None, Some("desk"), &config).unwrap(), "desk");
    assert_eq!(get_device_host(None, None, &config).unwrap(), "10.0.0.2");
}

#[test]
fn a_default_that_is_not_configured_is_named_in_the_failure() {
    let mut config = two_devices();
    config.default_device = Some("attic".to_string());
    match get_device_host(None, None, &config) {
        Err(ResolveError::DefaultNotFound(name)) => assert_eq!(name, "attic"),
        other => panic!("unexpected: {:?}", other),
    }
    assert_eq!(
        get_device_host(None, None, &config).unwrap_err().message(),
        "Default device 'attic' not found in config"
    );
    let mut empty = Config::default();
    empty.default_device = Some("desk".to_string());
    assert!(matches!(get_device_host(None, None, &empty), Err(ResolveError::DefaultNotFound(_))));
}

#[test]
fn without_any_device_all_three_ways_are_named() {
    let config = two_devices();
    match get_device_host(None, None, &config) {
        Err(ResolveError::NoDevice) => {}
        other => panic!("unexpected: {:?}", other),
    }
    let words = get_device_host(None, None, &Config::default()).unwrap_err().message();
    assert_eq!(
        words,
        "No device specified. Use --device, set AWTRIX_DEVICE env var, or configure a default device"
    );
    assert!(words.contains("--device") && words.contains("AWTRIX_DEVICE") && words.contains("default device"));
}

#[test]
fn the_device_command_adds_and_removes() {
    let config = add(Config::default(), "desk".to_string(), "10.0.0.1".to_string(), false);
    assert_eq!(config.device("desk").unwrap().name, "AWTRIX3 desk");
    assert_eq!(config.device("desk").unwrap().host, "10.0.0.1");
    assert_eq!(config.device("desk").unwrap().timeout, 30);
    assert_eq!(config.device("desk").unwrap().retries, 3);
    assert!(config.default_device.is_none());
    let config = add(config, "hall".to_string(), "10.0.0.2".to_string(), true);
    assert_eq!(config.default_device, Some("hall".to_string()));

    match remove(config.clone(), "attic") {
        Err(DeviceError::NotFound(name)) => assert_eq!(name, "attic"),
        other => panic!("unexpected: {:?}", other),
    }
    assert_eq!(
        remove(config.clone(), "attic").unwrap_err().message(),
        "Device 'attic' not found in configuration"
    );
    // The default goes to a device that is left.
    let left = remove(config.clone(), "hall").unwrap();
    assert!(left.device("hall").is_none());
    assert_eq!(left.default_device, Some("desk".to_string()));
    // Another device than the default leaves the default alone.
    let left = remove(config, "desk").unwrap();
    assert_eq!(left.default_device, Some("hall".to_string()));
    // With the last device the default goes too.
    let none = remove(left, "hall").unwrap();
    assert!(none.devices.is_empty());
    assert!(none.default_device.is_none());
}

#[test]
fn the_device_to_test_is_the_one_named_or_the_default() {
    let mut config = two_devices();
    assert_eq!(device_to_test(&config, Some("hall")).unwrap().host, "10.0.0.2");
    match device_to_test(&config, Some("attic")) {
        Err(DeviceError::NotFound(name)) => assert_eq!(name, "attic"),
        other => panic!("unexpected: {:?}", other),
    }
    match device_to_test(&config, None) {
        Err(DeviceError::NoDefault) => {}
        other => panic!("unexpected: {:?}", other),
    }
    assert_eq!(device_to_test(&config, None).unwrap_err().message(), "No default device configured");
    config.default_device = Some("desk".to_string());
    assert_eq!(device_to_test(&config, None).unwrap().host, "10.0.0.1");
    config.default_device = Some("attic".to_string());
    match device_to_test(&config, None) {
        Err(DeviceError::DefaultNotFound(name)) => assert_eq!(name, "attic"),
        other => panic!("unexpected: {:?}", other),
    }
    assert_eq!(
        device_to_test(&config, None).unwrap_err().message(),
        "Default device 'attic' not found in configuration"
    );
}
