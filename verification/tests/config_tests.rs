use dwmstatus::config::{
    search_directories, AppConfig, DirListing, TomlConfigFile, DEFAULT_CONFIG_TEXT,
};

fn assert_is_default(config: &AppConfig) {
    assert_eq!(
        config.cpu.temperature_file.as_deref(),
        Some("/sys/class/thermal/thermal_zone0/temp")
    );
    assert_eq!(config.cpu.temperature_denominator, Some(1000));
    assert_eq!(
        config.battery.charge_file.as_deref(),
        Some("/sys/class/power_supply/BAT0/capacity")
    );
    assert_eq!(
        config.battery.status_file.as_deref(),
        Some("/sys/class/power_supply/AC/online")
    );
}

#[test]
fn compiled_in_default_parses() {
    let parsed = AppConfig::default_res();
    assert!(parsed.is_ok());
}

#[test]
fn parsed_default_matches_constructed_default() {
    let parsed = match AppConfig::default_res() {
        Ok(c) => c,
        Err(_) => panic!("the compiled-in default text must parse"),
    };
    assert_is_default(&parsed);
    assert_is_default(&AppConfig::default());
}

#[test]
fn missing_text_falls_back_to_default() {
    let config = AppConfig::load(None);
    assert_is_default(&config);
}

#[test]
fn malformed_text_falls_back_to_default() {
    let config = AppConfig::load(Some("this is not [ valid toml"));
    assert_is_default(&config);
}

#[test]
fn get_config_resolves_like_load() {
    let config = AppConfig::get_config(None);
    assert_is_default(&config);
}

#[test]
fn parsed_text_supplies_whole_configuration() {
    let text = "[cpu]\ntemperature_file = \"/t\"\ntemperature_denominator = 100\n[battery]\ncharge_file = \"/c\"\nstatus_file = \"/s\"\n";
    let config = AppConfig::load(Some(text));
    assert_eq!(config.cpu.temperature_file.as_deref(), Some("/t"));
    assert_eq!(config.cpu.temperature_denominator, Some(100));
    assert_eq!(config.battery.charge_file.as_deref(), Some("/c"));
    assert_eq!(config.battery.status_file.as_deref(), Some("/s"));
}

#[test]
fn all_fields_are_optional() {
    let config = AppConfig::load(Some(""));
    assert_eq!(config.cpu.temperature_file, None);
    assert_eq!(config.cpu.temperature_denominator, None);
    assert_eq!(config.battery.charge_file, None);
    assert_eq!(config.battery.status_file, None);
}

#[test]
fn missing_battery_group_is_tolerated() {
    let text = "[cpu]\ntemperature_file = \"/t\"\n";
    let config = AppConfig::load(Some(text));
    assert_eq!(config.cpu.temperature_file.as_deref(), Some("/t"));
    assert_eq!(config.battery.charge_file, None);
}

#[test]
fn unrecognized_fields_are_ignored() {
    let text = "[cpu]\ntemperature_file = \"/t\"\nextra = 3\n[other]\nx = \"y\"\n";
    let config = AppConfig::load(Some(text));
    assert_eq!(config.cpu.temperature_file.as_deref(), Some("/t"));
}

#[test]
fn non_positive_denominator_is_dropped() {
    let zero = AppConfig::load(Some("[cpu]\ntemperature_denominator = 0\n"));
    assert_eq!(zero.cpu.temperature_denominator, None);
    let negative = AppConfig::load(Some("[cpu]\ntemperature_denominator = -5\n"));
    assert_eq!(negative.cpu.temperature_denominator, None);
}

#[test]
fn wrongly_typed_field_is_dropped() {
    let config = AppConfig::load(Some("[cpu]\ntemperature_file = 7\n"));
    assert_eq!(config.cpu.temperature_file, None);
}

#[test]
fn default_text_holds_the_nested_schema() {
    assert!(DEFAULT_CONFIG_TEXT.contains("[cpu]"));
    assert!(DEFAULT_CONFIG_TEXT.contains("[battery]"));
}

fn dir(path: &str, entries: &[&str]) -> DirListing {
    DirListing {
        path: path.to_string(),
        entries: entries.iter().map(|e| e.to_string()).collect(),
    }
}

#[test]
fn override_directory_wins() {
    let dirs = vec![
        dir("/override", &["config.toml", "other.txt"]),
        dir("/home/user/.config/dwmstatus", &["config.toml"]),
    ];
    let found = search_directories("config.toml", &dirs);
    assert_eq!(found.as_deref(), Some("/override/config.toml"));
}

#[test]
fn later_directory_used_when_first_lacks_the_file() {
    let dirs = vec![
        dir("/override", &["notes.txt"]),
        dir("/home/user/.config/dwmstatus", &["config.toml"]),
    ];
    let found = search_directories("config.toml", &dirs);
    assert_eq!(
        found.as_deref(),
        Some("/home/user/.config/dwmstatus/config.toml")
    );
}

#[test]
fn no_directory_holds_the_file() {
    let dirs = vec![dir("/override", &[]), dir("/home", &["a", "b"])];
    assert_eq!(search_directories("config.toml", &dirs), None);
}

#[test]
fn empty_directory_list_finds_nothing() {
    let dirs: Vec<DirListing> = vec![];
    assert_eq!(search_directories("config.toml", &dirs), None);
}
