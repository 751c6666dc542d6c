use cory::config::{
    clamp, config_directory, ConfigError, CoryConfig, DEFAULT_BPM, MAX_BPM, MAX_TOTAL_BEATS,
    MAX_VOLUME, MIN_BPM, MIN_TOTAL_BEATS, MIN_VOLUME,
};
use cory::units::{FULL_VOLUME, UNITS_PER_BPM};

#[test]
fn bounds_in_their_units() {
    assert_eq!(MIN_BPM, 20 * UNITS_PER_BPM);
    assert_eq!(MAX_BPM, 200 * UNITS_PER_BPM);
    assert_eq!(DEFAULT_BPM, 120 * UNITS_PER_BPM);
    assert_eq!(MIN_VOLUME, 0);
    assert_eq!(MAX_VOLUME, FULL_VOLUME);
    assert_eq!(MIN_TOTAL_BEATS, 2);
    assert_eq!(MAX_TOTAL_BEATS, 12);
}

#[test]
fn default_config() {
    assert_eq!(CoryConfig::default(), CoryConfig { bpm: 120_000, volume: 1_000 });
}

#[test]
fn new_config_keeps_what_it_is_given() {
    assert_eq!(CoryConfig::new(5, 7_000), CoryConfig { bpm: 5, volume: 7_000 });
}

#[test]
fn clamp_holds_a_value_within_bounds() {
    assert_eq!(clamp(5, 10, 20), 10);
    assert_eq!(clamp(10, 10, 20), 10);
    assert_eq!(clamp(15, 10, 20), 15);
    assert_eq!(clamp(20, 10, 20), 20);
    assert_eq!(clamp(u64::MAX, 10, 20), 20);
    assert_eq!(clamp(3, 3, 3), 3);
}

#[test]
fn to_rounded_clamps_both_settings() {
    assert_eq!(CoryConfig::new(0, 0).to_rounded(), CoryConfig::new(20_000, 0));
    assert_eq!(CoryConfig::new(19_999, 1_001).to_rounded(), CoryConfig::new(20_000, 1_000));
    assert_eq!(CoryConfig::new(200_001, 500).to_rounded(), CoryConfig::new(200_000, 500));
    assert_eq!(CoryConfig::new(133_333, 250).to_rounded(), CoryConfig::new(133_333, 250));
    assert_eq!(CoryConfig::new(u64::MAX, u64::MAX).to_rounded(), CoryConfig::new(200_000, 1_000));
}

#[test]
fn load_falls_back_to_the_defaults() {
    assert_eq!(CoryConfig::load(None), CoryConfig::default());
    assert_eq!(CoryConfig::load(Some(CoryConfig::new(90_500, 300))), CoryConfig::new(90_500, 300));
    assert_eq!(CoryConfig::load(Some(CoryConfig::new(1, 3_000))), CoryConfig::new(20_000, 1_000));
}

#[test]
fn config_directory_prefers_the_override() {
    assert_eq!(
        config_directory(Some("/tmp/over".to_string()), Some("/home/u/.config/cory".to_string())),
        Ok("/tmp/over".to_string())
    );
    assert_eq!(config_directory(Some("/tmp/over".to_string()), None), Ok("/tmp/over".to_string()));
    assert_eq!(
        config_directory(None, Some("/home/u/.config/cory".to_string())),
        Ok("/home/u/.config/cory".to_string())
    );
    assert_eq!(config_directory::<String>(None, None), Err(ConfigError::NoConfigDirectory));
}

#[test]
fn config_directory_takes_any_kind_of_path() {
    let over = std::path::PathBuf::from("/tmp/over");
    let home = std::path::PathBuf::from("/home/u/.config/cory");
    assert_eq!(config_directory(Some(over.clone()), Some(home.clone())), Ok(over));
    assert_eq!(config_directory(None, Some(home.clone())), Ok(home));
    assert_eq!(config_directory::<std::path::PathBuf>(None, None), Err(ConfigError::NoConfigDirectory));
    assert_eq!(ConfigError::NoConfigDirectory.message(), "Unable to find config directory for ratatui-template");
}
