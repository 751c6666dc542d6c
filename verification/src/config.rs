//! The settings that outlast a run, and the bounds that every writer of a
//! parameter keeps to.
use vstd::prelude::*;

verus! {

/// The slowest tempo, 20 beats per minute, in thousandths.
pub const MIN_BPM: u64 = 20_000;

/// The fastest tempo, 200 beats per minute, in thousandths.
pub const MAX_BPM: u64 = 200_000;

/// The longest bar, in beats.
pub const MAX_TOTAL_BEATS: u32 = 12;

/// The shortest bar, in beats.
pub const MIN_TOTAL_BEATS: u32 = 2;

/// Full volume, in thousandths.
pub const MAX_VOLUME: u64 = 1_000;

/// Silence.
pub const MIN_VOLUME: u64 = 0;

/// The tempo of a fresh configuration, 120 beats per minute, in thousandths.
pub const DEFAULT_BPM: u64 = 120_000;

/// The settings that are kept between runs.
#[derive(Clone, Copy, Debug, PartialEq, Eq)]
pub struct CoryConfig {
    /// The tempo in thousandths of a beat per minute.
    pub bpm: u64,
    /// The volume in thousandths of full volume.
    pub volume: u64,
}

/// Why no place for the configuration was found.
#[derive(Clone, Copy, Debug, PartialEq, Eq)]
pub enum ConfigError {
    /// Neither an override nor a directory of the platform is known.
    NoConfigDirectory,
}

/// A value held within two bounds.
pub open spec fn clamp_spec(value: int, low: int, high: int) -> int {
    if value < low {
        low
    } else if value > high {
        high
    } else {
        value
    }
}

/// Holds a value within two bounds.
pub fn clamp(value: u64, low: u64, high: u64) -> (held: u64)
    requires
        low <= high,
    ensures
        held == clamp_spec(value as int, low as int, high as int),
{
    if value < low {
        low
    } else if value > high {
        high
    } else {
        value
    }
}

impl Default for CoryConfig {
    /// 120 beats per minute at full volume.
    fn default() -> (config: Self)
        ensures
            config == (CoryConfig { bpm: DEFAULT_BPM, volume: MAX_VOLUME }),
    {
        CoryConfig { bpm: DEFAULT_BPM, volume: MAX_VOLUME }
    }
}

impl CoryConfig {
    /// A configuration of the given settings, as they are.
    pub fn new(bpm: u64, volume: u64) -> (config: Self)
        ensures
            config == (CoryConfig { bpm, volume }),
    {
        CoryConfig { bpm, volume }
    }

    /// Whether both settings are within their bounds.
    pub open spec fn in_bounds(self) -> bool {
        &&& MIN_BPM <= self.bpm <= MAX_BPM
        &&& MIN_VOLUME <= self.volume <= MAX_VOLUME
    }

    /// The configuration with each setting held within its bounds.
    pub fn to_rounded(&self) -> (config: Self)
        ensures
            config.bpm == clamp_spec(self.bpm as int, MIN_BPM as int, MAX_BPM as int),
            config.volume == clamp_spec(self.volume as int, MIN_VOLUME as int, MAX_VOLUME as int),
            config.in_bounds(),
            self.in_bounds() ==> config == *self,
    {
        CoryConfig {
            bpm: clamp(self.bpm, MIN_BPM, MAX_BPM),
            volume: clamp(self.volume, MIN_VOLUME, MAX_VOLUME),
        }
    }

    /// The configuration to start with, given what was found on disk: the
    /// settings that could be read, within their bounds, or else the
    /// defaults.
    pub fn load(found: Option<CoryConfig>) -> (config: Self)
        ensures
            config == match found {
                Some(read) => CoryConfig {
                    bpm: clamp_spec(read.bpm as int, MIN_BPM as int, MAX_BPM as int) as u64,
                    volume: clamp_spec(
                        read.volume as int,
                        MIN_VOLUME as int,
                        MAX_VOLUME as int,
                    ) as u64,
                },
                None => CoryConfig { bpm: DEFAULT_BPM, volume: MAX_VOLUME },
            },
            config.in_bounds(),
    {
        match found {
            Some(read) => read.to_rounded(),
            None => CoryConfig::default(),
        }
    }
}

/// The directory of the configuration: the override if one is set, else the
/// directory that the platform gives to the program.
pub fn config_directory<T>(overriding: Option<T>, platform: Option<T>) -> (r: Result<T, ConfigError>)
    ensures
        r == match (overriding, platform) {
            (Some(directory), _) => Ok::<T, ConfigError>(directory),
            (None, Some(directory)) => Ok(directory),
            (None, None) => Err(ConfigError::NoConfigDirectory),
        },
{
    match overriding {
        Some(directory) => Ok(directory),
        None => match platform {
            Some(directory) => Ok(directory),
            None => Err(ConfigError::NoConfigDirectory),
        },
    }
}

impl ConfigError {
    /// The error in words.
    pub fn message(&self) -> (text: &'static str)
        ensures
            text@ == "Unable to find config directory for ratatui-template"@,
    {
        match self {
            ConfigError::NoConfigDirectory => "Unable to find config directory for ratatui-template",
        }
    }
}

} // verus!
