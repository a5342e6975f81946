use vstd::prelude::*;

verus! {

/// Settings of one capture cycle.
#[derive(Clone, Copy, Debug, PartialEq, Eq, Structural)]
pub struct AgentConfig {
    /// Seconds between two capture attempts.
    pub interval: u64,
    /// A colour channel below this value counts as black.
    pub almost_black_threshold: u64,
    /// Lit samples needed for a frame to count as not blank.
    pub non_blank_threshold: u64,
    /// A frame is the same screen when fewer than this many parts per million of
    /// its fingerprint pixels changed.
    pub same_screen_ratio_ppm: u64,
}

pub open spec fn default_config() -> AgentConfig {
    AgentConfig {
        interval: 60,
        almost_black_threshold: 20,
        non_blank_threshold: 400,
        same_screen_ratio_ppm: 10_000,
    }
}

impl Default for AgentConfig {
    fn default() -> (r: Self)
        ensures
            r == default_config(),
    {
        AgentConfig {
            interval: 60,
            almost_black_threshold: 20,
            non_blank_threshold: 400,
            same_screen_ratio_ppm: 10_000,
        }
    }
}

/// One setting as found in a configuration object.
#[derive(Clone, Copy, Debug, PartialEq, Eq, Structural)]
pub enum ConfigField {
    /// The key is not there.
    Absent,
    /// The key holds a value of the expected kind.
    Value(u64),
    /// The key holds a value of another kind.
    Malformed,
}

/// The four settings as found in a configuration object.
#[derive(Clone, Copy, Debug, PartialEq, Eq, Structural)]
pub struct ConfigFields {
    pub interval: ConfigField,
    pub almost_black_threshold: ConfigField,
    pub non_blank_threshold: ConfigField,
    pub same_screen_ratio_ppm: ConfigField,
}

/// The setting whose value had the wrong kind, or an interval of zero.
#[derive(Clone, Copy, Debug, PartialEq, Eq, Structural)]
pub enum ConfigError {
    Interval,
    AlmostBlackThreshold,
    NonBlankThreshold,
    SameScreenRatio,
}

pub open spec fn field_or(f: ConfigField, default: u64) -> u64 {
    match f {
        ConfigField::Value(v) => v,
        _ => default,
    }
}

/// The configuration that a set of fields describes: each present field replaces
/// the default; the first malformed one, in declaration order, is an error. An
/// interval of zero seconds is malformed: a timer needs a positive period.
pub open spec fn config_from_fields_spec(f: ConfigFields) -> Result<AgentConfig, ConfigError> {
    let d = default_config();
    if f.interval is Malformed || f.interval == ConfigField::Value(0) {
        Err(ConfigError::Interval)
    } else if f.almost_black_threshold is Malformed {
        Err(ConfigError::AlmostBlackThreshold)
    } else if f.non_blank_threshold is Malformed {
        Err(ConfigError::NonBlankThreshold)
    } else if f.same_screen_ratio_ppm is Malformed {
        Err(ConfigError::SameScreenRatio)
    } else {
        Ok(
            AgentConfig {
                interval: field_or(f.interval, d.interval),
                almost_black_threshold: field_or(f.almost_black_threshold, d.almost_black_threshold),
                non_blank_threshold: field_or(f.non_blank_threshold, d.non_blank_threshold),
                same_screen_ratio_ppm: field_or(f.same_screen_ratio_ppm, d.same_screen_ratio_ppm),
            },
        )
    }
}

fn pick(f: ConfigField, default: u64) -> (r: u64)
    ensures
        r == field_or(f, default),
{
    match f {
        ConfigField::Value(v) => v,
        _ => default,
    }
}

impl ConfigFields {
    /// No field present: the configuration of an empty or unreadable object.
    pub fn absent() -> (r: ConfigFields)
        ensures
            r.interval is Absent,
            r.almost_black_threshold is Absent,
            r.non_blank_threshold is Absent,
            r.same_screen_ratio_ppm is Absent,
    {
        ConfigFields {
            interval: ConfigField::Absent,
            almost_black_threshold: ConfigField::Absent,
            non_blank_threshold: ConfigField::Absent,
            same_screen_ratio_ppm: ConfigField::Absent,
        }
    }
}

impl AgentConfig {
    /// Builds a configuration from the defaults and the fields that are present.
    pub fn from_fields(f: ConfigFields) -> (r: Result<AgentConfig, ConfigError>)
        ensures
            r == config_from_fields_spec(f),
    {
        if matches!(f.interval, ConfigField::Malformed) || matches!(f.interval, ConfigField::Value(0)) {
            return Err(ConfigError::Interval);
        }
        if matches!(f.almost_black_threshold, ConfigField::Malformed) {
            return Err(ConfigError::AlmostBlackThreshold);
        }
        if matches!(f.non_blank_threshold, ConfigField::Malformed) {
            return Err(ConfigError::NonBlankThreshold);
        }
        if matches!(f.same_screen_ratio_ppm, ConfigField::Malformed) {
            return Err(ConfigError::SameScreenRatio);
        }
        let d = AgentConfig::default();
        Ok(
            AgentConfig {
                interval: pick(f.interval, d.interval),
                almost_black_threshold: pick(f.almost_black_threshold, d.almost_black_threshold),
                non_blank_threshold: pick(f.non_blank_threshold, d.non_blank_threshold),
                same_screen_ratio_ppm: pick(f.same_screen_ratio_ppm, d.same_screen_ratio_ppm),
            },
        )
    }
}

/// Command-line arguments: an optional configuration as JSON text.
#[derive(Debug)]
pub struct Args {
    pub config: Option<String>,
}

impl Args {
    /// The configuration text; empty when none was given.
    pub fn config_text(&self) -> (r: &str)
        ensures
            self.config matches Some(c) ==> r@ == c@,
            self.config is None ==> r@.len() == 0,
    {
        match &self.config {
            Some(c) => c.as_str(),
            None => {
                proof {
                    reveal_strlit("");
                }
                ""
            },
        }
    }
}

} // verus!
