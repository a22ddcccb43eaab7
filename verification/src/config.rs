//! The supervisor's configuration: which `hypridle` configuration file goes
//! with which power source, how verbose the log is, and whether `hypridle`
//! runs quietly.

use crate::power::PowerSource;
use vstd::prelude::*;

verus! {

/// How much the supervisor logs.
#[derive(Clone, Copy, Debug, PartialEq, Eq, Structural)]
pub enum LogLevel {
    Trace,
    Debug,
    Info,
    Warn,
    Error,
}

impl LogLevel {
    /// The level that a configured name stands for. The five names are
    /// matched exactly; any other text stands for `Info`.
    pub open spec fn named(name: Seq<char>) -> LogLevel {
        if name == "trace"@ {
            LogLevel::Trace
        } else if name == "debug"@ {
            LogLevel::Debug
        } else if name == "info"@ {
            LogLevel::Info
        } else if name == "warn"@ {
            LogLevel::Warn
        } else if name == "error"@ {
            LogLevel::Error
        } else {
            LogLevel::Info
        }
    }

    /// Reads a configured level name.
    pub fn parse(name: &str) -> (level: LogLevel)
        ensures
            level == LogLevel::named(name@),
    {
        if same_text(name, "trace") {
            LogLevel::Trace
        } else if same_text(name, "debug") {
            LogLevel::Debug
        } else if same_text(name, "info") {
            LogLevel::Info
        } else if same_text(name, "warn") {
            LogLevel::Warn
        } else if same_text(name, "error") {
            LogLevel::Error
        } else {
            LogLevel::Info
        }
    }
}

/// Whether two string slices hold the same characters.
fn same_text(left: &str, right: &str) -> (same: bool)
    ensures
        same == (left@ == right@),
{
    left.to_owned() == right.to_owned()
}

/// The settings loaded once at startup.
pub struct Config {
    /// Path of the `hypridle` configuration used on AC power.
    pub hypridle_ac_conf: String,
    /// Path of the `hypridle` configuration used on battery.
    pub hypridle_bat_conf: String,
    /// Name of the log level.
    pub log_level: String,
    /// Whether `hypridle` is started with its quiet flag.
    pub hypridle_quiet: bool,
}

/// The settings as mathematical values.
pub struct ConfigView {
    pub hypridle_ac_conf: Seq<char>,
    pub hypridle_bat_conf: Seq<char>,
    pub log_level: Seq<char>,
    pub hypridle_quiet: bool,
}

impl View for Config {
    type V = ConfigView;

    open spec fn view(&self) -> ConfigView {
        ConfigView {
            hypridle_ac_conf: self.hypridle_ac_conf@,
            hypridle_bat_conf: self.hypridle_bat_conf@,
            log_level: self.log_level@,
            hypridle_quiet: self.hypridle_quiet,
        }
    }
}

impl ConfigView {
    /// The `hypridle` configuration path that goes with a power source.
    pub open spec fn conf_path(self, source: PowerSource) -> Seq<char> {
        match source {
            PowerSource::OnBattery => self.hypridle_bat_conf,
            PowerSource::OnACPower => self.hypridle_ac_conf,
        }
    }

    /// The configured log level.
    pub open spec fn verbosity(self) -> LogLevel {
        LogLevel::named(self.log_level)
    }
}

impl Config {
    /// The `hypridle` configuration path that goes with a power source.
    pub fn conf_path(&self, source: PowerSource) -> (path: &String)
        ensures
            path@ == self@.conf_path(source),
    {
        match source {
            PowerSource::OnBattery => &self.hypridle_bat_conf,
            PowerSource::OnACPower => &self.hypridle_ac_conf,
        }
    }

    /// The configured log level, `Info` where the name is not one of the five.
    pub fn verbosity(&self) -> (level: LogLevel)
        ensures
            level == self@.verbosity(),
    {
        LogLevel::parse(self.log_level.as_str())
    }
}

} // verus!
