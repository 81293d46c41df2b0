//! Settings read from the optional configuration file, and what stands in for
//! them when the file cannot be used.

use vstd::prelude::*;
use crate::endpoint::resolved_target;

verus! {

/// Name of the configuration file, looked up in the working directory.
pub const CONFIG_FILE_NAME: &'static str = "anarchic-image-hosting-cli.json5";

/// Log level of a configuration that names none.
pub const DEFAULT_LOG_LEVEL: &'static str = "info";

/// Log level used when the configuration is unavailable.
pub const FALLBACK_LOG_LEVEL: &'static str = "error";

/// Start of the warning emitted when the configuration is unavailable.
pub const WARNING_PREFIX: &'static str = "Warning: Could not load config file: ";

/// What the configuration file holds. Both entries are optional.
#[derive(Debug, PartialEq, Eq)]
pub struct Configuration {
    pub log_level: Option<String>,
    pub endpoint: Option<String>,
}

/// Mathematical content of a [`Configuration`].
pub ghost struct ConfigurationView {
    pub log_level: Option<Seq<char>>,
    pub endpoint: Option<Seq<char>>,
}

impl View for Configuration {
    type V = ConfigurationView;

    open spec fn view(&self) -> ConfigurationView {
        ConfigurationView {
            log_level: self.log_level.deep_view(),
            endpoint: self.endpoint.deep_view(),
        }
    }
}

/// Why no configuration could be had. Either way the run goes on with defaults.
#[derive(Debug, Clone, Copy, PartialEq, Eq, Structural)]
pub enum ConfigUnavailable {
    /// The file is absent or could not be read.
    Missing,
    /// The file was read but is not a valid configuration; nothing of it is kept.
    Unparsable,
}

impl ConfigUnavailable {
    /// The cause in words, as it ends the warning.
    pub open spec fn reason_text(self) -> Seq<char> {
        match self {
            ConfigUnavailable::Missing => "Unable to read config file"@,
            ConfigUnavailable::Unparsable => "Unable to parse config file"@,
        }
    }

    /// The cause in words, as it ends the warning.
    pub fn reason(&self) -> (text: &'static str)
        ensures
            text@ == self.reason_text(),
    {
        match self {
            ConfigUnavailable::Missing => "Unable to read config file",
            ConfigUnavailable::Unparsable => "Unable to parse config file",
        }
    }
}

/// The settings a run works with, once the configuration has been looked at.
#[derive(Debug, PartialEq, Eq)]
pub struct Settings {
    /// Verbosity handed to the logger, once, before anything else is done.
    pub log_level: String,
    /// Endpoint from the configuration, if it named one.
    pub endpoint: Option<String>,
    /// Line for the error stream, present exactly when defaults replaced the file.
    pub warning: Option<String>,
}

/// Mathematical content of a [`Settings`].
pub ghost struct SettingsView {
    pub log_level: Seq<char>,
    pub endpoint: Option<Seq<char>>,
    pub warning: Option<Seq<char>>,
}

impl View for Settings {
    type V = SettingsView;

    open spec fn view(&self) -> SettingsView {
        SettingsView {
            log_level: self.log_level@,
            endpoint: self.endpoint.deep_view(),
            warning: self.warning.deep_view(),
        }
    }
}

/// Content of the outcome of loading the configuration.
pub open spec fn loaded_view(loaded: Result<Configuration, ConfigUnavailable>) -> Result<ConfigurationView, ConfigUnavailable> {
    match loaded {
        Ok(config) => Ok(config@),
        Err(cause) => Err(cause),
    }
}

/// The settings that follow from loading the configuration: the file's own
/// entries with `info` for a missing level, or, when the file is unavailable,
/// level `error`, no endpoint and a warning that names the cause.
pub open spec fn settings_of(loaded: Result<ConfigurationView, ConfigUnavailable>) -> SettingsView {
    match loaded {
        Ok(config) => SettingsView {
            log_level: match config.log_level {
                Some(level) => level,
                None => DEFAULT_LOG_LEVEL@,
            },
            endpoint: config.endpoint,
            warning: None,
        },
        Err(cause) => SettingsView {
            log_level: FALLBACK_LOG_LEVEL@,
            endpoint: None,
            warning: Some(WARNING_PREFIX@ + cause.reason_text()),
        },
    }
}

/// Turns the outcome of loading the configuration into settings. An unavailable
/// configuration is never an error here: it yields defaults and a warning.
pub fn effective_settings(loaded: Result<Configuration, ConfigUnavailable>) -> (settings: Settings)
    ensures
        settings@ == settings_of(loaded_view(loaded)),
{
    match loaded {
        Ok(config) => {
            let log_level = match config.log_level {
                Some(level) => level,
                None => String::from_str(DEFAULT_LOG_LEVEL),
            };
            Settings { log_level, endpoint: config.endpoint, warning: None }
        },
        Err(cause) => Settings {
            log_level: String::from_str(FALLBACK_LOG_LEVEL),
            endpoint: None,
            warning: Some(String::from_str(WARNING_PREFIX).concat(cause.reason())),
        },
    }
}

/// With the configuration unavailable the log level is exactly `error`, a
/// warning is due, and the target is resolved from the command line and the
/// default alone.
pub proof fn lemma_unavailable_configuration(cause: ConfigUnavailable, cli_url: Option<Seq<char>>)
    ensures
        settings_of(Err(cause)).log_level == "error"@,
        settings_of(Err(cause)).warning is Some,
        settings_of(Err(cause)).endpoint is None,
        resolved_target(cli_url, settings_of(Err(cause)).endpoint) == resolved_target(cli_url, None),
{
}

/// A configuration that was loaded never causes a warning, and its endpoint is
/// passed on untouched.
pub proof fn lemma_loaded_configuration(config: ConfigurationView)
    ensures
        settings_of(Ok(config)).warning is None,
        settings_of(Ok(config)).endpoint == config.endpoint,
        config.log_level is Some ==> settings_of(Ok(config)).log_level == config.log_level->0,
        config.log_level is None ==> settings_of(Ok(config)).log_level == "info"@,
{
}

} // verus!
