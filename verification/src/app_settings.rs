//! The server's settings: which configuration files are read, and how values
//! given on the command line take precedence over what the files hold.

use vstd::prelude::*;
use vstd::string::*;

verus! {

/// The settings that the server runs with.
#[derive(Clone, Debug, PartialEq, Eq)]
pub struct ApplicationSettings {
    /// The target RTSP server URL
    pub rtsp_server: String,
    /// The URL of the monitored feed
    pub monitor_url: String,
}

/// Settings as contracts see them.
pub struct SettingsView {
    pub rtsp_server: Seq<char>,
    pub monitor_url: Seq<char>,
}

impl View for ApplicationSettings {
    type V = SettingsView;

    open spec fn view(&self) -> SettingsView {
        SettingsView { rtsp_server: self.rtsp_server@, monitor_url: self.monitor_url@ }
    }
}

/// The variable of the environment that names a configuration file.
pub const CONFIG_FILE_VARIABLE: &'static str = "CARECHORDS_CONF";

/// The prefix of the variables of the environment that give settings.
pub const ENVIRONMENT_PREFIX: &'static str = "CARECHORDS";

/// The first place where a configuration file is looked for.
pub const SYSTEM_CONFIG_PATH: &'static str = "/etc/carechords.toml";

/// The second place where a configuration file is looked for.
pub const LOCAL_CONFIG_PATH: &'static str = "/usr/local/etc/carechords.toml";

/// The third place where a configuration file is looked for.
pub const PACKAGE_CONFIG_PATH: &'static str = "/opt/carechords/carechords.toml";

/// A configuration file to read, and whether it must be there.
#[derive(Clone, Debug, PartialEq, Eq)]
pub struct ConfigSource {
    pub path: String,
    pub required: bool,
}

/// A configuration source as contracts see it.
pub struct ConfigSourceView {
    pub path: Seq<char>,
    pub required: bool,
}

impl View for ConfigSource {
    type V = ConfigSourceView;

    open spec fn view(&self) -> ConfigSourceView {
        ConfigSourceView { path: self.path@, required: self.required }
    }
}

/// Why no settings could be had.
#[derive(Clone, Debug, PartialEq, Eq)]
pub enum SettingsError {
    /// The environment names a configuration file that does not exist.
    MissingConfigFile(String),
}

/// Which of the three standard configuration files exist.
#[derive(Clone, Copy, Debug, PartialEq, Eq, Structural)]
pub struct StandardFiles {
    pub system: bool,
    pub local: bool,
    pub package: bool,
}

/// A file that is read if it is there.
pub open spec fn optional_source(present: bool, path: Seq<char>) -> Seq<ConfigSourceView> {
    if present {
        seq![ConfigSourceView { path, required: false }]
    } else {
        Seq::empty()
    }
}

/// The standard configuration files that exist, in the order in which they
/// are read; a later one overrides an earlier one.
pub open spec fn standard_sources(files: StandardFiles) -> Seq<ConfigSourceView> {
    optional_source(files.system, SYSTEM_CONFIG_PATH@) + optional_source(
        files.local,
        LOCAL_CONFIG_PATH@,
    ) + optional_source(files.package, PACKAGE_CONFIG_PATH@)
}

/// The views of a list of sources, in order.
pub open spec fn source_views(sources: Seq<ConfigSource>) -> Seq<ConfigSourceView> {
    Seq::new(sources.len(), |i: int| sources[i]@)
}

/// The configuration files to read, in order. A file that the environment
/// names is the only one read and must exist: `custom` holds its path and
/// whether it exists. Where the environment names none, the standard files
/// that exist are read.
pub fn config_sources(custom: Option<(String, bool)>, files: StandardFiles) -> (plan: Result<
    Vec<ConfigSource>,
    SettingsError,
>)
    ensures
        match custom {
            Some((path, exists)) => if exists {
                plan matches Ok(sources) && source_views(sources@) == seq![
                    ConfigSourceView { path: path@, required: true },
                ]
            } else {
                plan matches Err(SettingsError::MissingConfigFile(missing)) && missing@ == path@
            },
            None => plan matches Ok(sources) && source_views(sources@) == standard_sources(files),
        },
{
    let mut sources: Vec<ConfigSource> = Vec::new();
    match custom {
        Some((path, exists)) => {
            if !exists {
                return Err(SettingsError::MissingConfigFile(path));
            }
            let ghost wanted = path@;
            sources.push(ConfigSource { path, required: true });
            assert(source_views(sources@) =~= seq![
                ConfigSourceView { path: wanted, required: true },
            ]);
        },
        None => {
            if files.system {
                sources.push(
                    ConfigSource { path: String::from_str(SYSTEM_CONFIG_PATH), required: false },
                );
            }
            if files.local {
                sources.push(
                    ConfigSource { path: String::from_str(LOCAL_CONFIG_PATH), required: false },
                );
            }
            if files.package {
                sources.push(
                    ConfigSource { path: String::from_str(PACKAGE_CONFIG_PATH), required: false },
                );
            }
        },
    }
    Ok(sources)
}

/// A value of the command line replaces the configured one.
pub open spec fn overridden(configured: Seq<char>, given: Option<String>) -> Seq<char> {
    match given {
        Some(v) => v@,
        None => configured,
    }
}

impl ApplicationSettings {
    /// The settings with the values of the command line in place of the
    /// configured ones, where the command line gives them.
    pub fn with_overrides(self, rtsp_server: Option<String>, monitor_url: Option<String>) -> (s:
        Self)
        ensures
            s@ == (SettingsView {
                rtsp_server: overridden(self@.rtsp_server, rtsp_server),
                monitor_url: overridden(self@.monitor_url, monitor_url),
            }),
    {
        let mut settings = self;
        match rtsp_server {
            Some(v) => {
                settings.rtsp_server = v;
            },
            None => {},
        }
        match monitor_url {
            Some(v) => {
                settings.monitor_url = v;
            },
            None => {},
        }
        settings
    }
}

} // verus!
