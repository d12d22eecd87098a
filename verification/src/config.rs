//! The effective configuration: built-in defaults under the root directory,
//! overlaid key by key with what the configuration document holds.

use crate::document::{document_settings, parse_table, setting_of, table_get, Setting, SettingView};
use crate::error::{Failure, Malformed};
use crate::home::home_dir;
use vstd::prelude::*;
use vstd::string::StringExecFns;

verus! {

/// The least severity that is logged.
#[derive(Debug, Clone, Copy, PartialEq, Eq, Structural)]
pub enum LogLevel {
    Trace,
    Debug,
    Info,
    Warn,
    Error,
}

/// The configuration of one run.
#[derive(Debug, Clone, PartialEq, Eq)]
pub struct Config {
    /// The directory that holds one file per topic.
    pub notes_dir: String,
    /// The file that log records go to.
    pub log_file: String,
    /// The least severity that is logged.
    pub log_level: LogLevel,
    /// Whether anything is logged at all.
    pub log_enabled: bool,
}

/// A [`Config`] as a mathematical value.
pub struct ConfigView {
    pub notes_dir: Seq<char>,
    pub log_file: Seq<char>,
    pub log_level: LogLevel,
    pub log_enabled: bool,
}

impl View for Config {
    type V = ConfigView;

    open spec fn view(&self) -> ConfigView {
        ConfigView {
            notes_dir: self.notes_dir@,
            log_file: self.log_file@,
            log_level: self.log_level,
            log_enabled: self.log_enabled,
        }
    }
}

/// Name of the root directory, below the home directory.
pub const ROOT_DIR_DEFAULT: &'static str = ".notos";

/// Name of the configuration document, below the root directory.
pub const CONFIG_FILE_NAME: &'static str = "config.toml";

/// Name of the notes directory, below the root directory.
pub const NOTES_DIR_DEFAULT: &'static str = "notes";

/// Name of the log file, below the root directory.
pub const LOG_FILE_DEFAULT: &'static str = "notos.log";

/// Key of the document under which the notes directory stands.
pub const CONFIG_KEY_NOTES_DIR: &'static str = "notes_dir";

/// Key of the document under which the log file stands.
pub const CONFIG_KEY_LOG_FILE: &'static str = "log_file";

/// Key of the document under which the logging switch stands.
pub const CONFIG_KEY_LOG_ENABLED: &'static str = "log_enabled";

/// The path of the entry `name` in the directory `dir`.
pub open spec fn child(dir: Seq<char>, name: Seq<char>) -> Seq<char> {
    dir + "/"@ + name
}

/// The path of the entry `name` in the directory `dir`.
pub fn child_path(dir: &str, name: &str) -> (path: String)
    ensures
        path@ == child(dir@, name@),
{
    let mut path = dir.to_owned();
    path.append("/");
    path.append(name);
    path
}

/// The root directory of the user whose home directory is `home`.
pub open spec fn root_of(home: Seq<char>) -> Seq<char> {
    child(home, ROOT_DIR_DEFAULT@)
}

/// The root directory of the user whose home directory is `home`.
pub fn root_dir(home: &str) -> (root: String)
    ensures
        root@ == root_of(home@),
{
    child_path(home, ROOT_DIR_DEFAULT)
}

/// The root directory of the user who runs the program, or `None` where no
/// home directory is known for them.
pub fn find_root() -> (root: Option<String>)
    ensures
        root matches Some(path) ==> exists|home: Seq<char>| path@ == #[trigger] root_of(home),
{
    root_for(home_dir())
}

/// The root directory for a home directory that may not be known: below the
/// home directory where there is one, `None` where there is none.
pub fn root_for(home: Option<String>) -> (root: Option<String>)
    ensures
        match home {
            Some(home) => root matches Some(path) && path@ == root_of(home@),
            None => root is None,
        },
{
    match home {
        Some(home) => Some(root_dir(home.as_str())),
        None => None,
    }
}

/// Where the configuration document stands below the root directory.
pub fn config_file(root: &str) -> (path: String)
    ensures
        path@ == child(root@, CONFIG_FILE_NAME@),
{
    child_path(root, CONFIG_FILE_NAME)
}

/// The configuration in force where no document says otherwise.
pub open spec fn default_config(root: Seq<char>) -> ConfigView {
    ConfigView {
        notes_dir: child(root, NOTES_DIR_DEFAULT@),
        log_file: child(root, LOG_FILE_DEFAULT@),
        log_level: LogLevel::Debug,
        log_enabled: true,
    }
}

/// The base with each present setting in place of its default. A present
/// setting of the wrong type is an error, named after the first such key in
/// the order notes directory, log file, logging switch.
pub open spec fn overlaid(
    base: ConfigView,
    notes_dir: Option<SettingView>,
    log_file: Option<SettingView>,
    log_enabled: Option<SettingView>,
) -> Result<ConfigView, Failure> {
    if notes_dir is Some && !(notes_dir->0 is Text) {
        Err(Failure::Parse(Malformed::NotesDir))
    } else if log_file is Some && !(log_file->0 is Text) {
        Err(Failure::Parse(Malformed::LogFile))
    } else if log_enabled is Some && !(log_enabled->0 is Flag) {
        Err(Failure::Parse(Malformed::LogEnabled))
    } else {
        Ok(
            ConfigView {
                notes_dir: match notes_dir {
                    Some(SettingView::Text(path)) => path,
                    _ => base.notes_dir,
                },
                log_file: match log_file {
                    Some(SettingView::Text(path)) => path,
                    _ => base.log_file,
                },
                log_level: base.log_level,
                log_enabled: match log_enabled {
                    Some(SettingView::Flag(flag)) => flag,
                    _ => base.log_enabled,
                },
            },
        )
    }
}

/// What an optional setting holds, as a mathematical value.
pub open spec fn setting_view(setting: Option<Setting>) -> Option<SettingView> {
    match setting {
        Some(setting) => Some(setting@),
        None => None,
    }
}

impl Config {
    /// The configuration in force where no document says otherwise.
    pub fn defaults(root: &str) -> (config: Config)
        ensures
            config@ == default_config(root@),
    {
        Config {
            notes_dir: child_path(root, NOTES_DIR_DEFAULT),
            log_file: child_path(root, LOG_FILE_DEFAULT),
            log_level: LogLevel::Debug,
            log_enabled: true,
        }
    }

    /// This configuration with each present setting in place of its own
    /// field, see [`overlaid`].
    pub fn overlay(
        self,
        notes_dir: Option<Setting>,
        log_file: Option<Setting>,
        log_enabled: Option<Setting>,
    ) -> (outcome: Result<Config, Failure>)
        ensures
            match outcome {
                Ok(config) => overlaid(
                    self@,
                    setting_view(notes_dir),
                    setting_view(log_file),
                    setting_view(log_enabled),
                ) == Ok::<ConfigView, Failure>(config@),
                Err(error) => overlaid(
                    self@,
                    setting_view(notes_dir),
                    setting_view(log_file),
                    setting_view(log_enabled),
                ) == Err::<ConfigView, Failure>(error),
            },
    {
        let mut config = self;
        match notes_dir {
            None => {},
            Some(Setting::Text(path)) => {
                config.notes_dir = path;
            },
            Some(_) => {
                return Err(Failure::Parse(Malformed::NotesDir));
            },
        }
        match log_file {
            None => {},
            Some(Setting::Text(path)) => {
                config.log_file = path;
            },
            Some(_) => {
                return Err(Failure::Parse(Malformed::LogFile));
            },
        }
        match log_enabled {
            None => {},
            Some(Setting::Flag(flag)) => {
                config.log_enabled = flag;
            },
            Some(_) => {
                return Err(Failure::Parse(Malformed::LogEnabled));
            },
        }
        Ok(config)
    }
}

/// A configuration, and whether the root directory has yet to be made.
#[derive(Debug, Clone, PartialEq, Eq)]
pub struct Resolution {
    pub config: Config,
    pub create_root: bool,
}

/// The configuration of a run, from the root directory, whether it exists,
/// and the text of the configuration document if there is one. Without a
/// root directory this is a first run: the directory is to be made and no
/// document is looked at. Without a document the defaults hold. A text that
/// is no TOML document is an error.
pub open spec fn resolution(root: Seq<char>, root_exists: bool, document: Option<Seq<char>>)
    -> Result<(ConfigView, bool), Failure> {
    let defaults = default_config(root);
    if !root_exists {
        Ok((defaults, true))
    } else {
        match document {
            None => Ok((defaults, false)),
            Some(text) => match document_settings(text) {
                None => Err(Failure::Parse(Malformed::ConfigDocument)),
                Some(settings) => match overlaid(
                    defaults,
                    setting_of(settings, CONFIG_KEY_NOTES_DIR@),
                    setting_of(settings, CONFIG_KEY_LOG_FILE@),
                    setting_of(settings, CONFIG_KEY_LOG_ENABLED@),
                ) {
                    Ok(config) => Ok((config, false)),
                    Err(error) => Err(error),
                },
            },
        }
    }
}

/// What an optional text holds.
pub open spec fn text_view(text: Option<&str>) -> Option<Seq<char>> {
    match text {
        Some(text) => Some(text@),
        None => None,
    }
}

/// The configuration of a run, see [`resolution`].
pub fn resolve(root: &str, root_exists: bool, document: Option<&str>) -> (outcome: Result<
    Resolution,
    Failure,
>)
    ensures
        match outcome {
            Ok(resolved) => resolution(root@, root_exists, text_view(document)) == Ok::<
                (ConfigView, bool),
                Failure,
            >((resolved.config@, resolved.create_root)),
            Err(error) => resolution(root@, root_exists, text_view(document)) == Err::<
                (ConfigView, bool),
                Failure,
            >(error),
        },
{
    let defaults = Config::defaults(root);
    if !root_exists {
        return Ok(Resolution { config: defaults, create_root: true });
    }
    let text = match document {
        None => {
            return Ok(Resolution { config: defaults, create_root: false });
        },
        Some(text) => text,
    };
    let table = match parse_table(text) {
        Err(_) => {
            return Err(Failure::Parse(Malformed::ConfigDocument));
        },
        Ok(table) => table,
    };
    let notes_dir = table_get(&table, CONFIG_KEY_NOTES_DIR);
    let log_file = table_get(&table, CONFIG_KEY_LOG_FILE);
    let log_enabled = table_get(&table, CONFIG_KEY_LOG_ENABLED);
    match defaults.overlay(notes_dir, log_file, log_enabled) {
        Ok(config) => Ok(Resolution { config, create_root: false }),
        Err(error) => Err(error),
    }
}

/// A document whose only known key is the logging switch, set to a boolean,
/// gives the defaults with that switch: the notes directory and the log file
/// stay where the defaults put them.
pub proof fn lemma_log_enabled_alone(root: Seq<char>, text: Seq<char>, flag: bool)
    ensures
        (document_settings(text) matches Some(settings) && {
            &&& !settings.contains_key(CONFIG_KEY_NOTES_DIR@)
            &&& !settings.contains_key(CONFIG_KEY_LOG_FILE@)
            &&& settings.contains_key(CONFIG_KEY_LOG_ENABLED@)
            &&& settings[CONFIG_KEY_LOG_ENABLED@] == SettingView::Flag(flag)
        }) ==> resolution(root, true, Some(text)) == Ok::<(ConfigView, bool), Failure>(
            (ConfigView { log_enabled: flag, ..default_config(root) }, false),
        ),
{
}

/// A logging switch that is set alone leaves the notes directory and the
/// log file as they were; more generally each field follows from its own
/// setting and from no other.
pub proof fn lemma_keys_are_independent(
    base: ConfigView,
    notes_dir: Option<SettingView>,
    log_file: Option<SettingView>,
    log_enabled: Option<SettingView>,
    flag: bool,
)
    ensures
        overlaid(base, None, None, Some(SettingView::Flag(flag))) == Ok::<ConfigView, Failure>(
            ConfigView { log_enabled: flag, ..base },
        ),
        overlaid(base, None, None, None) == Ok::<ConfigView, Failure>(base),
        overlaid(base, notes_dir, log_file, log_enabled) matches Ok(config) ==> {
            &&& config.log_level == base.log_level
            &&& notes_dir is None ==> config.notes_dir == base.notes_dir
            &&& notes_dir matches Some(setting) ==> setting == SettingView::Text(config.notes_dir)
            &&& log_file is None ==> config.log_file == base.log_file
            &&& log_file matches Some(setting) ==> setting == SettingView::Text(config.log_file)
            &&& log_enabled is None ==> config.log_enabled == base.log_enabled
            &&& log_enabled matches Some(setting) ==> setting == SettingView::Flag(
                config.log_enabled,
            )
        },
{
}

} // verus!
