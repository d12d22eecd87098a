use notos::config::{
    child_path, config_file, find_root, resolve, root_dir, root_for, Config, LogLevel,
    Resolution,
    CONFIG_FILE_NAME, CONFIG_KEY_LOG_ENABLED, CONFIG_KEY_LOG_FILE, CONFIG_KEY_NOTES_DIR,
    LOG_FILE_DEFAULT, NOTES_DIR_DEFAULT, ROOT_DIR_DEFAULT,
};
use notos::document::Setting;
use notos::error::{Failure, Malformed};
use notos::startup::{bootstrap_steps, Observed, Step};

fn defaults() -> Config {
    Config {
        notes_dir: "/home/u/.notos/notes".to_string(),
        log_file: "/home/u/.notos/notos.log".to_string(),
        log_level: LogLevel::Debug,
        log_enabled: true,
    }
}

fn resolved(document: &str) -> Result<Config, Failure> {
    resolve("/home/u/.notos", true, Some(document)).map(|r| r.config)
}

#[test]
fn names_on_disk() {
    assert_eq!(ROOT_DIR_DEFAULT, ".notos");
    assert_eq!(CONFIG_FILE_NAME, "config.toml");
    assert_eq!(NOTES_DIR_DEFAULT, "notes");
    assert_eq!(LOG_FILE_DEFAULT, "notos.log");
    assert_eq!(CONFIG_KEY_NOTES_DIR, "notes_dir");
    assert_eq!(CONFIG_KEY_LOG_FILE, "log_file");
    assert_eq!(CONFIG_KEY_LOG_ENABLED, "log_enabled");
    assert_eq!(child_path("/a", "b"), "/a/b");
    assert_eq!(root_dir("/home/u"), "/home/u/.notos");
    assert_eq!(config_file("/home/u/.notos"), "/home/u/.notos/config.toml");
}

#[test]
fn the_root_is_below_the_home_directory() {
    if let Some(root) = find_root() {
        assert!(root.ends_with("/.notos"));
        assert!(root.len() > "/.notos".len());
    }
}

#[test]
fn the_root_for_a_home_directory() {
    assert_eq!(root_for(Some("/home/u".to_string())), Some("/home/u/.notos".to_string()));
    assert_eq!(root_for(Some("".to_string())), Some("/.notos".to_string()));
    assert_eq!(root_for(None), None);
}

#[test]
fn the_defaults() {
    assert_eq!(Config::defaults("/home/u/.notos"), defaults());
}

#[test]
fn a_first_run_makes_the_root_and_reads_no_document() {
    let expected = Resolution { config: defaults(), create_root: true };
    assert_eq!(resolve("/home/u/.notos", false, None), Ok(expected.clone()));
    // whatever a document would say, it is not looked at
    assert_eq!(resolve("/home/u/.notos", false, Some("log_enabled = false")), Ok(expected.clone()));
    assert_eq!(resolve("/home/u/.notos", false, Some("this is = = no toml")), Ok(expected));
}

#[test]
fn without_a_document_the_defaults_hold() {
    assert_eq!(
        resolve("/home/u/.notos", true, None),
        Ok(Resolution { config: defaults(), create_root: false })
    );
}

#[test]
fn resolving_twice_gives_the_same() {
    let first = resolve("/home/u/.notos", false, None).unwrap();
    let second = resolve("/home/u/.notos", true, None).unwrap();
    let third = resolve("/home/u/.notos", true, None).unwrap();
    assert_eq!(first.config, second.config);
    assert!(first.create_root);
    assert!(!second.create_root);
    assert_eq!(second, third);
}

#[test]
fn log_enabled_alone_leaves_the_paths() {
    let config = resolved("log_enabled = false\n").unwrap();
    assert_eq!(config, Config { log_enabled: false, ..defaults() });
    assert_eq!(config.notes_dir, "/home/u/.notos/notes");
    assert_eq!(config.log_file, "/home/u/.notos/notos.log");
    assert_eq!(resolved("log_enabled = true\n"), Ok(defaults()));
}

#[test]
fn each_key_sets_its_own_field() {
    assert_eq!(
        resolved("notes_dir = \"/data/notes\"\n"),
        Ok(Config { notes_dir: "/data/notes".to_string(), ..defaults() })
    );
    assert_eq!(
        resolved("log_file = \"/var/log/notos.log\"\n"),
        Ok(Config { log_file: "/var/log/notos.log".to_string(), ..defaults() })
    );
    assert_eq!(
        resolved("log_file = '/l'\nnotes_dir = '/n'\nlog_enabled = false\n"),
        Ok(Config {
            notes_dir: "/n".to_string(),
            log_file: "/l".to_string(),
            log_level: LogLevel::Debug,
            log_enabled: false,
        })
    );
}

#[test]
fn the_log_file_key_does_not_switch_logging() {
    let config = resolved("log_file = \"/l\"\n").unwrap();
    assert!(config.log_enabled);
}

#[test]
fn an_empty_document_changes_nothing() {
    assert_eq!(resolved(""), Ok(defaults()));
    assert_eq!(resolved("# only a comment\n"), Ok(defaults()));
}

#[test]
fn unknown_keys_are_ignored() {
    assert_eq!(resolved("colour = \"blue\"\nlog_level = \"trace\"\n[section]\nx = 1\n"), Ok(defaults()));
    // keys inside a section are not top-level keys
    assert_eq!(resolved("[section]\nlog_enabled = false\n"), Ok(defaults()));
}

#[test]
fn a_value_of_the_wrong_type_is_fatal() {
    assert_eq!(resolved("notes_dir = 1\n"), Err(Failure::Parse(Malformed::NotesDir)));
    assert_eq!(resolved("notes_dir = true\n"), Err(Failure::Parse(Malformed::NotesDir)));
    assert_eq!(resolved("log_file = false\n"), Err(Failure::Parse(Malformed::LogFile)));
    assert_eq!(resolved("log_file = [\"a\"]\n"), Err(Failure::Parse(Malformed::LogFile)));
    assert_eq!(resolved("log_enabled = \"yes\"\n"), Err(Failure::Parse(Malformed::LogEnabled)));
    assert_eq!(resolved("log_enabled = 1\n"), Err(Failure::Parse(Malformed::LogEnabled)));
    assert_eq!(resolved("log_enabled = 1.5\n"), Err(Failure::Parse(Malformed::LogEnabled)));
    assert_eq!(
        resolved("log_enabled = 1979-05-27\n"),
        Err(Failure::Parse(Malformed::LogEnabled))
    );
    assert_eq!(resolved("[log_enabled]\nx = 1\n"), Err(Failure::Parse(Malformed::LogEnabled)));
    // the first key in the order notes directory, log file, logging switch is named
    assert_eq!(
        resolved("log_enabled = 1\nlog_file = 2\n"),
        Err(Failure::Parse(Malformed::LogFile))
    );
    assert_eq!(
        resolved("log_enabled = 1\nlog_file = 2\nnotes_dir = 3\n"),
        Err(Failure::Parse(Malformed::NotesDir))
    );
}

#[test]
fn a_text_that_is_no_document_is_fatal() {
    assert_eq!(resolved("log_enabled = \n"), Err(Failure::Parse(Malformed::ConfigDocument)));
    assert_eq!(resolved("= = ="), Err(Failure::Parse(Malformed::ConfigDocument)));
    assert_eq!(
        resolved("log_enabled = true\nlog_enabled = false\n"),
        Err(Failure::Parse(Malformed::ConfigDocument))
    );
}

#[test]
fn overlay_on_plain_settings() {
    let text = |s: &str| Some(Setting::Text(s.to_string()));
    assert_eq!(defaults().overlay(None, None, None), Ok(defaults()));
    assert_eq!(
        defaults().overlay(None, None, Some(Setting::Flag(false))),
        Ok(Config { log_enabled: false, ..defaults() })
    );
    assert_eq!(
        defaults().overlay(text("/n"), text("/l"), Some(Setting::Flag(true))),
        Ok(Config { notes_dir: "/n".to_string(), log_file: "/l".to_string(), ..defaults() })
    );
    assert_eq!(
        defaults().overlay(Some(Setting::Other), None, None),
        Err(Failure::Parse(Malformed::NotesDir))
    );
    assert_eq!(
        defaults().overlay(None, Some(Setting::Flag(true)), Some(Setting::Other)),
        Err(Failure::Parse(Malformed::LogFile))
    );
    assert_eq!(
        defaults().overlay(None, None, text("true")),
        Err(Failure::Parse(Malformed::LogEnabled))
    );
}

fn seen(log_file_exists: bool, log_dir_exists: bool, notes_dir_exists: bool) -> Observed {
    Observed { log_file_exists, log_dir_exists, notes_dir_exists }
}

#[test]
fn a_fresh_disk_gets_everything() {
    assert_eq!(
        bootstrap_steps(&defaults(), &seen(false, false, false)),
        vec![Step::CreateLogDir, Step::CreateLogFile, Step::CreateNotesDir]
    );
    assert_eq!(
        bootstrap_steps(&defaults(), &seen(false, true, false)),
        vec![Step::CreateLogFile, Step::CreateNotesDir]
    );
}

#[test]
fn a_second_run_makes_nothing() {
    assert_eq!(
        bootstrap_steps(&defaults(), &seen(true, true, true)),
        vec![Step::AppendToLogFile]
    );
}

#[test]
fn an_existing_log_file_is_added_to() {
    assert_eq!(
        bootstrap_steps(&defaults(), &seen(true, true, false)),
        vec![Step::AppendToLogFile, Step::CreateNotesDir]
    );
    // the log file is there, so its directory is not looked at
    assert_eq!(bootstrap_steps(&defaults(), &seen(true, false, true)), vec![Step::AppendToLogFile]);
}

#[test]
fn with_logging_off_the_log_file_is_left_alone() {
    let quiet = Config { log_enabled: false, ..defaults() };
    assert_eq!(bootstrap_steps(&quiet, &seen(false, false, false)), vec![Step::CreateNotesDir]);
    assert_eq!(bootstrap_steps(&quiet, &seen(false, false, true)), Vec::<Step>::new());
}
