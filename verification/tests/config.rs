use protoncode::config::{
    app_config_dir, app_dir_in, app_file_in, config_path, ensure_parent_dir, seen_cache_path,
    AppConfig, ConfigError, ConfigFile, LoadedConfig, DEFAULT_MAIL_URL,
};
use protoncode::paths::{AppPath, FileStep, PathBase};
use std::path::PathBuf;

fn at(text: &str) -> AppPath {
    AppPath::at(PathBase::Text(text.to_owned()))
}

fn names(path: &AppPath) -> Vec<&str> {
    path.names.iter().map(|name| name.as_str()).collect()
}

#[test]
fn default_configuration_is_as_documented() {
    let config = AppConfig::default_in(Some(at("/c/protoncode")));
    assert_eq!(config.poll_interval_seconds, 8);
    assert_eq!(config.notification_duration_seconds, 8);
    assert!(!config.launch_on_startup);
    assert!(config.start_minimized_to_tray);
    assert!(config.copy_button_enabled);
    assert_eq!(config.proton_mail_url, "https://mail.proton.me/u/0/inbox");
    assert_eq!(config.proton_mail_url, DEFAULT_MAIL_URL);
    assert_eq!(config.user_data_dir, at("/c/protoncode").child("webview-data"));
    assert_eq!(config.clone(), config);
}

#[test]
fn default_configuration_falls_back_to_the_current_directory() {
    let config = AppConfig::default_in(None);
    assert_eq!(config.user_data_dir, at(".").child("webview-data"));
}

#[test]
fn paths_stand_below_the_configuration_directory() {
    let base = PathBuf::from("/home/someone/.config");
    let dir = app_dir_in(Some(base.clone())).expect("a directory");
    assert_eq!(dir.base, PathBase::System(base.clone()));
    assert_eq!(names(&dir), vec!["protoncode"]);
    let file = app_file_in(Some(base), "config.json").expect("a file");
    assert_eq!(names(&file), vec!["protoncode", "config.json"]);
    assert_eq!(file, dir.child("config.json"));
    assert_eq!(app_dir_in(None), None);
    assert_eq!(app_file_in(None, "config.json"), None);
}

#[test]
fn paths_of_this_system_agree() {
    let system = dirs::config_dir();
    assert_eq!(app_config_dir(), app_dir_in(system.clone()));
    assert_eq!(config_path(), app_file_in(system.clone(), "config.json"));
    assert_eq!(seen_cache_path(), app_file_in(system.clone(), "seen-cache.json"));
    assert_eq!(AppConfig::default(), AppConfig::default_in(app_dir_in(system)));
}

#[test]
fn missing_file_gives_the_default_to_be_saved() {
    let loaded = AppConfig::load_or_default(
        Some(at("f")),
        ConfigFile::Missing,
        Some(at("d")),
    )
    .expect("loaded");
    assert!(loaded.must_save);
    assert_eq!(loaded.config, AppConfig::default_in(Some(at("d"))));
}

#[test]
fn configuration_that_was_read_is_used() {
    let mut config = AppConfig::default_in(None);
    config.poll_interval_seconds = 20;
    let loaded = AppConfig::load_or_default(
        Some(at("f")),
        ConfigFile::Read(config.clone()),
        Some(at("d")),
    )
    .expect("loaded");
    assert!(!loaded.must_save);
    assert_eq!(loaded.config, config);
}

#[test]
fn configuration_errors_say_what_failed() {
    let load = |path: Option<AppPath>, file: ConfigFile| {
        AppConfig::load_or_default(path, file, None).expect_err("an error")
    };
    let missing = load(None, ConfigFile::Missing);
    assert_eq!(missing, ConfigError::PathUnavailable);
    assert_eq!(missing.message("f"), "config path unavailable");
    let unreadable = load(Some(at("f")), ConfigFile::Unreadable);
    assert_eq!(unreadable, ConfigError::Unreadable(at("f")));
    assert_eq!(unreadable.message("f"), "failed to read config from f");
    let malformed = load(Some(at("f")), ConfigFile::Malformed);
    assert_eq!(malformed, ConfigError::Malformed(at("f")));
    assert_eq!(malformed.message("f"), "failed to parse config from f");
}

#[test]
fn saving_makes_both_directories_first() {
    let config = AppConfig::default_in(Some(at("d")));
    let path = at("d").child("config.json");
    assert_eq!(
        config.save(Some(path.clone())),
        Ok(vec![
            FileStep::CreateConfigDir(path.clone()),
            FileStep::CreateDataDir(at("d").child("webview-data")),
            FileStep::WriteConfig(path),
        ])
    );
    assert_eq!(config.save(None), Err(ConfigError::PathUnavailable));
    assert_eq!(
        config.ensure_runtime_dirs(),
        FileStep::CreateDataDir(at("d").child("webview-data"))
    );
}

#[test]
fn parent_directories_are_made() {
    assert_eq!(
        ensure_parent_dir(&at("d").child("x").child("y")),
        FileStep::CreateParentDir(at("d").child("x").child("y"))
    );
    assert_eq!(ensure_parent_dir(&at("/a/b")), FileStep::CreateParentDir(at("/a/b")));
}

#[test]
fn failed_steps_say_what_failed() {
    for (step, message) in [
        (FileStep::CreateConfigDir(at("p")), "failed to create config directory p"),
        (FileStep::CreateDataDir(at("p")), "failed to create webview data directory p"),
        (FileStep::CreateParentDir(at("p")), "failed to create directory p"),
        (FileStep::WriteConfig(at("p")), "failed to write config to p"),
        (FileStep::WriteSeenCache(at("p")), "failed to write seen cache to p"),
    ] {
        assert_eq!(step.failure_message("p"), message);
        assert_eq!(step.path(), &at("p"));
    }
}

#[test]
fn new_configuration_is_used_only_if_saved() {
    let config = AppConfig::default_in(None);
    let loaded = |must_save: bool| LoadedConfig { config: config.clone(), must_save };
    let failed = || ConfigError::StepFailed(FileStep::WriteConfig(at("f")));
    assert_eq!(loaded(true).settled(Ok(())), Ok(config.clone()));
    assert_eq!(loaded(true).settled(Err(failed())), Err(failed()));
    assert_eq!(loaded(false).settled(Err(failed())), Ok(config.clone()));
    assert_eq!(failed().message("f"), "failed to write config to f");
    assert_eq!(ConfigError::Unserialized.message("f"), "failed to serialize config");
}
