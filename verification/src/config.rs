//! The configuration of the application and where it is kept.

use crate::paths::{AppPath, FileStep, PathBase};
#[allow(unused_imports)]
use crate::paths::{optional_path, BaseView, DirView, DiskView, FileStepView, PathView};
use std::path::PathBuf;
use vstd::prelude::*;

verus! {

/// The name of the application's own configuration directory.
pub const APP_DIR: &'static str = "protoncode";

/// The name of the configuration file.
pub const CONFIG_FILE: &'static str = "config.json";

/// The name of the file that lists the messages already seen.
pub const SEEN_CACHE_FILE: &'static str = "seen-cache.json";

/// The name of the directory for the data of the embedded browser.
pub const WEBVIEW_DIR: &'static str = "webview-data";

/// The page that a new configuration opens.
pub const DEFAULT_MAIL_URL: &'static str = "https://mail.proton.me/u/0/inbox";

/// The configuration of the application.
#[derive(Debug, PartialEq, Eq)]
pub struct AppConfig {
    /// Seconds between two looks at the mail page.
    pub poll_interval_seconds: u64,
    /// Seconds for which a notification stays visible.
    pub notification_duration_seconds: u64,
    /// Whether the application starts when the user signs in.
    pub launch_on_startup: bool,
    /// Whether the mail window starts hidden in the tray.
    pub start_minimized_to_tray: bool,
    /// Whether a notification offers to copy its code.
    pub copy_button_enabled: bool,
    /// The page that the embedded browser opens.
    pub proton_mail_url: String,
    /// The directory for the data of the embedded browser.
    pub user_data_dir: AppPath,
}

/// What a configuration says.
pub ghost struct ConfigView {
    pub poll_interval_seconds: u64,
    pub notification_duration_seconds: u64,
    pub launch_on_startup: bool,
    pub start_minimized_to_tray: bool,
    pub copy_button_enabled: bool,
    pub proton_mail_url: Seq<char>,
    pub user_data_dir: PathView,
}

impl View for AppConfig {
    type V = ConfigView;

    open spec fn view(&self) -> ConfigView {
        ConfigView {
            poll_interval_seconds: self.poll_interval_seconds,
            notification_duration_seconds: self.notification_duration_seconds,
            launch_on_startup: self.launch_on_startup,
            start_minimized_to_tray: self.start_minimized_to_tray,
            copy_button_enabled: self.copy_button_enabled,
            proton_mail_url: self.proton_mail_url@,
            user_data_dir: self.user_data_dir@,
        }
    }
}

impl Clone for AppConfig {
    fn clone(&self) -> (copy: Self)
        ensures
            copy@ == self@,
    {
        AppConfig {
            poll_interval_seconds: self.poll_interval_seconds,
            notification_duration_seconds: self.notification_duration_seconds,
            launch_on_startup: self.launch_on_startup,
            start_minimized_to_tray: self.start_minimized_to_tray,
            copy_button_enabled: self.copy_button_enabled,
            proton_mail_url: self.proton_mail_url.clone(),
            user_data_dir: self.user_data_dir.clone(),
        }
    }
}

/// The configuration directory of the user, from `dirs::config_dir`. It depends
/// on the platform and the environment, so nothing is known of it.
#[verifier::external_body]
fn user_config_dir() -> (dir: Option<PathBuf>) {
    dirs::config_dir()
}

/// The application's directory below the configuration directory `base`.
pub open spec fn app_dir_below(base: Option<PathBuf>) -> Option<PathView> {
    match base {
        Some(dir) => Some(PathView { base: BaseView::System(dir), names: seq![APP_DIR@] }),
        None => None,
    }
}

/// The entry `name` of the application's directory below `base`.
pub open spec fn app_file_below(base: Option<PathBuf>, name: Seq<char>) -> Option<PathView> {
    match app_dir_below(base) {
        Some(dir) => Some(dir.child(name)),
        None => None,
    }
}

/// The application's directory below the configuration directory `base`.
pub fn app_dir_in(base: Option<PathBuf>) -> (dir: Option<AppPath>)
    ensures
        optional_path(dir) == app_dir_below(base),
{
    match base {
        Some(base) => {
            let dir: AppPath = AppPath::at(PathBase::System(base)).child(APP_DIR);
            assert(dir@.names =~= seq![APP_DIR@]);
            Some(dir)
        },
        None => None,
    }
}

/// The entry `name` of the application's directory below `base`.
pub fn app_file_in(base: Option<PathBuf>, name: &str) -> (file: Option<AppPath>)
    ensures
        optional_path(file) == app_file_below(base, name@),
{
    match app_dir_in(base) {
        Some(dir) => Some(dir.child(name)),
        None => None,
    }
}

/// The application's configuration directory, such as `~/.config/protoncode`.
pub fn app_config_dir() -> (dir: Option<AppPath>)
    ensures
        exists|base: Option<PathBuf>| optional_path(dir) == #[trigger] app_dir_below(base),
{
    app_dir_in(user_config_dir())
}

/// The path of the configuration file.
pub fn config_path() -> (file: Option<AppPath>)
    ensures
        exists|base: Option<PathBuf>|
            optional_path(file) == #[trigger] app_file_below(base, CONFIG_FILE@),
{
    app_file_in(user_config_dir(), CONFIG_FILE)
}

/// The path of the list of seen messages in the configuration directory.
pub fn seen_cache_path() -> (file: Option<AppPath>)
    ensures
        exists|base: Option<PathBuf>|
            optional_path(file) == #[trigger] app_file_below(base, SEEN_CACHE_FILE@),
{
    app_file_in(user_config_dir(), SEEN_CACHE_FILE)
}

/// The configuration that a first start makes, with the application's
/// directory at `dir`. Without one, data goes below the current directory.
pub open spec fn default_config(dir: Option<PathView>) -> ConfigView {
    let base = match dir {
        Some(dir) => dir,
        None => PathView { base: BaseView::Text("."@), names: Seq::empty() },
    };
    ConfigView {
        poll_interval_seconds: 8,
        notification_duration_seconds: 8,
        launch_on_startup: false,
        start_minimized_to_tray: true,
        copy_button_enabled: true,
        proton_mail_url: DEFAULT_MAIL_URL@,
        user_data_dir: base.child(WEBVIEW_DIR@),
    }
}

/// What was found where the configuration file should be.
#[derive(Debug, PartialEq, Eq)]
pub enum ConfigFile {
    /// There is no file.
    Missing,
    /// The file could not be read.
    Unreadable,
    /// The file does not hold a configuration.
    Malformed,
    /// The file holds this configuration.
    Read(AppConfig),
}

/// What was found where the configuration file should be.
pub ghost enum FoundView {
    Missing,
    Unreadable,
    Malformed,
    Read(ConfigView),
}

impl View for ConfigFile {
    type V = FoundView;

    open spec fn view(&self) -> FoundView {
        match self {
            ConfigFile::Missing => FoundView::Missing,
            ConfigFile::Unreadable => FoundView::Unreadable,
            ConfigFile::Malformed => FoundView::Malformed,
            ConfigFile::Read(config) => FoundView::Read(config@),
        }
    }
}

/// Why there is no configuration to work with, or why it is not saved.
#[derive(Debug, PartialEq, Eq)]
pub enum ConfigError {
    /// The platform names no configuration directory.
    PathUnavailable,
    /// The file could not be read.
    Unreadable(AppPath),
    /// The file does not hold a configuration.
    Malformed(AppPath),
    /// The configuration could not be written as JSON.
    Unserialized,
    /// This step failed.
    StepFailed(FileStep),
}

/// Why there is no configuration to work with, or why it is not saved.
pub ghost enum ConfigErrorView {
    PathUnavailable,
    Unreadable(PathView),
    Malformed(PathView),
    Unserialized,
    StepFailed(FileStepView),
}

impl View for ConfigError {
    type V = ConfigErrorView;

    open spec fn view(&self) -> ConfigErrorView {
        match self {
            ConfigError::PathUnavailable => ConfigErrorView::PathUnavailable,
            ConfigError::Unreadable(path) => ConfigErrorView::Unreadable(path@),
            ConfigError::Malformed(path) => ConfigErrorView::Malformed(path@),
            ConfigError::Unserialized => ConfigErrorView::Unserialized,
            ConfigError::StepFailed(step) => ConfigErrorView::StepFailed(step@),
        }
    }
}

impl ConfigError {
    /// The error in words; `shown` is the path of the file or directory that it
    /// is about, as text.
    pub fn message(&self, shown: &str) -> (message: String)
        ensures
            message@ == match self {
                ConfigError::PathUnavailable => "config path unavailable"@,
                ConfigError::Unreadable(_) => "failed to read config from "@ + shown@,
                ConfigError::Malformed(_) => "failed to parse config from "@ + shown@,
                ConfigError::Unserialized => "failed to serialize config"@,
                ConfigError::StepFailed(step) => step@.failure() + shown@,
            },
    {
        let mut message: String = match self {
            ConfigError::PathUnavailable => {
                return "config path unavailable".to_owned();
            },
            ConfigError::Unserialized => {
                return "failed to serialize config".to_owned();
            },
            ConfigError::StepFailed(step) => {
                return step.failure_message(shown);
            },
            ConfigError::Unreadable(_) => "failed to read config from ".to_owned(),
            ConfigError::Malformed(_) => "failed to parse config from ".to_owned(),
        };
        message.append(shown);
        message
    }
}

/// A configuration to work with.
#[derive(Debug, PartialEq, Eq)]
pub struct LoadedConfig {
    /// The configuration.
    pub config: AppConfig,
    /// Whether it is new and has to be saved before it is used.
    pub must_save: bool,
}

/// What loading a configuration comes to.
pub ghost enum LoadView {
    /// This configuration is used, and has to be saved first or not.
    Usable(ConfigView, bool),
    /// There is none.
    Failed(ConfigErrorView),
}

/// What loading the configuration from `path` comes to, given what was found
/// there; `dir` is the application's directory.
pub open spec fn load_outcome(
    path: Option<PathView>,
    found: FoundView,
    dir: Option<PathView>,
) -> LoadView {
    match path {
        None => LoadView::Failed(ConfigErrorView::PathUnavailable),
        Some(path) => match found {
            FoundView::Missing => LoadView::Usable(default_config(dir), true),
            FoundView::Unreadable => LoadView::Failed(ConfigErrorView::Unreadable(path)),
            FoundView::Malformed => LoadView::Failed(ConfigErrorView::Malformed(path)),
            FoundView::Read(config) => LoadView::Usable(config, false),
        },
    }
}

impl LoadedConfig {
    /// The configuration to work with, given what came of saving it where that
    /// was asked for. A new configuration that is not saved is not used.
    pub fn settled(self, saved: Result<(), ConfigError>) -> (config: Result<
        AppConfig,
        ConfigError,
    >)
        ensures
            match saved {
                Err(error) if self.must_save => config == Err::<AppConfig, ConfigError>(error),
                _ => config == Ok::<AppConfig, ConfigError>(self.config),
            },
    {
        if self.must_save {
            if let Err(error) = saved {
                return Err(error);
            }
        }
        Ok(self.config)
    }
}

/// The steps that save `config` to `path`: both directories, then the file.
pub open spec fn save_steps(config: ConfigView, path: PathView) -> Seq<FileStepView> {
    seq![
        FileStepView::CreateConfigDir(path),
        FileStepView::CreateDataDir(config.user_data_dir),
        FileStepView::WriteConfig(path),
    ]
}

/// The steps in a vector.
pub open spec fn step_views(steps: Seq<FileStep>) -> Seq<FileStepView> {
    steps.map_values(|step: FileStep| step@)
}

impl AppConfig {
    /// The configuration that a first start makes, with the application's
    /// directory at `dir`.
    pub fn default_in(dir: Option<AppPath>) -> (config: AppConfig)
        ensures
            config@ == default_config(optional_path(dir)),
    {
        let base: AppPath = match dir {
            Some(dir) => dir,
            None => AppPath::at(PathBase::Text(".".to_owned())),
        };
        AppConfig {
            poll_interval_seconds: 8,
            notification_duration_seconds: 8,
            launch_on_startup: false,
            start_minimized_to_tray: true,
            copy_button_enabled: true,
            proton_mail_url: DEFAULT_MAIL_URL.to_owned(),
            user_data_dir: base.child(WEBVIEW_DIR),
        }
    }

    /// The configuration in the file at `path`, given what was found there. A
    /// missing file gives the default configuration, to be saved; `dir` is the
    /// application's directory.
    pub fn load_or_default(path: Option<AppPath>, file: ConfigFile, dir: Option<AppPath>) -> (loaded:
        Result<LoadedConfig, ConfigError>)
        ensures
            match load_outcome(optional_path(path), file@, optional_path(dir)) {
                LoadView::Usable(config, must_save) => loaded matches Ok(l) && l.config@ == config
                    && l.must_save == must_save,
                LoadView::Failed(error) => loaded matches Err(e) && e@ == error,
            },
    {
        match path {
            None => Err(ConfigError::PathUnavailable),
            Some(path) => match file {
                ConfigFile::Missing => Ok(
                    LoadedConfig { config: AppConfig::default_in(dir), must_save: true },
                ),
                ConfigFile::Unreadable => Err(ConfigError::Unreadable(path)),
                ConfigFile::Malformed => Err(ConfigError::Malformed(path)),
                ConfigFile::Read(config) => Ok(LoadedConfig { config, must_save: false }),
            },
        }
    }

    /// The steps that save this configuration to the file at `path`, in the
    /// order in which they are taken; a step that fails ends the attempt.
    pub fn save(&self, path: Option<AppPath>) -> (steps: Result<Vec<FileStep>, ConfigError>)
        ensures
            match path {
                Some(p) => steps matches Ok(s) && step_views(s@) == save_steps(self@, p@),
                None => steps == Err::<Vec<FileStep>, ConfigError>(ConfigError::PathUnavailable),
            },
    {
        let path: AppPath = match path {
            Some(path) => path,
            None => {
                return Err(ConfigError::PathUnavailable);
            },
        };
        let mut steps: Vec<FileStep> = Vec::new();
        steps.push(FileStep::CreateConfigDir(path.clone()));
        steps.push(FileStep::CreateDataDir(self.user_data_dir.clone()));
        let ghost target = path@;
        steps.push(FileStep::WriteConfig(path));
        assert(step_views(steps@) =~= save_steps(self@, target));
        Ok(steps)
    }

    /// The step that makes the directory for the data of the embedded browser.
    pub fn ensure_runtime_dirs(&self) -> (step: FileStep)
        ensures
            step@ == FileStepView::CreateDataDir(self@.user_data_dir),
    {
        FileStep::CreateDataDir(self.user_data_dir.clone())
    }
}

impl Default for AppConfig {
    /// The configuration that a first start makes.
    fn default() -> (config: Self)
        ensures
            exists|base: Option<PathBuf>|
                config@ == default_config(#[trigger] app_dir_below(base)),
    {
        AppConfig::default_in(app_config_dir())
    }
}

/// The step that makes the directory that holds `path`, with all above it. A
/// path that nothing is above needs none, and the step does nothing.
pub fn ensure_parent_dir(path: &AppPath) -> (step: FileStep)
    ensures
        step@ == FileStepView::CreateParentDir(path@),
{
    FileStep::CreateParentDir(path.clone())
}

/// What is found at `path` on a disk on which every file can be read, where
/// `parse` tells the configuration that bytes hold.
pub open spec fn found_on(
    disk: DiskView,
    path: PathView,
    parse: spec_fn(Seq<u8>) -> Option<ConfigView>,
) -> FoundView {
    if disk.files.contains_key(path) {
        match parse(disk.files[path]) {
            Some(config) => FoundView::Read(config),
            None => FoundView::Malformed,
        }
    } else {
        FoundView::Missing
    }
}

/// Saving makes both directories and writes the file last: after all steps the
/// file holds the configuration and no other file has changed; a save that
/// ended before left every file as it was.
pub proof fn saving_writes_the_file_last(
    disk: DiskView,
    config: ConfigView,
    path: PathView,
    payload: Seq<u8>,
    taken: int,
)
    requires
        0 <= taken <= save_steps(config, path).len(),
    ensures
        ({
            let steps = save_steps(config, path);
            let after = disk.after_all(steps.take(taken), payload);
            &&& taken < steps.len() ==> after.files == disk.files
            &&& taken == steps.len() ==> {
                &&& after.files == disk.files.insert(path, payload)
                &&& after.dirs == disk.with_parent(path).dirs.insert(
                    DirView::At(config.user_data_dir),
                )
            }
            &&& after.tops == disk.tops
            &&& disk.dirs.subset_of(after.dirs)
        }),
{
    let steps = save_steps(config, path);
    reveal_with_fuel(DiskView::after_all, 4);
    if taken > 0 {
        assert(steps.take(taken).drop_last() =~= steps.take(taken - 1));
    }
    if taken > 1 {
        assert(steps.take(taken - 1).drop_last() =~= steps.take(taken - 2));
    }
    if taken > 2 {
        assert(steps.take(taken - 2).drop_last() =~= steps.take(taken - 3));
    }
}

/// A configuration that has been saved is what the next start loads, as its
/// bytes tell, and does not have to be saved again.
pub proof fn saved_configuration_is_loaded(
    disk: DiskView,
    config: ConfigView,
    path: PathView,
    payload: Seq<u8>,
    parse: spec_fn(Seq<u8>) -> Option<ConfigView>,
    read: ConfigView,
    dir: Option<PathView>,
)
    requires
        parse(payload) == Some(read),
    ensures
        load_outcome(
            Some(path),
            found_on(disk.after_all(save_steps(config, path), payload), path, parse),
            dir,
        ) == LoadView::Usable(read, false),
{
    let steps = save_steps(config, path);
    saving_writes_the_file_last(disk, config, path, payload, steps.len() as int);
    assert(steps.take(steps.len() as int) =~= steps);
}

/// The first start, which finds no file, uses the default configuration and
/// saves it; the second start finds a file, and loads what its bytes tell.
pub proof fn first_start_creates_the_file(
    disk: DiskView,
    path: PathView,
    payload: Seq<u8>,
    parse: spec_fn(Seq<u8>) -> Option<ConfigView>,
    read: ConfigView,
    dir: Option<PathView>,
)
    requires
        !disk.files.contains_key(path),
        parse(payload) == Some(read),
    ensures
        load_outcome(Some(path), found_on(disk, path, parse), dir) == LoadView::Usable(
            default_config(dir),
            true,
        ),
        load_outcome(
            Some(path),
            found_on(disk.after_all(save_steps(default_config(dir), path), payload), path, parse),
            dir,
        ) == LoadView::Usable(read, false),
{
    saved_configuration_is_loaded(disk, default_config(dir), path, payload, parse, read, dir);
}

/// Making the data directory leaves every file and directory that is there, and
/// making it a second time changes nothing.
pub proof fn making_the_data_directory_keeps_the_rest(
    disk: DiskView,
    config: ConfigView,
    payload: Seq<u8>,
)
    ensures
        ({
            let step = FileStepView::CreateDataDir(config.user_data_dir);
            let after = disk.after(step, payload);
            &&& after.dirs.contains(DirView::At(config.user_data_dir))
            &&& after.files == disk.files
            &&& disk.dirs.subset_of(after.dirs)
            &&& after.after(step, payload) == after
            &&& disk.dirs.contains(DirView::At(config.user_data_dir)) ==> after == disk
        }),
{
    let step = FileStepView::CreateDataDir(config.user_data_dir);
    let after = disk.after(step, payload);
    assert(after.after(step, payload) =~= after);
    if disk.dirs.contains(DirView::At(config.user_data_dir)) {
        assert(after =~= disk);
    }
}

/// Making the directory that holds a path makes that directory and changes
/// nothing else. Where nothing is above the path, nothing is made.
pub proof fn making_the_parent_keeps_the_path(disk: DiskView, path: PathView, payload: Seq<u8>)
    ensures
        ({
            let after = disk.after(FileStepView::CreateParentDir(path), payload);
            &&& disk.tops.contains(path) ==> after == disk
            &&& !disk.tops.contains(path) ==> after.dirs == disk.dirs.insert(
                DirView::Holding(path),
            )
            &&& after.files == disk.files
            &&& after.tops == disk.tops
            &&& after.dirs.contains(DirView::At(path)) == disk.dirs.contains(DirView::At(path))
        }),
{
}

} // verus!
