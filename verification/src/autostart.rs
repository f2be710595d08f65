//! Starting the application when the user signs in.
//!
//! On Windows this is a value of the `Run` key in the registry, which other
//! code reads and writes; here stands what to write and what the outcome means.
//! Elsewhere there is nothing to do.

use crate::text::same_text;
use vstd::prelude::*;

verus! {

/// The argument that tells the application that it was started at sign-in.
pub const AUTOSTART_FLAG: &'static str = "--autostart";

/// The name of the registry value.
pub const APP_RUN_KEY_VALUE: &'static str = "protoncode";

/// The path of the registry key, below the key of the current user.
pub const RUN_KEY_PATH: &'static str = r"Software\Microsoft\Windows\CurrentVersion\Run";

/// The kind of system that the application runs on.
#[derive(Debug, Clone, Copy, PartialEq, Eq, Structural)]
pub enum Platform {
    /// Windows.
    Windows,
    /// Any other system.
    Other,
}

/// The arguments tell that the application was started at sign-in.
pub open spec fn tells_of_sign_in(args: Seq<Seq<char>>) -> bool {
    args.contains(AUTOSTART_FLAG@)
}

/// The arguments as texts.
pub open spec fn argument_texts(args: Seq<&str>) -> Seq<Seq<char>> {
    args.map_values(|arg: &str| arg@)
}

/// Whether the arguments tell that the application was started at sign-in.
pub fn has_autostart_flag(args: &[&str]) -> (found: bool)
    ensures
        found == exists|i: int| 0 <= i < args@.len() && #[trigger] args@[i]@ == AUTOSTART_FLAG@,
        found == tells_of_sign_in(argument_texts(args@)),
{
    let ghost texts = argument_texts(args@);
    let mut at: usize = 0;
    while at < args.len()
        invariant
            at <= args@.len(),
            texts == argument_texts(args@),
            forall|i: int| 0 <= i < at ==> #[trigger] args@[i]@ != AUTOSTART_FLAG@,
        decreases args@.len() - at,
    {
        if same_text(args[at], AUTOSTART_FLAG) {
            assert(args@[at as int]@ == AUTOSTART_FLAG@);
            assert(texts[at as int] == AUTOSTART_FLAG@);
            return true;
        }
        at = at + 1;
    }
    assert forall|i: int| 0 <= i < texts.len() implies texts[i] != AUTOSTART_FLAG@ by {
        assert(args@[i]@ == texts[i]);
    }
    false
}

/// The command that starts the executable at `path` at sign-in.
pub open spec fn autostart_command(path: Seq<char>) -> Seq<char> {
    seq!['"'] + path + seq!['"', ' '] + AUTOSTART_FLAG@
}

/// The command that starts the executable at `executable_path`, given as text,
/// at sign-in.
pub fn format_autostart_command(executable_path: &str) -> (command: String)
    ensures
        command@ == autostart_command(executable_path@),
{
    let mut command: String = String::new();
    command.push('"');
    command.append(executable_path);
    command.push('"');
    command.push(' ');
    command.append(AUTOSTART_FLAG);
    assert(command@ =~= autostart_command(executable_path@));
    command
}

/// What to do so that the application starts at sign-in, or does not.
#[derive(Debug, Clone, Copy, PartialEq, Eq, Structural)]
pub enum AutostartAction {
    /// Nothing.
    Nothing,
    /// Write the registry value.
    Enable,
    /// Remove the registry value.
    Disable,
}

/// What to do so that the application starts at sign-in exactly if `enabled`.
pub fn sync_launch_on_startup(platform: Platform, enabled: bool) -> (action: AutostartAction)
    ensures
        action == match platform {
            Platform::Windows => if enabled {
                AutostartAction::Enable
            } else {
                AutostartAction::Disable
            },
            Platform::Other => AutostartAction::Nothing,
        },
{
    match platform {
        Platform::Windows => if enabled {
            AutostartAction::Enable
        } else {
            AutostartAction::Disable
        },
        Platform::Other => AutostartAction::Nothing,
    }
}

/// Why starting at sign-in could not be looked up or changed.
#[derive(Debug, Clone, Copy, PartialEq, Eq, Structural)]
pub enum AutostartError {
    /// The key could not be opened.
    OpenKey,
    /// The value could not be read.
    ReadValue,
    /// It is not known where the executable is.
    ExecutablePath,
    /// The key could not be opened or made.
    CreateKey,
    /// The value could not be written.
    WriteValue,
    /// The key could not be opened for removing the value.
    OpenKeyForRemoval,
    /// The value could not be removed.
    RemoveValue,
}

impl AutostartError {
    /// The error in words.
    pub open spec fn text(self) -> Seq<char> {
        match self {
            AutostartError::OpenKey => "failed to open Windows Run key"@,
            AutostartError::ReadValue => "failed to read protoncode run key value"@,
            AutostartError::ExecutablePath => "failed to resolve current executable path"@,
            AutostartError::CreateKey => "failed to open or create Windows Run key"@,
            AutostartError::WriteValue => "failed to write protoncode run key value"@,
            AutostartError::OpenKeyForRemoval => "failed to open Windows Run key for removal"@,
            AutostartError::RemoveValue => "failed to remove protoncode run key value"@,
        }
    }

    /// The error in words.
    pub fn message(&self) -> (message: &'static str)
        ensures
            message@ == self.text(),
    {
        match self {
            AutostartError::OpenKey => "failed to open Windows Run key",
            AutostartError::ReadValue => "failed to read protoncode run key value",
            AutostartError::ExecutablePath => "failed to resolve current executable path",
            AutostartError::CreateKey => "failed to open or create Windows Run key",
            AutostartError::WriteValue => "failed to write protoncode run key value",
            AutostartError::OpenKeyForRemoval => "failed to open Windows Run key for removal",
            AutostartError::RemoveValue => "failed to remove protoncode run key value",
        }
    }
}

/// What came of reading the registry value.
#[derive(Debug, PartialEq, Eq)]
pub enum RunValueRead {
    /// There is no key.
    KeyMissing,
    /// The key could not be opened.
    KeyFailed,
    /// The key has no such value.
    ValueMissing,
    /// The value could not be read.
    ValueFailed,
    /// The value is this.
    Value(String),
}

/// The command that is registered to start at sign-in, given what came of
/// reading it.
pub open spec fn registration_in(platform: Platform, read: RunValueRead) -> Result<
    Option<String>,
    AutostartError,
> {
    match (platform, read) {
        (Platform::Other, _) => Ok(None),
        (Platform::Windows, RunValueRead::KeyMissing) => Ok(None),
        (Platform::Windows, RunValueRead::ValueMissing) => Ok(None),
        (Platform::Windows, RunValueRead::KeyFailed) => Err(AutostartError::OpenKey),
        (Platform::Windows, RunValueRead::ValueFailed) => Err(AutostartError::ReadValue),
        (Platform::Windows, RunValueRead::Value(command)) => Ok(Some(command)),
    }
}

/// Whether the application starts at sign-in, given what came of reading the
/// registry value.
pub open spec fn enabled_in(platform: Platform, read: RunValueRead) -> Result<
    bool,
    AutostartError,
> {
    match registration_in(platform, read) {
        Ok(command) => Ok(command is Some),
        Err(error) => Err(error),
    }
}

/// The command that is registered to start at sign-in, given what came of
/// reading it.
pub fn current_registration(platform: Platform, read: RunValueRead) -> (registered: Result<
    Option<String>,
    AutostartError,
>)
    ensures
        registered == match (platform, read) {
            (Platform::Other, _) => Ok::<Option<String>, AutostartError>(None),
            (Platform::Windows, RunValueRead::KeyMissing) => Ok(None),
            (Platform::Windows, RunValueRead::ValueMissing) => Ok(None),
            (Platform::Windows, RunValueRead::KeyFailed) => Err(AutostartError::OpenKey),
            (Platform::Windows, RunValueRead::ValueFailed) => Err(AutostartError::ReadValue),
            (Platform::Windows, RunValueRead::Value(command)) => Ok(Some(command)),
        },
        registered == registration_in(platform, read),
{
    match platform {
        Platform::Other => Ok(None),
        Platform::Windows => match read {
            RunValueRead::KeyMissing => Ok(None),
            RunValueRead::KeyFailed => Err(AutostartError::OpenKey),
            RunValueRead::ValueMissing => Ok(None),
            RunValueRead::ValueFailed => Err(AutostartError::ReadValue),
            RunValueRead::Value(command) => Ok(Some(command)),
        },
    }
}

/// Whether the application starts at sign-in, given what came of reading the
/// registry value: it does where there is one, whatever it says.
pub fn is_enabled(platform: Platform, read: RunValueRead) -> (enabled: Result<
    bool,
    AutostartError,
>)
    ensures
        enabled == match (platform, read) {
            (Platform::Other, _) => Ok::<bool, AutostartError>(false),
            (Platform::Windows, RunValueRead::KeyMissing) => Ok(false),
            (Platform::Windows, RunValueRead::ValueMissing) => Ok(false),
            (Platform::Windows, RunValueRead::KeyFailed) => Err(AutostartError::OpenKey),
            (Platform::Windows, RunValueRead::ValueFailed) => Err(AutostartError::ReadValue),
            (Platform::Windows, RunValueRead::Value(_)) => Ok(true),
        },
        enabled == enabled_in(platform, read),
{
    match current_registration(platform, read) {
        Ok(Some(_)) => Ok(true),
        Ok(None) => Ok(false),
        Err(error) => Err(error),
    }
}

/// The registry value to write, given the path of the executable as text, if
/// that is known.
pub fn enable(executable_path: Option<&str>) -> (command: Result<String, AutostartError>)
    ensures
        match executable_path {
            Some(path) => command matches Ok(c) && c@ == autostart_command(path@),
            None => command == Err::<String, AutostartError>(AutostartError::ExecutablePath),
        },
{
    match executable_path {
        Some(path) => Ok(format_autostart_command(path)),
        None => Err(AutostartError::ExecutablePath),
    }
}

/// What came of writing the registry value.
#[derive(Debug, Clone, Copy, PartialEq, Eq, Structural)]
pub enum RunValueWritten {
    /// It is written.
    Done,
    /// The key could not be opened or made.
    KeyFailed,
    /// The value could not be written.
    ValueFailed,
}

/// Whether the application now starts at sign-in.
pub fn enabled(written: RunValueWritten) -> (result: Result<(), AutostartError>)
    ensures
        result == match written {
            RunValueWritten::Done => Ok::<(), AutostartError>(()),
            RunValueWritten::KeyFailed => Err(AutostartError::CreateKey),
            RunValueWritten::ValueFailed => Err(AutostartError::WriteValue),
        },
{
    match written {
        RunValueWritten::Done => Ok(()),
        RunValueWritten::KeyFailed => Err(AutostartError::CreateKey),
        RunValueWritten::ValueFailed => Err(AutostartError::WriteValue),
    }
}

/// What came of removing the registry value.
#[derive(Debug, Clone, Copy, PartialEq, Eq, Structural)]
pub enum RunValueRemoved {
    /// It is removed.
    Done,
    /// There is no key.
    KeyMissing,
    /// The key could not be opened.
    KeyFailed,
    /// The key has no such value.
    ValueMissing,
    /// The value could not be removed.
    ValueFailed,
}

/// Whether the application now no longer starts at sign-in: it does not where
/// there was no value to begin with.
pub fn disable(removed: RunValueRemoved) -> (result: Result<(), AutostartError>)
    ensures
        result == match removed {
            RunValueRemoved::Done => Ok::<(), AutostartError>(()),
            RunValueRemoved::KeyMissing => Ok(()),
            RunValueRemoved::ValueMissing => Ok(()),
            RunValueRemoved::KeyFailed => Err(AutostartError::OpenKeyForRemoval),
            RunValueRemoved::ValueFailed => Err(AutostartError::RemoveValue),
        },
{
    match removed {
        RunValueRemoved::Done => Ok(()),
        RunValueRemoved::KeyMissing => Ok(()),
        RunValueRemoved::KeyFailed => Err(AutostartError::OpenKeyForRemoval),
        RunValueRemoved::ValueMissing => Ok(()),
        RunValueRemoved::ValueFailed => Err(AutostartError::RemoveValue),
    }
}

/// The registered command quotes the path of the executable and ends with the
/// argument by which the application recognizes that it was started at sign-in.
pub proof fn command_quotes_path_and_ends_with_flag(path: Seq<char>)
    ensures
        autostart_command(path).subrange(0, (path.len() + 2) as int) == seq!['"'] + path + seq!['"'],
        autostart_command(path).subrange(
            (path.len() + 3) as int,
            autostart_command(path).len() as int,
        ) == AUTOSTART_FLAG@,
        autostart_command(path)[(path.len() + 2) as int] == ' ',
{
    let command = autostart_command(path);
    assert(command.subrange(0, (path.len() + 2) as int) =~= seq!['"'] + path + seq!['"']);
    assert(command.subrange((path.len() + 3) as int, command.len() as int) =~= AUTOSTART_FLAG@);
}

/// Two executables never share a command.
pub proof fn commands_tell_paths_apart(first: Seq<char>, second: Seq<char>)
    requires
        autostart_command(first) == autostart_command(second),
    ensures
        first == second,
{
    let command = autostart_command(first);
    assert(command.len() == first.len() + 3 + AUTOSTART_FLAG@.len());
    assert(autostart_command(second).len() == second.len() + 3 + AUTOSTART_FLAG@.len());
    assert(first =~= command.subrange(1, (first.len() + 1) as int));
    assert(second =~= autostart_command(second).subrange(1, (second.len() + 1) as int));
}

/// The flag counts wherever it stands among the arguments, on its own and in full;
/// the registered command carries it, so that a start at sign-in is recognized.
pub proof fn flag_counts_anywhere(first: Seq<Seq<char>>, second: Seq<Seq<char>>, arg: Seq<char>)
    ensures
        tells_of_sign_in(first + second) <==> tells_of_sign_in(first) || tells_of_sign_in(second),
        tells_of_sign_in(seq![arg]) <==> arg == "--autostart"@,
        !tells_of_sign_in(Seq::empty()),
{
    let all = first + second;
    if first.contains(AUTOSTART_FLAG@) {
        let i = choose|i: int| 0 <= i < first.len() && first[i] == AUTOSTART_FLAG@;
        assert(all[i] == AUTOSTART_FLAG@);
    }
    if second.contains(AUTOSTART_FLAG@) {
        let i = choose|i: int| 0 <= i < second.len() && second[i] == AUTOSTART_FLAG@;
        assert(all[first.len() + i] == AUTOSTART_FLAG@);
    }
    if all.contains(AUTOSTART_FLAG@) {
        let i = choose|i: int| 0 <= i < all.len() && all[i] == AUTOSTART_FLAG@;
        if i < first.len() {
            assert(first[i] == AUTOSTART_FLAG@);
        } else {
            assert(second[i - first.len()] == AUTOSTART_FLAG@);
        }
    }
    assert(seq![arg][0] == arg);
}

/// On Windows the application starts at sign-in exactly if a command is
/// registered, and the command is the one that was written; that there is none is
/// no error, but a key or value that cannot be read is. Elsewhere nothing is ever
/// registered.
pub proof fn registered_command_is_read_back(read: RunValueRead, command: String)
    ensures
        registration_in(Platform::Windows, RunValueRead::Value(command)) == Ok::<
            Option<String>,
            AutostartError,
        >(Some(command)),
        enabled_in(Platform::Windows, RunValueRead::Value(command)) == Ok::<bool, AutostartError>(
            true,
        ),
        read is KeyMissing || read is ValueMissing ==> registration_in(Platform::Windows, read)
            == Ok::<Option<String>, AutostartError>(None) && enabled_in(Platform::Windows, read)
            == Ok::<bool, AutostartError>(false),
        read is KeyFailed ==> registration_in(Platform::Windows, read) == Err::<
            Option<String>,
            AutostartError,
        >(AutostartError::OpenKey) && enabled_in(Platform::Windows, read) == Err::<
            bool,
            AutostartError,
        >(AutostartError::OpenKey),
        read is ValueFailed ==> registration_in(Platform::Windows, read) == Err::<
            Option<String>,
            AutostartError,
        >(AutostartError::ReadValue) && enabled_in(Platform::Windows, read) == Err::<
            bool,
            AutostartError,
        >(AutostartError::ReadValue),
        registration_in(Platform::Other, read) == Ok::<Option<String>, AutostartError>(None),
        enabled_in(Platform::Other, read) == Ok::<bool, AutostartError>(false),
{
}

} // verus!
