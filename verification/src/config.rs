//! The settings record and the decisions of its bootstrap.

use crate::path::{entry_path, join};
use crate::text::{lowercased, to_lowercase, trim, trimmed};
use vstd::prelude::*;
use vstd::string::*;

verus! {

/// The settings every operation works with.
#[derive(Clone, Debug, PartialEq, Eq)]
pub struct Config {
    /// Directory that holds the note files.
    pub notes_dir: String,
    /// Command that opens a note for editing.
    pub editor: String,
}

/// A `Config` as text.
pub struct ConfigView {
    pub notes_dir: Seq<char>,
    pub editor: Seq<char>,
}

impl View for Config {
    type V = ConfigView;

    open spec fn view(&self) -> ConfigView {
        ConfigView { notes_dir: self.notes_dir@, editor: self.editor@ }
    }
}

/// The directory under `home` that holds the settings.
pub open spec fn config_dir_of(home: Seq<char>) -> Seq<char> {
    entry_path(home, ".notes_cli"@)
}

/// The file under `home` that holds the settings record.
pub open spec fn config_file_of(home: Seq<char>) -> Seq<char> {
    entry_path(config_dir_of(home), "config.toml"@)
}

/// The settings of a first run for the home directory `home`.
pub open spec fn default_settings(home: Seq<char>) -> ConfigView {
    ConfigView { notes_dir: entry_path(config_dir_of(home), "notes"@), editor: "nano"@ }
}

/// The directory under `home` that holds the settings.
pub fn config_dir(home: &str) -> (dir: String)
    ensures
        dir@ == config_dir_of(home@),
{
    join(home, ".notes_cli")
}

/// The file under `home` that holds the settings record.
pub fn config_file(home: &str) -> (file: String)
    ensures
        file@ == config_file_of(home@),
{
    let dir = config_dir(home);
    join(dir.as_str(), "config.toml")
}

/// The settings of a first run: notes under the settings directory, `nano`
/// as the editor.
pub fn default_config(home: &str) -> (config: Config)
    ensures
        config@ == default_settings(home@),
{
    let dir = config_dir(home);
    Config { notes_dir: join(dir.as_str(), "notes"), editor: String::from_str("nano") }
}

/// What the caller found at the place of the settings file.
#[derive(Clone, Debug, PartialEq, Eq)]
pub enum ConfigFile {
    /// No file is there.
    Missing,
    /// A file is there and its record parsed into these settings.
    Parsed { config: Config },
    /// A file is there and its record did not parse; `error` is the parser's
    /// message.
    Invalid { error: String },
}

/// A `ConfigFile` as text.
pub enum ConfigFileView {
    Missing,
    Parsed { config: ConfigView },
    Invalid { error: Seq<char> },
}

impl View for ConfigFile {
    type V = ConfigFileView;

    open spec fn view(&self) -> ConfigFileView {
        match self {
            ConfigFile::Missing => ConfigFileView::Missing,
            ConfigFile::Parsed { config } => ConfigFileView::Parsed { config: config@ },
            ConfigFile::Invalid { error } => ConfigFileView::Invalid { error: error@ },
        }
    }
}

/// What the bootstrap asks of its caller.
#[derive(Clone, Debug, PartialEq, Eq)]
pub enum Bootstrap {
    /// First run. Create the directory `dir`, write the record of `config`
    /// to `file`, create the directory `config.notes_dir`, then work with
    /// `config`. A failure of any of these is fatal.
    Initialize { dir: String, file: String, config: Config },
    /// Work with the settings that the file holds.
    UseExisting { config: Config },
    /// The record is unusable. Print `report` on the error stream and
    /// `prompt` on the output stream, read one line of input and hand it to
    /// `recover_config`.
    Ask { report: String, prompt: String },
}

/// A `Bootstrap` as text.
pub enum BootstrapView {
    Initialize { dir: Seq<char>, file: Seq<char>, config: ConfigView },
    UseExisting { config: ConfigView },
    Ask { report: Seq<char>, prompt: Seq<char> },
}

impl View for Bootstrap {
    type V = BootstrapView;

    open spec fn view(&self) -> BootstrapView {
        match self {
            Bootstrap::Initialize { dir, file, config } => BootstrapView::Initialize {
                dir: dir@,
                file: file@,
                config: config@,
            },
            Bootstrap::UseExisting { config } => BootstrapView::UseExisting { config: config@ },
            Bootstrap::Ask { report, prompt } => BootstrapView::Ask {
                report: report@,
                prompt: prompt@,
            },
        }
    }
}

/// The step that follows from what stands at the place of the settings file
/// under `home`.
pub open spec fn bootstrap_of(home: Seq<char>, found: ConfigFileView) -> BootstrapView {
    match found {
        ConfigFileView::Missing => BootstrapView::Initialize {
            dir: config_dir_of(home),
            file: config_file_of(home),
            config: default_settings(home),
        },
        ConfigFileView::Parsed { config } => BootstrapView::UseExisting { config },
        ConfigFileView::Invalid { error } => BootstrapView::Ask {
            report: "Error loading nn config: "@ + error,
            prompt: "Continue with default config? [y/n]"@,
        },
    }
}

/// Decides how the program gets its settings. A missing file makes this a
/// first run, which persists the defaults; a record that parsed is used as it
/// is; one that did not parse is reported, and the user is asked once whether
/// to go on with the defaults.
pub fn load_or_init_config(home: &str, found: ConfigFile) -> (next: Bootstrap)
    ensures
        next@ == bootstrap_of(home@, found@),
{
    match found {
        ConfigFile::Missing => Bootstrap::Initialize {
            dir: config_dir(home),
            file: config_file(home),
            config: default_config(home),
        },
        ConfigFile::Parsed { config } => Bootstrap::UseExisting { config },
        ConfigFile::Invalid { error } => {
            let mut report = String::from_str("Error loading nn config: ");
            report.append(error.as_str());
            Bootstrap::Ask {
                report,
                prompt: String::from_str("Continue with default config? [y/n]"),
            }
        },
    }
}

/// How the program goes on after an unusable record.
#[derive(Clone, Debug, PartialEq, Eq)]
pub enum Recovery {
    /// Work with the defaults, in memory only: nothing is written.
    UseDefaults { config: Config },
    /// Leave the process with the exit status `status`.
    Abort { status: i32 },
}

/// A `Recovery` as text.
pub enum RecoveryView {
    UseDefaults { config: ConfigView },
    Abort { status: i32 },
}

impl View for Recovery {
    type V = RecoveryView;

    open spec fn view(&self) -> RecoveryView {
        match self {
            Recovery::UseDefaults { config } => RecoveryView::UseDefaults { config: config@ },
            Recovery::Abort { status } => RecoveryView::Abort { status: *status },
        }
    }
}

/// The answer `answer` agrees to go on with the defaults: without the
/// whitespace around it and in lowercase it reads `y`.
pub open spec fn accepts_defaults(answer: Seq<char>) -> bool {
    lowercased(trimmed(answer)) == "y"@
}

/// The way on after an unusable record, given the user's answer.
pub open spec fn recovery_of(home: Seq<char>, answer: Seq<char>) -> RecoveryView {
    if accepts_defaults(answer) {
        RecoveryView::UseDefaults { config: default_settings(home) }
    } else {
        RecoveryView::Abort { status: 1 }
    }
}

/// Tells whether an answer that is already trimmed and in lowercase is the
/// one that agrees.
pub fn is_yes(normalized: &str) -> (yes: bool)
    ensures
        yes == (normalized@ == "y"@),
{
    String::from_str(normalized) == String::from_str("y")
}

/// Tells whether the line that the user typed agrees to go on with the
/// defaults.
pub fn confirms_defaults(answer: &str) -> (yes: bool)
    ensures
        yes == accepts_defaults(answer@),
{
    let lowered = to_lowercase(trim(answer));
    is_yes(lowered.as_str())
}

/// Decides how the program goes on after an unusable record: with the
/// defaults where the user agreed, and otherwise not at all.
pub fn recover_config(home: &str, answer: &str) -> (way: Recovery)
    ensures
        way@ == recovery_of(home@, answer@),
{
    if confirms_defaults(answer) {
        Recovery::UseDefaults { config: default_config(home) }
    } else {
        Recovery::Abort { status: 1 }
    }
}

} // verus!
