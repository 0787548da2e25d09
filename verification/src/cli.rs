//! The commands of the `v8q` command line, as plain values. The program
//! parses its arguments into these.
use vstd::prelude::*;

verus! {

/// The parsed command line.
#[derive(Debug, Clone)]
pub struct Cli {
    pub command: Command,
}

/// The subcommands.
#[derive(Debug, Clone)]
pub enum Command {
    /// Show a short first-run guide.
    Welcome,
    /// Start recording the replay buffer.
    Start {
        foreground: bool,
        target: Option<String>,
        output: Option<String>,
        geometry: Option<String>,
    },
    /// Stop the recorder.
    Stop,
    /// Show recorder and buffer status.
    Status,
    /// Check the local setup.
    Doctor { json: bool, verbose: bool },
    /// Save the replay as a clip.
    Save {
        name: Option<String>,
        duration: Option<u64>,
        open: bool,
        no_notify: bool,
        json: bool,
    },
    /// Remove buffer segments, or logs.
    Clean { command: Option<CleanCommand> },
    /// Open the clips folder.
    OpenFolder,
    /// Show recent backend logs.
    Logs { follow: bool, backend: Option<String>, lines: usize },
    /// Config file helpers.
    Config { command: ConfigCommand },
    /// List saved clips.
    Clips {
        latest: bool,
        open_latest: bool,
        delete_latest: bool,
        json: bool,
        limit: Option<usize>,
        sort: ClipSort,
    },
    /// Manage one clip.
    Clip { command: ClipCommand },
    /// Setup helpers.
    Setup { command: Option<SetupCommand> },
    /// Recording presets.
    Preset { command: PresetCommand },
    /// Beginner or advanced output.
    Mode { command: ModeCommand },
    /// List Hyprland windows that can be captured.
    Windows { json: bool },
    /// Manage the capture window.
    Window { command: WindowCommand },
    /// User systemd service helpers.
    Service { command: ServiceCommand },
    /// Debugging helpers.
    Debug { command: DebugCommand },
    /// Audio helpers.
    Audio { command: AudioCommand },
}

/// The order in which clips are listed.
#[derive(Debug, Clone, Copy, PartialEq, Eq, Structural)]
pub enum ClipSort {
    Newest,
    Oldest,
}

/// `v8q clean` subcommands.
#[derive(Debug, Clone)]
pub enum CleanCommand {
    /// Clean log files.
    Logs { older_than: Option<String> },
}

/// `v8q config` subcommands.
#[derive(Debug, Clone)]
pub enum ConfigCommand {
    Path,
    Show { resolved: bool },
    Validate,
    Edit,
    Init { force: bool },
    Reset,
    Migrate { write: bool },
}

/// `v8q clip` subcommands.
#[derive(Debug, Clone)]
pub enum ClipCommand {
    Info { path: String },
    Open { path: String },
    Delete { path: String, force_external: bool },
    Rename { path: String, new_name: String, overwrite: bool },
}

/// `v8q setup` subcommands.
#[derive(Debug, Clone)]
pub enum SetupCommand {
    Hyprland { write: bool },
    Shell { write: bool },
}

/// `v8q preset` subcommands.
#[derive(Debug, Clone)]
pub enum PresetCommand {
    List,
    Explain { name: String },
    Apply { name: String, write: bool },
}

/// `v8q mode` subcommands.
#[derive(Debug, Clone, Copy, PartialEq, Eq, Structural)]
pub enum ModeCommand {
    Beginner,
    Advanced,
    Show,
}

/// `v8q window` subcommands.
#[derive(Debug, Clone)]
pub enum WindowCommand {
    Select {
        title: Option<String>,
        app_id: Option<String>,
        class: Option<String>,
        follow: bool,
    },
    Clear,
    Show,
}

/// `v8q service` subcommands.
#[derive(Debug, Clone, Copy, PartialEq, Eq, Structural)]
pub enum ServiceCommand {
    Install,
    Uninstall,
    Start,
    Stop,
    Status,
    Enable,
    Disable,
}

/// `v8q debug` subcommands.
#[derive(Debug, Clone)]
pub enum DebugCommand {
    Info,
    WlScreenrec { test_run: Option<u64> },
    Paths,
    Window,
    Audio,
}

/// `v8q audio` subcommands.
#[derive(Debug, Clone, Copy, PartialEq, Eq, Structural)]
pub enum AudioCommand {
    Sources,
}

} // verus!
