use vstd::prelude::*;

verus! {

/// Which output streams of a spawned process are captured.
#[derive(Debug, Clone, Copy, PartialEq, Eq, Structural)]
pub enum Capture {
    Nothing,
    Stdout,
    Stderr,
    Both,
}

/// What a finished process left behind.
#[derive(Debug, Clone)]
pub struct ProcessOutput {
    /// The exit code, if the process exited normally.
    pub exit_code: Option<i32>,
    pub stdout: Vec<u8>,
    pub stderr: Vec<u8>,
}

/// Failure of a capability call.
#[derive(Debug, Clone)]
pub enum IoError {
    /// The path cannot be written in the sandbox's path encoding.
    InvalidPath,
    NotFound,
    PermissionDenied,
    Other(String),
}

/// An icon: the name of a themed icon, or literal text used as a glyph.
#[derive(Debug, Clone)]
pub enum Icon {
    Name(String),
    Text(String),
}

/// How a frontend should lay out a list.
#[derive(Debug, Clone, Copy, PartialEq, Eq, Structural)]
pub enum ListStyle {
    Rows,
    Grid,
    GridWithColumns(u32),
}

/// An item as a plugin describes it.
#[derive(Debug, Clone)]
pub struct ListItem {
    /// Identifier chosen by the plugin; only that plugin interprets it.
    pub id: u64,
    pub title: String,
    pub description: String,
    /// Text used only for ranking, never shown.
    pub metadata: String,
    pub icon: Option<Icon>,
}

/// Privileged work a plugin asks the host to do on its behalf.
#[derive(Debug, Clone)]
pub enum DeferredAction {
    Spawn { cmd: String, args: Vec<String>, capture: Capture },
    ConfigDir,
    DataDir,
    ReadDir(String),
    ReadFile(String),
}

/// The outcome of a [`DeferredAction`], handed back to the plugin.
#[derive(Debug)]
pub enum DeferredResult {
    ProcessOutput(Result<ProcessOutput, IoError>),
    /// A base directory of the host.
    Path(String),
    DirEntries(Result<Vec<String>, IoError>),
    FileContents(Result<Vec<u8>, IoError>),
}

/// What a plugin answers to a query.
#[derive(Debug, Clone)]
pub enum QueryResult {
    /// The final list of items.
    Immediate { items: Vec<ListItem>, style: Option<ListStyle> },
    /// Work the host must do before the plugin can finish.
    Deferred(DeferredAction),
}

/// An effect a plugin asks for when one of its items is activated.
#[derive(Debug, Clone)]
pub enum PluginAction {
    Close,
    RunCommand(String, Vec<String>),
    RunCommandString(String),
    Copy(String),
}

/// Text of the query box with its selected range.
#[derive(Debug, Clone)]
pub struct Input {
    pub contents: String,
    /// Start of the selected range.
    pub selection_start: u16,
    /// End of the selected range.
    pub selection_end: u16,
}

/// A key with its modifiers.
#[derive(Debug, Clone, Copy, PartialEq, Eq, Structural)]
pub struct Hotkey {
    pub key: char,
    pub ctrl: bool,
    pub alt: bool,
    pub shift: bool,
    pub meta: bool,
}

/// One call into a plugin's sandbox: the only entry points it exposes.
#[derive(Debug)]
pub enum SandboxCall {
    Query(String),
    /// Resumes a query after the host did the work the plugin deferred.
    HandleDeferred(String, DeferredResult),
    Activate(u64),
    AltActivate(u64),
    HotkeyActivate(u64, Hotkey),
    Complete(u64),
}

} // verus!
