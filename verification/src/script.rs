//! The vocabulary shared by the tool's two phases: where things live, what
//! the driver is asked to do, what it reports back, and what is announced.
use vstd::prelude::*;
use crate::process::ProcessEntry;

verus! {

/// Environment variable set to "1" while a reboot is pending.
pub const AFTER_REBOOT_VAR: &'static str = "ADSK_NLM_AFTER_REBOOT";

/// Environment variable holding the reboot marker: Unix seconds as decimal text.
pub const REBOOT_TIMESTAMP_VAR: &'static str = "ADSK_NLM_REBOOT_TIMESTAMP";

/// Name of the value under the user's RunOnce key.
pub const RUNONCE_KEY: &'static str = "AdskNLMUpdate";

/// Registry path of the user's RunOnce key.
pub const RUNONCE_PATH: &'static str = "Software\\Microsoft\\Windows\\CurrentVersion\\RunOnce";

/// Registry key holding the user's permanent environment variables.
pub const USER_ENVIRONMENT_KEY: &'static str = "Environment";

/// Process and file name of the licence manager.
pub const NLM_PROCESS: &'static str = "AdskNLM.exe";

/// Name of the installer, looked for beside the tool.
pub const INSTALLER_NAME: &'static str = "AdskLicensing-installer.exe";

/// File written and removed to test for administrator rights.
pub const ADMIN_PROBE_PATH: &'static str =
    "C:\\Program Files (x86)\\Common Files\\Autodesk Shared\\admin_test.tmp";

/// The licensing uninstaller.
pub const UNINSTALLER_PATH: &'static str =
    "C:\\Program Files (x86)\\Common Files\\Autodesk Shared\\AdskLicensing\\uninstall.exe";

/// The licence manager's folder.
pub const NLM_FOLDER: &'static str =
    "C:\\Program Files (x86)\\Common Files\\Autodesk Shared\\Network License Manager";

/// The installed licence manager.
pub const NLM_INSTALLED_PATH: &'static str =
    "C:\\Program Files (x86)\\Common Files\\Autodesk Shared\\Network License Manager\\AdskNLM.exe";

/// Seconds counted down before the reboot.
pub const REBOOT_COUNTDOWN_SECS: u32 = 10;

/// Seconds given to the licence manager to settle after it is started.
pub const NLM_SETTLE_SECS: u32 = 3;

/// Start of the RunOnce command, before the tool's path.
pub const RUNONCE_PREFIX: &'static str =
    "powershell.exe -ExecutionPolicy Bypass -WindowStyle Normal -Command \"Start-Process '";

/// End of the RunOnce command, after the tool's path.
pub const RUNONCE_SUFFIX: &'static str = "' -Verb RunAs\"";

/// The RunOnce command that starts the tool at `exe` elevated.
pub open spec fn runonce_text(exe: Seq<char>) -> Seq<char> {
    RUNONCE_PREFIX@ + exe + RUNONCE_SUFFIX@
}

/// Builds the RunOnce command that restarts the tool at `exe` elevated after logon.
pub fn runonce_command(exe: &str) -> (c: String)
    ensures
        c@ == runonce_text(exe@),
{
    let mut c = String::from_str(RUNONCE_PREFIX);
    c.append(exe);
    c.append(RUNONCE_SUFFIX);
    c
}

/// A file or folder the steps work on; the driver knows its path.
#[derive(Clone, Copy, Debug, PartialEq, Eq, Structural)]
pub enum Target {
    /// `UNINSTALLER_PATH`.
    Uninstaller,
    /// `NLM_FOLDER`.
    NlmFolder,
    /// `INSTALLER_NAME` in the tool's folder.
    Installer,
    /// `NLM_PROCESS` in the tool's folder.
    LocalNlm,
    /// `NLM_INSTALLED_PATH`.
    SystemNlm,
}

/// What the driver is asked to do next.
#[derive(Clone, Debug, PartialEq, Eq)]
pub enum Op {
    /// Stop every process named `NLM_PROCESS`; answered by `Done`.
    StopLicenceManager,
    /// Whether the target exists; answered by `Exists`.
    CheckExists(Target),
    /// Run the target and wait for it; answered by `Exited` or `Failed`.
    RunProgram(Target),
    /// Start the target in the background; answered by `Spawned` or `Failed`.
    Spawn(Target),
    /// Remove the folder and all it holds; answered by `Done` or `Failed`.
    RemoveDirAll(Target),
    /// Create the folder and its parents; answered by `Done` or `Failed`.
    CreateDirAll(Target),
    /// Remove each entry of the folder; answered by `Removed`.
    ClearEntries(Target),
    /// Read the `TEMP` variable; answered by `TempVar`.
    ReadTempVar,
    /// Remove each entry of this folder; answered by `Removed`.
    ClearFolder(String),
    /// Set `AFTER_REBOOT_VAR` to "1" for the process and permanently; answered by `Done`.
    SetAfterRebootFlag,
    /// Read the wall clock; answered by `Clock`.
    ReadClock,
    /// Set `REBOOT_TIMESTAMP_VAR` to this text for the process and permanently; answered by `Done`.
    SetTimestamp(String),
    /// Find the tool's own path; answered by `Executable`.
    LocateExecutable,
    /// Store this command under `RUNONCE_KEY`; answered by `Done`.
    RegisterRunOnce(String),
    /// Show the seconds left before the reboot, then wait one second; answered by `Done`.
    Tick(u32),
    /// Ask the system to reboot now; answered by `Done` or `Failed`.
    Reboot,
    /// Remove both variables, for the process and permanently, and the RunOnce entry; answered by `Done`.
    CleanupFlags,
    /// Wait this many seconds; answered by `Done`.
    Pause(u32),
    /// List the running processes; answered by `Processes`.
    Snapshot,
    /// Wait for the user to press Enter; answered by `Done`.
    WaitForEnter,
    /// End the program with this exit code.
    Exit(u8),
}

/// What the driver reports back after an `Op`.
#[derive(Clone, Debug, PartialEq, Eq)]
pub enum Event {
    Done,
    Exists(bool),
    /// A program ran to its end: its exit code if it had one, and whether it succeeded.
    Exited { code: Option<i32>, success: bool },
    /// The operation failed, with the error's text.
    Failed(String),
    /// A program was started with this process id.
    Spawned(u32),
    /// One outcome per folder entry: whether it was removed.
    Removed(Vec<bool>),
    TempVar(Option<String>),
    /// Unix seconds, or `None` when the clock stands before the epoch.
    Clock(Option<u64>),
    /// The tool's path, as text, if it could be found.
    Executable(Option<String>),
    Processes(Vec<ProcessEntry>),
}

/// What is announced about the outcome of a step.
#[derive(Clone, Debug, PartialEq, Eq)]
pub enum Note {
    UninstallerMissing,
    UninstallerExited { code: i32, success: bool },
    UninstallerFailedToStart(String),
    FolderRemoved,
    FolderRemoveFailed(String),
    FolderRecreated,
    FolderMissing,
    FolderCreated,
    FolderCreateFailed(String),
    /// After a failed removal, this many entries of the folder were removed.
    FolderCleared { removed: usize },
    TempMissing,
    TempCleared { deleted: usize, errors: usize },
    /// Some temporary files could not be removed.
    TempBusy,
    /// Both variables are set; the marker holds `timestamp`.
    FlagsSet { timestamp: u64 },
    RunOnceRegistered,
    ExecutableUnknown,
    RebootFailed(String),
    InstallerMissing,
    InstallerExited { code: i32, success: bool },
    InstallerFailedToStart(String),
    /// The installer failed, yet the licence manager is installed.
    InstalledDespiteError,
    LocalNlmMissing,
    NlmStarted(u32),
    NlmFailedToStart(String),
    NlmRunning,
    NlmExitedEarly,
    SystemNlmFound,
    SystemNlmStarted(u32),
    SystemNlmFailedToStart(String),
    AllDone,
}

/// Announcements to make, then the next operation.
#[derive(Clone, Debug, PartialEq, Eq)]
pub struct Directive {
    pub notes: Vec<Note>,
    pub op: Op,
}

/// The directive holds exactly these notes and this operation.
pub open spec fn directs(d: Directive, notes: Seq<Note>, op: Op) -> bool {
    d.notes@ == notes && d.op == op
}

/// The exit code of a finished program, -1 when it has none.
pub open spec fn exit_code_or_minus_one(code: Option<i32>) -> i32 {
    match code {
        Some(c) => c,
        None => -1i32,
    }
}

/// The exit code to report for a finished program, -1 when it has none.
pub fn exit_code_of(code: Option<i32>) -> (c: i32)
    ensures
        c == exit_code_or_minus_one(code),
{
    match code {
        Some(c) => c,
        None => -1,
    }
}

} // verus!
