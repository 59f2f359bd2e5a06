//! Installing the engine and its model on demand, as a machine that decides
//! the next action from each observed event; the caller runs the commands.
use vstd::prelude::*;
use vstd::string::*;

verus! {

/// Name of the model the application needs.
pub const MODEL_NAME: &'static str = "phi";

/// Argument with which the engine prints its version; running it tells
/// whether the engine is installed.
pub const ENGINE_VERSION_ARG: &'static str = "--version";

/// Subcommand of the engine that downloads a model.
pub const ENGINE_PULL_ARG: &'static str = "pull";

/// Seconds to let the engine's installer finish its background setup.
pub const INSTALL_SETTLE_SECS: u64 = 5;

/// Operating system the launcher runs on.
#[derive(Clone, Copy, Debug, PartialEq, Eq, Structural)]
pub enum Platform {
    Windows,
    MacOs,
    Linux,
    Other,
}

/// A shell invocation: a program and its arguments.
#[derive(Debug)]
pub struct ShellCommand {
    pub program: &'static str,
    pub args: Vec<&'static str>,
}

pub open spec fn windows_install_script() -> Seq<char> {
    "Invoke-WebRequest -Uri https://ollama.ai/download/windows -OutFile ollama-installer.exe; Start-Process -FilePath .\\ollama-installer.exe -ArgumentList '/S' -Wait"@
}

pub open spec fn unix_install_script() -> Seq<char> {
    "curl -fsSL https://ollama.ai/install.sh | sh"@
}

/// The install command of each platform: a silent download and install on
/// Windows, an install script piped into a shell on macOS and Linux, none
/// elsewhere.
pub open spec fn install_command_spec(p: Platform) -> Option<(Seq<char>, Seq<Seq<char>>)> {
    match p {
        Platform::Windows => Some(("powershell"@, seq!["-Command"@, windows_install_script()])),
        Platform::MacOs | Platform::Linux => Some(("sh"@, seq!["-c"@, unix_install_script()])),
        Platform::Other => None,
    }
}

pub open spec fn command_view(c: ShellCommand) -> (Seq<char>, Seq<Seq<char>>) {
    (c.program@, c.args@.map_values(|a: &'static str| a@))
}

pub fn install_command(p: Platform) -> (r: Option<ShellCommand>)
    ensures
        r is Some == install_command_spec(p) is Some,
        r is Some ==> command_view(r->Some_0) == install_command_spec(p)->Some_0,
{
    match p {
        Platform::Windows => {
            let script = "Invoke-WebRequest -Uri https://ollama.ai/download/windows -OutFile ollama-installer.exe; Start-Process -FilePath .\\ollama-installer.exe -ArgumentList '/S' -Wait";
            let c = ShellCommand { program: "powershell", args: vec!["-Command", script] };
            assert(c.args@.map_values(|a: &'static str| a@) =~= seq!["-Command"@, windows_install_script()]);
            Some(c)
        },
        Platform::MacOs | Platform::Linux => {
            let c = ShellCommand { program: "sh", args: vec!["-c", "curl -fsSL https://ollama.ai/install.sh | sh"] };
            assert(c.args@.map_values(|a: &'static str| a@) =~= seq!["-c"@, unix_install_script()]);
            Some(c)
        },
        Platform::Other => None,
    }
}

/// `s` holds `p` as a contiguous run.
pub open spec fn has_substring(s: Seq<char>, p: Seq<char>) -> bool {
    exists|i: int| 0 <= i && i + p.len() <= s.len() && #[trigger] s.subrange(i, i + p.len()) == p
}

/// Relies on str::contains, which tells whether the pattern matches a
/// sub-slice of the string.
#[verifier::external_body]
fn str_contains(s: &str, p: &str) -> (r: bool)
    ensures
        r == has_substring(s@, p@),
{
    s.contains(p)
}

/// What String::from_utf8_lossy makes of these bytes.
pub uninterp spec fn utf8_lossy(b: Seq<u8>) -> Seq<char>;

/// Relies on String::from_utf8_lossy, whose text depends on the bytes alone.
#[verifier::external_body]
fn lossy_text(b: &[u8]) -> (r: String)
    ensures
        r@ == utf8_lossy(b@),
{
    String::from_utf8_lossy(b).into_owned()
}

/// How a command that was run came out.
#[derive(Debug)]
pub enum CommandRun {
    /// The command could not be started; the OS's description.
    SpawnFailed(String),
    /// The command ran; whether its exit status was success, and its error stream.
    Exited { success: bool, stderr: Vec<u8> },
}

/// Where an installation stands.
#[derive(Clone, Copy, Debug, PartialEq, Eq, Structural)]
pub enum InstallPhase {
    CheckingEngine,
    ListingModels,
    Installing,
    Settling,
    Pulling { fresh: bool },
    Finished,
}

/// What the caller observed while performing the last action.
#[derive(Debug)]
pub enum InstallEvent {
    /// Whether the engine binary could be run with its version flag.
    EngineChecked(bool),
    /// Body of the engine's model list, or `None` when it could not be read.
    ModelsListed(Option<String>),
    InstallerRan(CommandRun),
    Settled,
    PullRan(CommandRun),
}

/// How a successful installation ended.
#[derive(Clone, Copy, Debug, PartialEq, Eq, Structural)]
pub enum InstallReport {
    AlreadyInstalled,
    ModelInstalled,
    AllInstalled,
}

/// Why an installation failed.
#[derive(Debug)]
pub enum InstallError {
    InstallerSpawn(Platform, String),
    InstallerFailed,
    PullSpawn(String),
    PullFailed(Vec<u8>),
}

/// What the caller is to do next.
#[derive(Debug)]
pub enum InstallAction {
    /// Run the engine with its version flag.
    CheckEngine,
    /// Read the engine's model list.
    ListModels,
    /// Run the platform's install command.
    RunInstaller,
    /// Wait this many seconds.
    Sleep(u64),
    /// Pull the model.
    Pull,
    Done(InstallReport),
    Fail(InstallError),
}

pub open spec fn report_text(r: InstallReport) -> Seq<char> {
    match r {
        InstallReport::AlreadyInstalled => "Ollama and phi model are already installed"@,
        InstallReport::ModelInstalled => "Phi model installed successfully"@,
        InstallReport::AllInstalled => "Ollama and phi model installed successfully"@,
    }
}

pub open spec fn platform_name(p: Platform) -> Seq<char> {
    match p {
        Platform::Windows => "Windows"@,
        Platform::MacOs => "macOS"@,
        Platform::Linux => "Linux"@,
        Platform::Other => "this system"@,
    }
}

pub open spec fn install_error_text(e: InstallError) -> Seq<char> {
    match e {
        InstallError::InstallerSpawn(p, d) => "Failed to install Ollama on "@ + platform_name(p) + ": "@ + d@,
        InstallError::InstallerFailed => "Ollama installation failed"@,
        InstallError::PullSpawn(d) => "Failed to pull phi model: "@ + d@,
        InstallError::PullFailed(stderr) => "Failed to pull phi model: "@ + utf8_lossy(stderr@),
    }
}

impl InstallReport {
    pub fn message(self) -> (r: String)
        ensures
            r@ == report_text(self),
    {
        match self {
            InstallReport::AlreadyInstalled => String::from_str("Ollama and phi model are already installed"),
            InstallReport::ModelInstalled => String::from_str("Phi model installed successfully"),
            InstallReport::AllInstalled => String::from_str("Ollama and phi model installed successfully"),
        }
    }
}

fn platform_label(p: Platform) -> (r: &'static str)
    ensures
        r@ == platform_name(p),
{
    match p {
        Platform::Windows => "Windows",
        Platform::MacOs => "macOS",
        Platform::Linux => "Linux",
        Platform::Other => "this system",
    }
}

impl InstallError {
    pub fn message(self) -> (r: String)
        ensures
            r@ == install_error_text(self),
    {
        match self {
            InstallError::InstallerSpawn(p, d) => {
                let mut m = String::from_str("Failed to install Ollama on ");
                m.append(platform_label(p));
                m.append(": ");
                m.append(d.as_str());
                m
            },
            InstallError::InstallerFailed => String::from_str("Ollama installation failed"),
            InstallError::PullSpawn(d) => String::from_str("Failed to pull phi model: ").concat(d.as_str()),
            InstallError::PullFailed(stderr) => {
                let text = lossy_text(stderr.as_slice());
                String::from_str("Failed to pull phi model: ").concat(text.as_str())
            },
        }
    }
}

/// The events that answer the action pending in each phase.
pub open spec fn install_expects(phase: InstallPhase, ev: InstallEvent) -> bool {
    match phase {
        InstallPhase::CheckingEngine => ev is EngineChecked,
        InstallPhase::ListingModels => ev is ModelsListed,
        InstallPhase::Installing => ev is InstallerRan,
        InstallPhase::Settling => ev is Settled,
        InstallPhase::Pulling { .. } => ev is PullRan,
        InstallPhase::Finished => false,
    }
}

/// The installation's transitions.
pub open spec fn install_next(platform: Platform, phase: InstallPhase, ev: InstallEvent) -> (InstallPhase, InstallAction) {
    match ev {
        InstallEvent::EngineChecked(present) => if present {
            (InstallPhase::ListingModels, InstallAction::ListModels)
        } else if install_command_spec(platform) is Some {
            (InstallPhase::Installing, InstallAction::RunInstaller)
        } else {
            (InstallPhase::Settling, InstallAction::Sleep(INSTALL_SETTLE_SECS))
        },
        InstallEvent::ModelsListed(body) => if body is Some && has_substring(body->Some_0@, MODEL_NAME@) {
            (InstallPhase::Finished, InstallAction::Done(InstallReport::AlreadyInstalled))
        } else {
            (InstallPhase::Pulling { fresh: false }, InstallAction::Pull)
        },
        InstallEvent::InstallerRan(run) => match run {
            CommandRun::SpawnFailed(d) =>
                (InstallPhase::Finished, InstallAction::Fail(InstallError::InstallerSpawn(platform, d))),
            CommandRun::Exited { success, stderr } => if success {
                (InstallPhase::Settling, InstallAction::Sleep(INSTALL_SETTLE_SECS))
            } else {
                (InstallPhase::Finished, InstallAction::Fail(InstallError::InstallerFailed))
            },
        },
        InstallEvent::Settled => (InstallPhase::Pulling { fresh: true }, InstallAction::Pull),
        InstallEvent::PullRan(run) => match run {
            CommandRun::SpawnFailed(d) =>
                (InstallPhase::Finished, InstallAction::Fail(InstallError::PullSpawn(d))),
            CommandRun::Exited { success, stderr } => if !success {
                (InstallPhase::Finished, InstallAction::Fail(InstallError::PullFailed(stderr)))
            } else if phase == (InstallPhase::Pulling { fresh: true }) {
                (InstallPhase::Finished, InstallAction::Done(InstallReport::AllInstalled))
            } else {
                (InstallPhase::Finished, InstallAction::Done(InstallReport::ModelInstalled))
            },
        },
    }
}

/// An installation in progress.
pub struct Installer {
    pub platform: Platform,
    pub phase: InstallPhase,
}

impl Installer {
    /// A new installation on `platform`, and its first action.
    pub fn start(platform: Platform) -> (r: (Installer, InstallAction))
        ensures
            r.0.platform == platform,
            r.0.phase == InstallPhase::CheckingEngine,
            r.1 is CheckEngine,
    {
        (Installer { platform, phase: InstallPhase::CheckingEngine }, InstallAction::CheckEngine)
    }

    /// Whether `ev` answers the pending action.
    pub fn accepts(&self, ev: &InstallEvent) -> (r: bool)
        ensures
            r == install_expects(self.phase, *ev),
    {
        match self.phase {
            InstallPhase::CheckingEngine => matches!(ev, InstallEvent::EngineChecked(_)),
            InstallPhase::ListingModels => matches!(ev, InstallEvent::ModelsListed(_)),
            InstallPhase::Installing => matches!(ev, InstallEvent::InstallerRan(_)),
            InstallPhase::Settling => matches!(ev, InstallEvent::Settled),
            InstallPhase::Pulling { .. } => matches!(ev, InstallEvent::PullRan(_)),
            InstallPhase::Finished => false,
        }
    }

    /// Takes in what the last action produced and gives the next action.
    pub fn step(&mut self, ev: InstallEvent) -> (a: InstallAction)
        requires
            install_expects(old(self).phase, ev),
        ensures
            final(self).platform == old(self).platform,
            (final(self).phase, a) == install_next(old(self).platform, old(self).phase, ev),
    {
        let (phase, action) = match ev {
            InstallEvent::EngineChecked(present) => if present {
                (InstallPhase::ListingModels, InstallAction::ListModels)
            } else if install_command(self.platform).is_some() {
                (InstallPhase::Installing, InstallAction::RunInstaller)
            } else {
                (InstallPhase::Settling, InstallAction::Sleep(INSTALL_SETTLE_SECS))
            },
            InstallEvent::ModelsListed(body) => {
                let listed = match &body {
                    Some(text) => str_contains(text.as_str(), MODEL_NAME),
                    None => false,
                };
                if listed {
                    (InstallPhase::Finished, InstallAction::Done(InstallReport::AlreadyInstalled))
                } else {
                    (InstallPhase::Pulling { fresh: false }, InstallAction::Pull)
                }
            },
            InstallEvent::InstallerRan(run) => match run {
                CommandRun::SpawnFailed(d) =>
                    (InstallPhase::Finished, InstallAction::Fail(InstallError::InstallerSpawn(self.platform, d))),
                CommandRun::Exited { success, stderr } => if success {
                    (InstallPhase::Settling, InstallAction::Sleep(INSTALL_SETTLE_SECS))
                } else {
                    (InstallPhase::Finished, InstallAction::Fail(InstallError::InstallerFailed))
                },
            },
            InstallEvent::Settled => (InstallPhase::Pulling { fresh: true }, InstallAction::Pull),
            InstallEvent::PullRan(run) => match run {
                CommandRun::SpawnFailed(d) =>
                    (InstallPhase::Finished, InstallAction::Fail(InstallError::PullSpawn(d))),
                CommandRun::Exited { success, stderr } => if !success {
                    (InstallPhase::Finished, InstallAction::Fail(InstallError::PullFailed(stderr)))
                } else if self.phase == (InstallPhase::Pulling { fresh: true }) {
                    (InstallPhase::Finished, InstallAction::Done(InstallReport::AllInstalled))
                } else {
                    (InstallPhase::Finished, InstallAction::Done(InstallReport::ModelInstalled))
                },
            },
        };
        self.phase = phase;
        action
    }
}

/// Where the engine is missing on a platform that has an install command, that
/// command runs first, and no pull comes before it has run and succeeded: the
/// pull is asked for only after the settling wait that follows a successful
/// install.
pub proof fn lemma_missing_engine_installs_before_pull(platform: Platform)
    requires
        install_command_spec(platform) is Some,
    ensures
        install_next(platform, InstallPhase::CheckingEngine, InstallEvent::EngineChecked(false))
            == (InstallPhase::Installing, InstallAction::RunInstaller),
        forall|ev: InstallEvent| #[trigger] install_expects(InstallPhase::Installing, ev) ==> {
            let (next, action) = install_next(platform, InstallPhase::Installing, ev);
            &&& !(action is Pull)
            &&& next == InstallPhase::Settling || next == InstallPhase::Finished
            &&& next == InstallPhase::Settling <==> (ev->InstallerRan_0 is Exited
                && ev->InstallerRan_0->Exited_success)
        },
        forall|ev: InstallEvent| #[trigger] install_expects(InstallPhase::Settling, ev) ==>
            install_next(platform, InstallPhase::Settling, ev)
                == (InstallPhase::Pulling { fresh: true }, InstallAction::Pull),
{
}

/// Where the engine is present and its model list names the model, the
/// installation ends at once as already satisfied, with no install and no pull.
pub proof fn lemma_engine_and_model_present(platform: Platform, body: String)
    requires
        has_substring(body@, MODEL_NAME@),
    ensures
        install_next(platform, InstallPhase::CheckingEngine, InstallEvent::EngineChecked(true))
            == (InstallPhase::ListingModels, InstallAction::ListModels),
        install_next(platform, InstallPhase::ListingModels, InstallEvent::ModelsListed(Some(body)))
            == (InstallPhase::Finished, InstallAction::Done(InstallReport::AlreadyInstalled)),
        forall|ev: InstallEvent| !install_expects(InstallPhase::Finished, ev),
{
}

/// A pull that exits with a failure status ends the installation with an
/// error whose text holds the pull's error stream.
pub proof fn lemma_pull_failure_keeps_stderr(platform: Platform, fresh: bool, stderr: Vec<u8>)
    ensures
        install_next(
            platform,
            InstallPhase::Pulling { fresh },
            InstallEvent::PullRan(CommandRun::Exited { success: false, stderr }),
        ) == (InstallPhase::Finished, InstallAction::Fail(InstallError::PullFailed(stderr))),
        has_substring(install_error_text(InstallError::PullFailed(stderr)), utf8_lossy(stderr@)),
{
    let text = install_error_text(InstallError::PullFailed(stderr));
    let prefix = "Failed to pull phi model: "@;
    let lossy = utf8_lossy(stderr@);
    assert(text.subrange(prefix.len() as int, (prefix.len() + lossy.len()) as int) =~= lossy);
}

} // verus!
