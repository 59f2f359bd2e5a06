//! Bring-up of the engine and the backend, as a machine that decides the next
//! action from each observed event; the caller performs the actions.
use vstd::prelude::*;
use vstd::string::*;
use crate::probe::{probe_result, probe_up, ProbeOutcome};
use crate::status::startup_message;

verus! {

/// Seconds to wait after spawning, before the services are probed again.
pub const SETTLE_SECS: u64 = 3;

/// Program of the engine, found on the system path.
pub const ENGINE_PROGRAM: &'static str = "ollama";

/// Argument that makes the engine serve.
pub const ENGINE_SERVE_ARG: &'static str = "serve";

/// Interpreter that runs the backend's entry file.
pub const BACKEND_INTERPRETER: &'static str = "python";

/// Port the backend is told to listen on, through the `PORT` variable.
pub const BACKEND_PORT: &'static str = "8000";

/// Mode the backend is told to run in, through the `FLASK_ENV` variable.
pub const BACKEND_MODE: &'static str = "production";

/// Directory, beside the executable, that holds the backend.
pub const BACKEND_DIR: &'static str = "backend";

/// Entry file of the backend inside that directory.
pub const BACKEND_ENTRY: &'static str = "app.py";

/// Where bring-up stands.
#[derive(Clone, Copy, Debug, PartialEq, Eq, Structural)]
pub enum BringUpPhase {
    ProbingEngine,
    SpawningEngine,
    LocatingBackend,
    SpawningBackend,
    Settling,
    Reprobing,
    Finished,
}

/// What the caller observed while performing the last action.
#[derive(Debug)]
pub enum BringUpEvent {
    EngineProbed(ProbeOutcome),
    EngineSpawned,
    EngineSpawnFailed(String),
    ExePathFailed(String),
    NoParentDir,
    ScriptChecked { path: String, exists: bool },
    BackendSpawned,
    BackendSpawnFailed(String),
    Settled,
    Reprobed { backend: ProbeOutcome, engine: ProbeOutcome },
}

/// Why bring-up stopped.
#[derive(Debug)]
pub enum BringUpError {
    EngineSpawn(String),
    ExePath(String),
    NoParentDir,
    ScriptMissing,
    BackendSpawn(String),
}

/// What the caller is to do next.
#[derive(Debug)]
pub enum BringUpAction {
    /// Probe the engine's endpoint.
    ProbeEngine,
    /// Spawn the engine, store its handle, and answer `EngineSpawned`.
    SpawnEngine,
    /// Find the backend's entry file beside the executable.
    LocateBackend,
    /// Spawn the backend on this entry file and store its handle.
    SpawnBackend(String),
    /// Wait this many seconds.
    Sleep(u64),
    /// Probe the backend, then the engine.
    Reprobe,
    /// Bring-up is over; report these states.
    Report { ollama_running: bool, flask_running: bool },
    /// Bring-up is over and failed.
    Fail(BringUpError),
}

/// Text of each bring-up error.
pub open spec fn error_text(e: BringUpError) -> Seq<char> {
    match e {
        BringUpError::EngineSpawn(d) => "Failed to start Ollama: "@ + d@,
        BringUpError::ExePath(d) => "Failed to get current exe path: "@ + d@,
        BringUpError::NoParentDir => "Failed to get parent directory"@,
        BringUpError::ScriptMissing =>
            "Backend script not found. Make sure app.py is bundled with the application."@,
        BringUpError::BackendSpawn(d) => "Failed to start Flask backend: "@ + d@,
    }
}

impl BringUpError {
    pub fn message(self) -> (r: String)
        ensures
            r@ == error_text(self),
    {
        match self {
            BringUpError::EngineSpawn(d) => String::from_str("Failed to start Ollama: ").concat(d.as_str()),
            BringUpError::ExePath(d) => String::from_str("Failed to get current exe path: ").concat(d.as_str()),
            BringUpError::NoParentDir => String::from_str("Failed to get parent directory"),
            BringUpError::ScriptMissing => String::from_str(
                "Backend script not found. Make sure app.py is bundled with the application.",
            ),
            BringUpError::BackendSpawn(d) => String::from_str("Failed to start Flask backend: ").concat(d.as_str()),
        }
    }
}

/// The events that answer the action pending in each phase.
pub open spec fn bring_up_expects(phase: BringUpPhase, ev: BringUpEvent) -> bool {
    match phase {
        BringUpPhase::ProbingEngine => ev is EngineProbed,
        BringUpPhase::SpawningEngine => ev is EngineSpawned || ev is EngineSpawnFailed,
        BringUpPhase::LocatingBackend => ev is ExePathFailed || ev is NoParentDir || ev is ScriptChecked,
        BringUpPhase::SpawningBackend => ev is BackendSpawned || ev is BackendSpawnFailed,
        BringUpPhase::Settling => ev is Settled,
        BringUpPhase::Reprobing => ev is Reprobed,
        BringUpPhase::Finished => false,
    }
}

/// Bring-up's transitions: the engine is spawned only when its probe failed,
/// the backend always, after its entry file was found.
pub open spec fn bring_up_next(phase: BringUpPhase, ev: BringUpEvent) -> (BringUpPhase, BringUpAction) {
    match ev {
        BringUpEvent::EngineProbed(o) => if probe_up(o) {
            (BringUpPhase::LocatingBackend, BringUpAction::LocateBackend)
        } else {
            (BringUpPhase::SpawningEngine, BringUpAction::SpawnEngine)
        },
        BringUpEvent::EngineSpawned => (BringUpPhase::LocatingBackend, BringUpAction::LocateBackend),
        BringUpEvent::EngineSpawnFailed(d) =>
            (BringUpPhase::Finished, BringUpAction::Fail(BringUpError::EngineSpawn(d))),
        BringUpEvent::ExePathFailed(d) =>
            (BringUpPhase::Finished, BringUpAction::Fail(BringUpError::ExePath(d))),
        BringUpEvent::NoParentDir =>
            (BringUpPhase::Finished, BringUpAction::Fail(BringUpError::NoParentDir)),
        BringUpEvent::ScriptChecked { path, exists } => if exists {
            (BringUpPhase::SpawningBackend, BringUpAction::SpawnBackend(path))
        } else {
            (BringUpPhase::Finished, BringUpAction::Fail(BringUpError::ScriptMissing))
        },
        BringUpEvent::BackendSpawned => (BringUpPhase::Settling, BringUpAction::Sleep(SETTLE_SECS)),
        BringUpEvent::BackendSpawnFailed(d) =>
            (BringUpPhase::Finished, BringUpAction::Fail(BringUpError::BackendSpawn(d))),
        BringUpEvent::Settled => (BringUpPhase::Reprobing, BringUpAction::Reprobe),
        BringUpEvent::Reprobed { backend, engine } => (
            BringUpPhase::Finished,
            BringUpAction::Report { ollama_running: probe_up(engine), flask_running: probe_up(backend) },
        ),
    }
}

/// A bring-up in progress.
pub struct BringUp {
    pub phase: BringUpPhase,
}

impl BringUp {
    /// A new bring-up, and its first action.
    pub fn start() -> (r: (BringUp, BringUpAction))
        ensures
            r.0.phase == BringUpPhase::ProbingEngine,
            r.1 is ProbeEngine,
    {
        (BringUp { phase: BringUpPhase::ProbingEngine }, BringUpAction::ProbeEngine)
    }

    /// Whether `ev` answers the pending action.
    pub fn accepts(&self, ev: &BringUpEvent) -> (r: bool)
        ensures
            r == bring_up_expects(self.phase, *ev),
    {
        match self.phase {
            BringUpPhase::ProbingEngine => matches!(ev, BringUpEvent::EngineProbed(_)),
            BringUpPhase::SpawningEngine => matches!(ev, BringUpEvent::EngineSpawned | BringUpEvent::EngineSpawnFailed(_)),
            BringUpPhase::LocatingBackend => matches!(
                ev,
                BringUpEvent::ExePathFailed(_) | BringUpEvent::NoParentDir | BringUpEvent::ScriptChecked { .. }
            ),
            BringUpPhase::SpawningBackend => matches!(ev, BringUpEvent::BackendSpawned | BringUpEvent::BackendSpawnFailed(_)),
            BringUpPhase::Settling => matches!(ev, BringUpEvent::Settled),
            BringUpPhase::Reprobing => matches!(ev, BringUpEvent::Reprobed { .. }),
            BringUpPhase::Finished => false,
        }
    }

    /// Takes in what the last action produced and gives the next action.
    pub fn step(&mut self, ev: BringUpEvent) -> (a: BringUpAction)
        requires
            bring_up_expects(old(self).phase, ev),
        ensures
            (final(self).phase, a) == bring_up_next(old(self).phase, ev),
    {
        let (phase, action) = match ev {
            BringUpEvent::EngineProbed(o) => if probe_result(o) {
                (BringUpPhase::LocatingBackend, BringUpAction::LocateBackend)
            } else {
                (BringUpPhase::SpawningEngine, BringUpAction::SpawnEngine)
            },
            BringUpEvent::EngineSpawned => (BringUpPhase::LocatingBackend, BringUpAction::LocateBackend),
            BringUpEvent::EngineSpawnFailed(d) =>
                (BringUpPhase::Finished, BringUpAction::Fail(BringUpError::EngineSpawn(d))),
            BringUpEvent::ExePathFailed(d) =>
                (BringUpPhase::Finished, BringUpAction::Fail(BringUpError::ExePath(d))),
            BringUpEvent::NoParentDir =>
                (BringUpPhase::Finished, BringUpAction::Fail(BringUpError::NoParentDir)),
            BringUpEvent::ScriptChecked { path, exists } => if exists {
                (BringUpPhase::SpawningBackend, BringUpAction::SpawnBackend(path))
            } else {
                (BringUpPhase::Finished, BringUpAction::Fail(BringUpError::ScriptMissing))
            },
            BringUpEvent::BackendSpawned => (BringUpPhase::Settling, BringUpAction::Sleep(SETTLE_SECS)),
            BringUpEvent::BackendSpawnFailed(d) =>
                (BringUpPhase::Finished, BringUpAction::Fail(BringUpError::BackendSpawn(d))),
            BringUpEvent::Settled => (BringUpPhase::Reprobing, BringUpAction::Reprobe),
            BringUpEvent::Reprobed { backend, engine } => {
                let flask_running = probe_result(backend);
                let ollama_running = probe_result(engine);
                (BringUpPhase::Finished, BringUpAction::Report { ollama_running, flask_running })
            },
        };
        self.phase = phase;
        action
    }
}

/// Where the backend's entry file is absent, bring-up fails with the error that
/// names that file and accepts no further event, so the backend is never spawned.
pub proof fn lemma_missing_entry_file(path: String)
    ensures
        bring_up_expects(BringUpPhase::LocatingBackend, BringUpEvent::ScriptChecked { path, exists: false }),
        bring_up_next(BringUpPhase::LocatingBackend, BringUpEvent::ScriptChecked { path, exists: false })
            == (BringUpPhase::Finished, BringUpAction::Fail(BringUpError::ScriptMissing)),
        error_text(BringUpError::ScriptMissing).subrange(36, 42) == BACKEND_ENTRY@,
        forall|ev: BringUpEvent| !bring_up_expects(BringUpPhase::Finished, ev),
{
    reveal_strlit("Backend script not found. Make sure app.py is bundled with the application.");
    reveal_strlit("app.py");
    assert(error_text(BringUpError::ScriptMissing).subrange(36, 42) =~= BACKEND_ENTRY@);
}

/// With the engine already answering and the backend's entry file present,
/// bring-up spawns the backend alone, waits the settling time, probes again
/// and reports each service as that second probe found it; a backend that is
/// not yet listening gives the sentence of a partial failure.
pub proof fn lemma_engine_already_running(
    first: ProbeOutcome,
    path: String,
    backend: ProbeOutcome,
    engine: ProbeOutcome,
)
    requires
        probe_up(first),
    ensures
        bring_up_expects(BringUpPhase::ProbingEngine, BringUpEvent::EngineProbed(first)),
        bring_up_next(BringUpPhase::ProbingEngine, BringUpEvent::EngineProbed(first))
            == (BringUpPhase::LocatingBackend, BringUpAction::LocateBackend),
        bring_up_expects(BringUpPhase::LocatingBackend, BringUpEvent::ScriptChecked { path, exists: true }),
        bring_up_next(BringUpPhase::LocatingBackend, BringUpEvent::ScriptChecked { path, exists: true })
            == (BringUpPhase::SpawningBackend, BringUpAction::SpawnBackend(path)),
        bring_up_expects(BringUpPhase::SpawningBackend, BringUpEvent::BackendSpawned),
        bring_up_next(BringUpPhase::SpawningBackend, BringUpEvent::BackendSpawned)
            == (BringUpPhase::Settling, BringUpAction::Sleep(3)),
        bring_up_expects(BringUpPhase::Settling, BringUpEvent::Settled),
        bring_up_next(BringUpPhase::Settling, BringUpEvent::Settled)
            == (BringUpPhase::Reprobing, BringUpAction::Reprobe),
        bring_up_expects(BringUpPhase::Reprobing, BringUpEvent::Reprobed { backend, engine }),
        bring_up_next(BringUpPhase::Reprobing, BringUpEvent::Reprobed { backend, engine }) == (
            BringUpPhase::Finished,
            BringUpAction::Report { ollama_running: probe_up(engine), flask_running: probe_up(backend) },
        ),
        !probe_up(backend) ==> startup_message(probe_up(engine), probe_up(backend))
            == "Some services failed to start"@,
{
}

} // verus!
