use study_companion::greet;
use study_companion::installer::{
    install_command, CommandRun, InstallAction, InstallError, InstallEvent, InstallPhase, InstallReport,
    Installer, Platform,
};
use study_companion::probe::{probe_result, ProbeOutcome};
use study_companion::slots::{shutdown, ProcessSlot};
use study_companion::status::{summarize_startup, summarize_status};
use study_companion::supervisor::{BringUp, BringUpAction, BringUpError, BringUpEvent, BringUpPhase};

#[test]
fn probe_unreachable_is_down() {
    assert!(!probe_result(ProbeOutcome::Unreachable));
}

#[test]
fn probe_non_success_status_is_down() {
    for code in [100u16, 199, 300, 301, 404, 500, 503, 999] {
        assert!(!probe_result(ProbeOutcome::Responded(code)), "code {}", code);
    }
}

#[test]
fn probe_success_status_is_up() {
    for code in [200u16, 201, 204, 299] {
        assert!(probe_result(ProbeOutcome::Responded(code)), "code {}", code);
    }
}

#[test]
fn probe_invalid_status_code_is_down() {
    assert!(!probe_result(ProbeOutcome::Responded(0)));
    assert!(!probe_result(ProbeOutcome::Responded(99)));
    assert!(!probe_result(ProbeOutcome::Responded(1000)));
    assert!(!probe_result(ProbeOutcome::Responded(u16::MAX)));
}

#[test]
fn summarize_all_up() {
    let s = summarize_startup(true, true);
    assert_eq!(s.message, "All services started successfully");
    assert!(s.ollama_running && s.flask_running);
    let q = summarize_status(true, true);
    assert_eq!(q.message, "Flask, Ollama: Running, Running");
    assert!(q.message.contains("Running, Running"));
}

#[test]
fn summarize_partial_failure() {
    for (engine, backend) in [(false, true), (true, false), (false, false)] {
        let s = summarize_startup(engine, backend);
        assert_eq!(s.message, "Some services failed to start");
        assert_eq!(s.ollama_running, engine);
        assert_eq!(s.flask_running, backend);
    }
}

#[test]
fn status_line_names_each_state() {
    assert_eq!(summarize_status(true, false).message, "Flask, Ollama: Stopped, Running");
    assert_eq!(summarize_status(false, true).message, "Flask, Ollama: Running, Stopped");
    assert_eq!(summarize_status(false, false).message, "Flask, Ollama: Stopped, Stopped");
}

#[test]
fn greet_names_the_user() {
    assert_eq!(greet("Ada"), "Hello, Ada! Welcome to StudyCompanion!");
    assert_eq!(greet(""), "Hello, ! Welcome to StudyCompanion!");
}

#[test]
fn slot_store_and_take() {
    let mut slot: ProcessSlot<u32> = ProcessSlot::new();
    assert!(slot.is_empty());
    assert_eq!(slot.store(7), None);
    assert!(!slot.is_empty());
    assert_eq!(slot.store(8), Some(7));
    assert_eq!(slot.take(), Some(8));
    assert!(slot.is_empty());
    assert_eq!(slot.take(), None);
}

#[test]
fn shutdown_after_bring_up_stops_each_once() {
    let mut engine: ProcessSlot<u32> = ProcessSlot::new();
    let mut backend: ProcessSlot<u32> = ProcessSlot::new();
    engine.store(1);
    backend.store(2);
    let stop = shutdown(&mut engine, &mut backend);
    assert_eq!(stop, vec![2, 1]);
    assert!(engine.is_empty() && backend.is_empty());
    assert!(shutdown(&mut engine, &mut backend).is_empty());
}

#[test]
fn shutdown_with_engine_not_started() {
    let mut engine: ProcessSlot<u32> = ProcessSlot::new();
    let mut backend: ProcessSlot<u32> = ProcessSlot::new();
    backend.store(5);
    assert_eq!(shutdown(&mut engine, &mut backend), vec![5]);
    assert!(backend.is_empty());
}

#[test]
fn bring_up_with_engine_running_and_backend_late() {
    let (mut m, first) = BringUp::start();
    assert!(matches!(first, BringUpAction::ProbeEngine));
    let a = m.step(BringUpEvent::EngineProbed(ProbeOutcome::Responded(200)));
    assert!(matches!(a, BringUpAction::LocateBackend));
    let a = m.step(BringUpEvent::ScriptChecked { path: "/opt/app/backend/app.py".to_string(), exists: true });
    match a {
        BringUpAction::SpawnBackend(p) => assert_eq!(p, "/opt/app/backend/app.py"),
        other => panic!("unexpected {:?}", other),
    }
    let a = m.step(BringUpEvent::BackendSpawned);
    assert!(matches!(a, BringUpAction::Sleep(3)));
    let a = m.step(BringUpEvent::Settled);
    assert!(matches!(a, BringUpAction::Reprobe));
    let a = m.step(BringUpEvent::Reprobed { backend: ProbeOutcome::Unreachable, engine: ProbeOutcome::Responded(200) });
    match a {
        BringUpAction::Report { ollama_running, flask_running } => {
            assert!(ollama_running);
            assert!(!flask_running);
            assert_eq!(summarize_startup(ollama_running, flask_running).message, "Some services failed to start");
        },
        other => panic!("unexpected {:?}", other),
    }
    assert_eq!(m.phase, BringUpPhase::Finished);
    assert!(!m.accepts(&BringUpEvent::Settled));
}

#[test]
fn bring_up_backend_listening_in_time() {
    let (mut m, _) = BringUp::start();
    m.step(BringUpEvent::EngineProbed(ProbeOutcome::Responded(200)));
    m.step(BringUpEvent::ScriptChecked { path: "app.py".to_string(), exists: true });
    m.step(BringUpEvent::BackendSpawned);
    m.step(BringUpEvent::Settled);
    let a = m.step(BringUpEvent::Reprobed { backend: ProbeOutcome::Responded(200), engine: ProbeOutcome::Responded(200) });
    assert!(matches!(a, BringUpAction::Report { ollama_running: true, flask_running: true }));
}

#[test]
fn bring_up_spawns_engine_when_down() {
    let (mut m, _) = BringUp::start();
    let a = m.step(BringUpEvent::EngineProbed(ProbeOutcome::Unreachable));
    assert!(matches!(a, BringUpAction::SpawnEngine));
    assert!(m.accepts(&BringUpEvent::EngineSpawned));
    assert!(!m.accepts(&BringUpEvent::BackendSpawned));
    let a = m.step(BringUpEvent::EngineSpawned);
    assert!(matches!(a, BringUpAction::LocateBackend));
}

#[test]
fn bring_up_engine_spawn_failure() {
    let (mut m, _) = BringUp::start();
    m.step(BringUpEvent::EngineProbed(ProbeOutcome::Responded(500)));
    let a = m.step(BringUpEvent::EngineSpawnFailed("not found".to_string()));
    match a {
        BringUpAction::Fail(e) => assert_eq!(e.message(), "Failed to start Ollama: not found"),
        other => panic!("unexpected {:?}", other),
    }
    assert_eq!(m.phase, BringUpPhase::Finished);
}

#[test]
fn bring_up_missing_entry_file() {
    let (mut m, _) = BringUp::start();
    m.step(BringUpEvent::EngineProbed(ProbeOutcome::Responded(200)));
    let a = m.step(BringUpEvent::ScriptChecked { path: "backend/app.py".to_string(), exists: false });
    match a {
        BringUpAction::Fail(e) => {
            assert!(matches!(e, BringUpError::ScriptMissing));
            let text = e.message();
            assert_eq!(text, "Backend script not found. Make sure app.py is bundled with the application.");
            assert!(text.contains("app.py"));
        },
        other => panic!("unexpected {:?}", other),
    }
    assert!(!m.accepts(&BringUpEvent::BackendSpawned));
}

#[test]
fn bring_up_error_texts() {
    assert_eq!(BringUpError::ExePath("gone".to_string()).message(), "Failed to get current exe path: gone");
    assert_eq!(BringUpError::NoParentDir.message(), "Failed to get parent directory");
    assert_eq!(BringUpError::BackendSpawn("no python".to_string()).message(), "Failed to start Flask backend: no python");
}

#[test]
fn install_commands_per_platform() {
    let w = install_command(Platform::Windows).unwrap();
    assert_eq!(w.program, "powershell");
    assert_eq!(w.args[0], "-Command");
    assert!(w.args[1].contains("ollama-installer.exe"));
    for p in [Platform::Linux, Platform::MacOs] {
        let c = install_command(p).unwrap();
        assert_eq!(c.program, "sh");
        assert_eq!(c.args, vec!["-c", "curl -fsSL https://ollama.ai/install.sh | sh"]);
    }
    assert!(install_command(Platform::Other).is_none());
}

#[test]
fn installer_missing_engine_installs_before_pull() {
    let (mut m, first) = Installer::start(Platform::Linux);
    assert!(matches!(first, InstallAction::CheckEngine));
    let a = m.step(InstallEvent::EngineChecked(false));
    assert!(matches!(a, InstallAction::RunInstaller));
    let a = m.step(InstallEvent::InstallerRan(CommandRun::Exited { success: true, stderr: vec![] }));
    assert!(matches!(a, InstallAction::Sleep(5)));
    let a = m.step(InstallEvent::Settled);
    assert!(matches!(a, InstallAction::Pull));
    let a = m.step(InstallEvent::PullRan(CommandRun::Exited { success: true, stderr: vec![] }));
    match a {
        InstallAction::Done(r) => {
            assert_eq!(r, InstallReport::AllInstalled);
            assert_eq!(r.message(), "Ollama and phi model installed successfully");
        },
        other => panic!("unexpected {:?}", other),
    }
}

#[test]
fn installer_without_platform_command_waits_then_pulls() {
    let (mut m, _) = Installer::start(Platform::Other);
    let a = m.step(InstallEvent::EngineChecked(false));
    assert!(matches!(a, InstallAction::Sleep(5)));
    assert_eq!(m.phase, InstallPhase::Settling);
}

#[test]
fn installer_engine_and_model_present() {
    let (mut m, _) = Installer::start(Platform::Windows);
    let a = m.step(InstallEvent::EngineChecked(true));
    assert!(matches!(a, InstallAction::ListModels));
    let body = r#"{"models":[{"name":"phi:latest"}]}"#.to_string();
    let a = m.step(InstallEvent::ModelsListed(Some(body)));
    match a {
        InstallAction::Done(r) => {
            assert_eq!(r, InstallReport::AlreadyInstalled);
            assert_eq!(r.message(), "Ollama and phi model are already installed");
        },
        other => panic!("unexpected {:?}", other),
    }
    assert!(!m.accepts(&InstallEvent::Settled));
}

#[test]
fn installer_model_missing_is_pulled() {
    let (mut m, _) = Installer::start(Platform::MacOs);
    m.step(InstallEvent::EngineChecked(true));
    let a = m.step(InstallEvent::ModelsListed(Some(r#"{"models":[{"name":"llama3"}]}"#.to_string())));
    assert!(matches!(a, InstallAction::Pull));
    let a = m.step(InstallEvent::PullRan(CommandRun::Exited { success: true, stderr: vec![] }));
    match a {
        InstallAction::Done(r) => assert_eq!(r.message(), "Phi model installed successfully"),
        other => panic!("unexpected {:?}", other),
    }
}

#[test]
fn installer_unreadable_model_list_pulls() {
    let (mut m, _) = Installer::start(Platform::Linux);
    m.step(InstallEvent::EngineChecked(true));
    let a = m.step(InstallEvent::ModelsListed(None));
    assert!(matches!(a, InstallAction::Pull));
}

#[test]
fn installer_pull_failure_carries_stderr() {
    let (mut m, _) = Installer::start(Platform::Linux);
    m.step(InstallEvent::EngineChecked(true));
    m.step(InstallEvent::ModelsListed(Some(String::new())));
    let a = m.step(InstallEvent::PullRan(CommandRun::Exited { success: false, stderr: b"disk full".to_vec() }));
    match a {
        InstallAction::Fail(e) => {
            let text = e.message();
            assert_eq!(text, "Failed to pull phi model: disk full");
            assert!(text.contains("disk full"));
        },
        other => panic!("unexpected {:?}", other),
    }
}

#[test]
fn pull_failure_with_invalid_utf8() {
    let e = InstallError::PullFailed(vec![b'o', b'k', 0xff]);
    assert_eq!(e.message(), "Failed to pull phi model: ok\u{FFFD}");
}

#[test]
fn installer_error_texts() {
    assert_eq!(
        InstallError::InstallerSpawn(Platform::Linux, "denied".to_string()).message(),
        "Failed to install Ollama on Linux: denied"
    );
    assert_eq!(
        InstallError::InstallerSpawn(Platform::Windows, "x".to_string()).message(),
        "Failed to install Ollama on Windows: x"
    );
    assert_eq!(InstallError::InstallerFailed.message(), "Ollama installation failed");
    assert_eq!(InstallError::PullSpawn("no ollama".to_string()).message(), "Failed to pull phi model: no ollama");
}

#[test]
fn installer_failed_install_stops() {
    let (mut m, _) = Installer::start(Platform::Windows);
    m.step(InstallEvent::EngineChecked(false));
    let a = m.step(InstallEvent::InstallerRan(CommandRun::Exited { success: false, stderr: vec![] }));
    assert!(matches!(a, InstallAction::Fail(InstallError::InstallerFailed)));
    let (mut m, _) = Installer::start(Platform::MacOs);
    m.step(InstallEvent::EngineChecked(false));
    let a = m.step(InstallEvent::InstallerRan(CommandRun::SpawnFailed("no curl".to_string())));
    match a {
        InstallAction::Fail(e) => assert_eq!(e.message(), "Failed to install Ollama on macOS: no curl"),
        other => panic!("unexpected {:?}", other),
    }
}
