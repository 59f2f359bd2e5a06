//! The status record shown to the user.
use vstd::prelude::*;
use vstd::string::*;

verus! {

/// Snapshot of which services answer their health endpoint.
#[derive(Debug)]
pub struct ServiceStatus {
    pub flask_running: bool,
    pub ollama_running: bool,
    pub message: String,
}

/// Sentence reported right after bring-up.
pub open spec fn startup_message(ollama_running: bool, flask_running: bool) -> Seq<char> {
    if ollama_running && flask_running {
        "All services started successfully"@
    } else {
        "Some services failed to start"@
    }
}

pub open spec fn state_word(up: bool) -> Seq<char> {
    if up {
        "Running"@
    } else {
        "Stopped"@
    }
}

/// Per-service listing reported by an on-demand status query: the services'
/// names, then their states in the same order.
pub open spec fn status_line(ollama_running: bool, flask_running: bool) -> Seq<char> {
    "Flask, Ollama: "@ + state_word(flask_running) + ", "@ + state_word(ollama_running)
}

/// Status after bring-up, with the all-or-nothing sentence.
pub fn summarize_startup(ollama_running: bool, flask_running: bool) -> (r: ServiceStatus)
    ensures
        r.ollama_running == ollama_running,
        r.flask_running == flask_running,
        r.message@ == startup_message(ollama_running, flask_running),
{
    let message = if ollama_running && flask_running {
        String::from_str("All services started successfully")
    } else {
        String::from_str("Some services failed to start")
    };
    ServiceStatus { flask_running, ollama_running, message }
}

fn state_name(up: bool) -> (r: &'static str)
    ensures
        r@ == state_word(up),
{
    if up {
        "Running"
    } else {
        "Stopped"
    }
}

/// Status for an on-demand query, with one state word per service.
pub fn summarize_status(ollama_running: bool, flask_running: bool) -> (r: ServiceStatus)
    ensures
        r.ollama_running == ollama_running,
        r.flask_running == flask_running,
        r.message@ == status_line(ollama_running, flask_running),
{
    let mut message = String::from_str("Flask, Ollama: ");
    message.append(state_name(flask_running));
    message.append(", ");
    message.append(state_name(ollama_running));
    ServiceStatus { flask_running, ollama_running, message }
}

} // verus!
