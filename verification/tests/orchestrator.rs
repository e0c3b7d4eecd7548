use muradian::forwarder::{command_response, forward_response};
use muradian::greet;
use muradian::install::install_ollama;
use muradian::locator::{check_ollama_installed, default_candidates, Locator};
use muradian::outcome::CmdOutcome;
use muradian::setup::{
    classify_os, completion_notice, needs_presence_probe, starting_notice, OsFamily,
    SetupSequencer,
};

#[test]
fn greet_formats_the_name() {
    assert_eq!(greet("World"), "Hello, World! You've been greeted from Rust!");
    assert_eq!(greet(""), "Hello, ! You've been greeted from Rust!");
}

#[test]
fn candidate_list_is_fixed_and_ordered() {
    let c = default_candidates();
    assert_eq!(
        c,
        vec![
            "ollama".to_string(),
            "/usr/local/bin/ollama".to_string(),
            "/opt/homebrew/bin/ollama".to_string(),
        ]
    );
}

#[test]
fn locator_returns_first_successful_candidate() {
    // The first candidate fails its probe, the second succeeds: the
    // second is returned, and the third is never even offered.
    let mut loc = Locator::new(default_candidates());
    assert_eq!(loc.pending().map(String::as_str), Some("ollama"));
    loc.record_probe(false);
    assert_eq!(loc.pending().map(String::as_str), Some("/usr/local/bin/ollama"));
    loc.record_probe(true);
    assert_eq!(loc.pending(), None);
    assert_eq!(loc.located().map(String::as_str), Some("/usr/local/bin/ollama"));
}

#[test]
fn locator_stops_at_an_early_success() {
    let mut loc = Locator::new(default_candidates());
    loc.record_probe(true);
    assert_eq!(loc.pending(), None);
    assert_eq!(loc.located().map(String::as_str), Some("ollama"));
}

#[test]
fn locator_exhausts_all_failing_candidates() {
    let mut loc = Locator::new(default_candidates());
    let mut offered = Vec::new();
    while let Some(p) = loc.pending() {
        offered.push(p.clone());
        loc.record_probe(false);
    }
    assert_eq!(offered, default_candidates());
    assert_eq!(loc.located(), None);
    let located = loc.located().cloned();
    assert!(!check_ollama_installed(&located));
}

#[test]
fn status_check_reflects_the_locator() {
    assert!(check_ollama_installed(&Some("ollama".to_string())));
    assert!(!check_ollama_installed(&None));
}

#[test]
fn forwarder_reports_a_missing_tool() {
    // Whatever arguments the caller supplied, no located binary means
    // this one literal reply.
    assert_eq!(forward_response(&None), "Error: Ollama not found");
}

#[test]
fn forwarder_passes_stdout_through_unchanged() {
    let outcome = CmdOutcome::Success {
        stdout: "NAME  ID  SIZE\nweights  abc123  1.1 GB\n".to_string(),
    };
    assert_eq!(
        forward_response(&Some(outcome)),
        "NAME  ID  SIZE\nweights  abc123  1.1 GB\n"
    );
}

#[test]
fn forwarder_prefixes_stderr_on_nonzero_exit() {
    let outcome = CmdOutcome::ExitFailure {
        stderr: "unknown command \"frobnicate\"".to_string(),
    };
    let reply = forward_response(&Some(outcome));
    assert!(reply.starts_with("Error: "));
    assert_eq!(reply, "Error: unknown command \"frobnicate\"");
}

#[test]
fn forwarder_prefixes_a_launch_error() {
    let outcome = CmdOutcome::LaunchFailure {
        message: "No such file or directory (os error 2)".to_string(),
    };
    assert_eq!(
        command_response(&outcome),
        "Error: No such file or directory (os error 2)"
    );
}

#[test]
fn installer_launcher_always_reports_success() {
    assert!(install_ollama());
}

#[test]
fn os_identifiers_classify_into_families() {
    assert_eq!(classify_os("windows"), OsFamily::Windows);
    assert_eq!(classify_os("macos"), OsFamily::Unix);
    assert_eq!(classify_os("linux"), OsFamily::Unix);
    assert_eq!(classify_os("freebsd"), OsFamily::Other);
    assert_eq!(classify_os(""), OsFamily::Other);
}

#[test]
fn only_the_unix_family_probes_before_installing() {
    assert!(needs_presence_probe("macos"));
    assert!(needs_presence_probe("linux"));
    assert!(!needs_presence_probe("windows"));
    assert!(!needs_presence_probe("freebsd"));
}

#[test]
fn setup_refuses_an_unrecognized_os() {
    let r = SetupSequencer::new("freebsd", false);
    match r {
        Ok(_) => panic!("an unrecognized OS must be refused"),
        Err(e) => {
            assert_eq!(e, "Unsupported OS: freebsd");
            assert!(e.contains("freebsd"));
        }
    }
}

#[test]
fn windows_setup_installs_then_pulls() {
    let mut sq = SetupSequencer::new("windows", false).unwrap();
    let mut notices = Vec::new();

    let st = sq.current_stage().unwrap();
    notices.push(st.notice.clone());
    assert_eq!(st.program, "cmd");
    assert_eq!(st.args, vec!["/C".to_string(), "winget install -e --id Ollama.Ollama".to_string()]);
    assert!(sq.result().is_none());
    sq.record_outcome(&CmdOutcome::Success { stdout: String::new() });

    let st = sq.current_stage().unwrap();
    notices.push(st.notice.clone());
    assert_eq!(st.program, "cmd");
    assert_eq!(st.args, vec!["/C".to_string(), "ollama pull deepseek-r1:1.5b".to_string()]);
    assert!(sq.result().is_none());
    sq.record_outcome(&CmdOutcome::Success { stdout: String::new() });

    assert!(sq.current_stage().is_none());
    assert_eq!(sq.result(), Some(Ok("Success".to_string())));
    assert_eq!(
        notices,
        vec![
            "Installing Ollama (Windows)...".to_string(),
            "Pulling deepseek-r1:1.5b...".to_string(),
        ]
    );
}

#[test]
fn unix_setup_with_tool_present_skips_the_install_stage() {
    let mut sq = SetupSequencer::new("linux", true).unwrap();
    let st = sq.current_stage().unwrap();
    // The one and only stage is the model pull; no install command runs.
    assert_eq!(st.program, "ollama");
    assert_eq!(st.args, vec!["pull".to_string(), "deepseek-r1:1.5b".to_string()]);
    assert_eq!(
        st.notice,
        "Pulling Model: deepseek-r1:1.5b (this may take a while)..."
    );
    sq.record_outcome(&CmdOutcome::Success { stdout: String::new() });
    assert!(sq.current_stage().is_none());
    assert_eq!(sq.result(), Some(Ok("Success".to_string())));
}

#[test]
fn unix_setup_with_tool_absent_installs_first() {
    let mut sq = SetupSequencer::new("macos", false).unwrap();
    let st = sq.current_stage().unwrap();
    assert_eq!(st.program, "sh");
    assert_eq!(
        st.args,
        vec![
            "-c".to_string(),
            "curl -fsSL https://ollama.com/install.sh | sh".to_string(),
        ]
    );
    assert_eq!(st.notice, "Installing Ollama...");
    sq.record_outcome(&CmdOutcome::Success { stdout: String::new() });
    let st = sq.current_stage().unwrap();
    assert_eq!(st.program, "ollama");
    sq.record_outcome(&CmdOutcome::Success { stdout: String::new() });
    assert_eq!(sq.result(), Some(Ok("Success".to_string())));
}

#[test]
fn setup_halts_at_the_first_failing_stage() {
    let mut sq = SetupSequencer::new("windows", false).unwrap();
    assert!(sq.current_stage().is_some());
    sq.record_outcome(&CmdOutcome::ExitFailure {
        stderr: "winget: access denied".to_string(),
    });
    // No further stage is offered, and the reason carries the stderr.
    assert!(sq.current_stage().is_none());
    let err = match sq.result() {
        Some(Err(e)) => e,
        other => panic!("expected a failure, got {:?}", other.map(|r| r.is_ok())),
    };
    assert_eq!(err, "Command failed: winget: access denied");
    assert!(err.contains("winget: access denied"));
}

#[test]
fn setup_records_a_launch_failure_with_the_program_name() {
    let mut sq = SetupSequencer::new("linux", true).unwrap();
    sq.record_outcome(&CmdOutcome::LaunchFailure {
        message: "No such file or directory (os error 2)".to_string(),
    });
    assert!(sq.current_stage().is_none());
    assert_eq!(
        sq.result(),
        Some(Err(
            "Failed to run ollama: No such file or directory (os error 2)".to_string()
        ))
    );
}

#[test]
fn setup_notices_are_fixed_literals() {
    assert_eq!(starting_notice(), "Starting setup...");
    assert_eq!(completion_notice(), "Setup Complete!");
}
