use kuken_installer::Mode;
use kuken_installer::pipeline::{Action, Event, InstallError, Pipeline};
use kuken_installer::probe::{HealthReport, ProbeIssue, ProbeOutcome, ProbeResponse, classify_probe};

fn cmd_ok() -> Event {
    Event::CommandFinished { success: true, diagnostic: String::new() }
}

fn cmd_fail(diag: &str) -> Event {
    Event::CommandFinished { success: false, diagnostic: diag.to_string() }
}

/// Drives a fresh pipeline up to the point where the probe outcome is
/// delivered, with the given mode and supplied URL.
fn drive_to_probe(mode: Mode, api_url: &str) -> Pipeline {
    let mut p = Pipeline::new(mode, Some(api_url.to_string()));
    let a = p.step(Event::InstallDirResolved(Some("/home/user/.kuken/web".to_string())));
    match a {
        Action::RunCheck { program, args } => {
            assert_eq!(program, "docker");
            assert_eq!(args, vec!["--version".to_string()]);
        }
        _ => panic!("expected the runtime version query"),
    }
    let a = p.step(Event::RuntimeVersionChecked(true));
    match a {
        Action::RunCheck { program, args } => {
            assert_eq!(program, "docker");
            assert_eq!(args, vec!["info".to_string()]);
        }
        _ => panic!("expected the runtime daemon query"),
    }
    let a = p.step(Event::RuntimeDaemonChecked(true));
    match a {
        Action::RunProbe { url, timeout_secs } => {
            assert_eq!(url, api_url);
            assert_eq!(timeout_secs, 5);
        }
        _ => panic!("expected the health probe"),
    }
    p
}

/// Drives the pipeline from the probe outcome to completion, checking
/// every emitted action, and returns the compose arguments.
fn drive_to_done(p: &mut Pipeline, outcome: ProbeOutcome, api_url: &str) -> Vec<String> {
    let a = p.step(Event::ProbeCompleted(outcome));
    match a {
        Action::PrepareDirectory { path } => assert_eq!(path, "/home/user/.kuken/web"),
        _ => panic!("expected the directory preparation"),
    }
    let a = p.step(Event::DirectoryPrepared(true));
    match a {
        Action::RunInDir { program, args, dir } => {
            assert_eq!(program, "git");
            assert_eq!(args, vec!["init".to_string()]);
            assert_eq!(dir, "/home/user/.kuken/web");
        }
        _ => panic!("expected the repository initialization"),
    }
    let a = p.step(cmd_ok());
    match a {
        Action::RunInDir { program, args, .. } => {
            assert_eq!(program, "git");
            assert_eq!(
                args,
                vec![
                    "remote".to_string(),
                    "add".to_string(),
                    "origin".to_string(),
                    "https://github.com/devnatan/kuken.git".to_string(),
                ]
            );
        }
        _ => panic!("expected the remote registration"),
    }
    let a = p.step(cmd_ok());
    match a {
        Action::RunInDir { program, args, .. } => {
            assert_eq!(program, "git");
            assert_eq!(
                args,
                vec!["config".to_string(), "core.sparseCheckout".to_string(), "true".to_string()]
            );
        }
        _ => panic!("expected the sparse-checkout enabling"),
    }
    let a = p.step(cmd_ok());
    match a {
        Action::WriteFileInDir { dir, relative_path, contents } => {
            assert_eq!(dir, "/home/user/.kuken/web");
            assert_eq!(relative_path, ".git/info/sparse-checkout");
            assert_eq!(contents, "web/*\n");
        }
        _ => panic!("expected the sparse specification write"),
    }
    let a = p.step(Event::SparseSpecWritten { success: true, diagnostic: String::new() });
    match a {
        Action::RunInDir { program, args, .. } => {
            assert_eq!(program, "git");
            assert_eq!(args, vec!["pull".to_string(), "origin".to_string(), "main".to_string()]);
        }
        _ => panic!("expected the pull"),
    }
    let a = p.step(cmd_ok());
    match a {
        Action::ListSubdirectory { dir, subdirectory } => {
            assert_eq!(dir, "/home/user/.kuken/web");
            assert_eq!(subdirectory, "web");
        }
        _ => panic!("expected the subdirectory listing"),
    }
    let a = p.step(Event::SubdirectoryListed {
        present: true,
        subdir_entries: vec![
            "index.html".to_string(),
            "package.json".to_string(),
            ".git".to_string(),
        ],
        root_entries: vec![".git".to_string(), "web".to_string()],
    });
    match a {
        Action::RelocateEntries { dir, subdirectory, entries } => {
            assert_eq!(dir, "/home/user/.kuken/web");
            assert_eq!(subdirectory, "web");
            assert_eq!(entries, vec!["index.html".to_string(), "package.json".to_string()]);
        }
        _ => panic!("expected the relocation"),
    }
    let a = p.step(Event::EntriesRelocated { success: true, diagnostic: String::new() });
    match a {
        Action::WriteFileInDir { dir, relative_path, contents } => {
            assert_eq!(dir, "/home/user/.kuken/web");
            assert_eq!(relative_path, ".env");
            assert_eq!(contents, format!("VITE_KUKEN_API={}\n", api_url));
        }
        _ => panic!("expected the environment file write"),
    }
    let a = p.step(Event::EnvFileWritten(true));
    let compose_args = match a {
        Action::RunInDir { program, args, dir } => {
            assert_eq!(program, "docker");
            assert_eq!(dir, "/home/user/.kuken/web");
            args
        }
        _ => panic!("expected the service startup"),
    };
    let a = p.step(cmd_ok());
    assert!(matches!(a, Action::Finish));
    compose_args
}

#[test]
fn production_run_completes_with_expected_actions() {
    let mut p = drive_to_probe(Mode::Production, "https://example.test");
    let healthy = ProbeOutcome::Healthy(HealthReport {
        organization_name: "Acme".to_string(),
        production: false,
        version: "1.2.3".to_string(),
    });
    let compose_args = drive_to_done(&mut p, healthy, "https://example.test");
    assert_eq!(
        compose_args,
        vec![
            "compose".to_string(),
            "-f".to_string(),
            "docker-compose.prod.yml".to_string(),
            "up".to_string(),
            "-d".to_string(),
        ]
    );
}

#[test]
fn dev_mode_selects_development_compose_definition() {
    let mut p = drive_to_probe(Mode::Development, "https://example.test");
    let healthy = ProbeOutcome::Healthy(HealthReport {
        organization_name: "Acme".to_string(),
        production: true,
        version: "9.9.9".to_string(),
    });
    let compose_args = drive_to_done(&mut p, healthy, "https://example.test");
    assert_eq!(
        compose_args,
        vec![
            "compose".to_string(),
            "-f".to_string(),
            "docker-compose.dev.yml".to_string(),
            "up".to_string(),
            "-d".to_string(),
        ]
    );
}

#[test]
fn unreachable_probe_still_completes() {
    let mut p = drive_to_probe(Mode::Production, "https://example.test");
    let unreachable = ProbeOutcome::Unreachable("connection refused".to_string());
    drive_to_done(&mut p, unreachable, "https://example.test");
}

#[test]
fn rerunning_install_yields_identical_actions() {
    for _ in 0..2 {
        let mut p = drive_to_probe(Mode::Production, "https://example.test");
        let unreachable = ProbeOutcome::Unreachable("connection refused".to_string());
        drive_to_done(&mut p, unreachable, "https://example.test");
    }
}

#[test]
fn probe_healthy_reports_exact_fields() {
    let outcome = classify_probe(ProbeResponse::Http {
        status: 200,
        body: Some(HealthReport {
            organization_name: "Acme".to_string(),
            production: false,
            version: "1.2.3".to_string(),
        }),
    });
    match outcome {
        ProbeOutcome::Healthy(report) => {
            assert_eq!(report.organization_name, "Acme");
            assert!(!report.production);
            assert_eq!(report.version, "1.2.3");
        }
        _ => panic!("expected a healthy outcome"),
    }
}

#[test]
fn probe_non_success_status_is_unexpected() {
    let outcome = classify_probe(ProbeResponse::Http { status: 404, body: None });
    match outcome {
        ProbeOutcome::Unexpected(ProbeIssue::UnexpectedStatus(status)) => assert_eq!(status, 404),
        _ => panic!("expected an unexpected-status outcome"),
    }
}

#[test]
fn probe_success_status_with_bad_body_is_unexpected() {
    let outcome = classify_probe(ProbeResponse::Http { status: 204, body: None });
    assert!(matches!(outcome, ProbeOutcome::Unexpected(ProbeIssue::MalformedPayload)));
}

#[test]
fn probe_transport_error_is_unreachable_with_cause() {
    let outcome = classify_probe(ProbeResponse::TransportError("connection refused".to_string()));
    match outcome {
        ProbeOutcome::Unreachable(cause) => assert_eq!(cause, "connection refused"),
        _ => panic!("expected an unreachable outcome"),
    }
}

#[test]
fn empty_supplied_url_rejected_before_any_fetch() {
    let mut p = Pipeline::new(Mode::Production, Some(String::new()));
    p.step(Event::InstallDirResolved(Some("/home/user/.kuken/web".to_string())));
    p.step(Event::RuntimeVersionChecked(true));
    let a = p.step(Event::RuntimeDaemonChecked(true));
    assert!(matches!(a, Action::Fail(InstallError::EmptyApiUrl)));
}

#[test]
fn empty_prompted_url_rejected() {
    let mut p = Pipeline::new(Mode::Production, None);
    p.step(Event::InstallDirResolved(Some("/home/user/.kuken/web".to_string())));
    p.step(Event::RuntimeVersionChecked(true));
    let a = p.step(Event::RuntimeDaemonChecked(true));
    match a {
        Action::PromptForApiUrl { default_value } => {
            assert_eq!(default_value, "https://example.com")
        }
        _ => panic!("expected the interactive prompt"),
    }
    let a = p.step(Event::ApiUrlEntered(String::new()));
    assert!(matches!(a, Action::Fail(InstallError::EmptyApiUrl)));
}

#[test]
fn prompted_url_is_used_for_probe_and_config() {
    let mut p = Pipeline::new(Mode::Production, None);
    p.step(Event::InstallDirResolved(Some("/home/user/.kuken/web".to_string())));
    p.step(Event::RuntimeVersionChecked(true));
    p.step(Event::RuntimeDaemonChecked(true));
    let a = p.step(Event::ApiUrlEntered("https://api.local".to_string()));
    match a {
        Action::RunProbe { url, .. } => assert_eq!(url, "https://api.local"),
        _ => panic!("expected the health probe"),
    }
    let unreachable = ProbeOutcome::Unreachable("timed out".to_string());
    drive_to_done(&mut p, unreachable, "https://api.local");
}

#[test]
fn missing_runtime_fails_before_any_directory_action() {
    let mut p = Pipeline::new(Mode::Production, Some("https://example.test".to_string()));
    p.step(Event::InstallDirResolved(Some("/home/user/.kuken/web".to_string())));
    let a = p.step(Event::RuntimeVersionChecked(false));
    assert!(matches!(a, Action::Fail(InstallError::RuntimeNotInstalled)));
}

#[test]
fn stopped_daemon_fails() {
    let mut p = Pipeline::new(Mode::Production, Some("https://example.test".to_string()));
    p.step(Event::InstallDirResolved(Some("/home/user/.kuken/web".to_string())));
    p.step(Event::RuntimeVersionChecked(true));
    let a = p.step(Event::RuntimeDaemonChecked(false));
    assert!(matches!(a, Action::Fail(InstallError::RuntimeNotRunning)));
}

#[test]
fn missing_home_directory_fails_first() {
    let mut p = Pipeline::new(Mode::Production, Some("https://example.test".to_string()));
    let a = p.step(Event::InstallDirResolved(None));
    assert!(matches!(a, Action::Fail(InstallError::HomeDirectoryUnavailable)));
}

#[test]
fn directory_preparation_failure_is_fatal() {
    let mut p = drive_to_probe(Mode::Production, "https://example.test");
    p.step(Event::ProbeCompleted(ProbeOutcome::Unreachable("down".to_string())));
    let a = p.step(Event::DirectoryPrepared(false));
    assert!(matches!(a, Action::Fail(InstallError::DirectoryError)));
}

#[test]
fn fetch_failure_carries_tool_diagnostic() {
    let mut p = drive_to_probe(Mode::Production, "https://example.test");
    p.step(Event::ProbeCompleted(ProbeOutcome::Unreachable("down".to_string())));
    p.step(Event::DirectoryPrepared(true));
    let a = p.step(cmd_fail("fatal: repository not found"));
    match a {
        Action::Fail(InstallError::FetchError(diag)) => {
            assert_eq!(diag, "fatal: repository not found")
        }
        _ => panic!("expected a fetch error"),
    }
}

#[test]
fn config_write_failure_is_fatal() {
    let mut p = drive_to_probe(Mode::Production, "https://example.test");
    p.step(Event::ProbeCompleted(ProbeOutcome::Unreachable("down".to_string())));
    p.step(Event::DirectoryPrepared(true));
    p.step(cmd_ok());
    p.step(cmd_ok());
    p.step(cmd_ok());
    p.step(Event::SparseSpecWritten { success: true, diagnostic: String::new() });
    p.step(cmd_ok());
    p.step(Event::SubdirectoryListed {
        present: false,
        subdir_entries: Vec::new(),
        root_entries: Vec::new(),
    });
    let a = p.step(Event::EnvFileWritten(false));
    assert!(matches!(a, Action::Fail(InstallError::ConfigWriteError)));
}

#[test]
fn launch_failure_carries_stderr() {
    let mut p = drive_to_probe(Mode::Production, "https://example.test");
    p.step(Event::ProbeCompleted(ProbeOutcome::Unreachable("down".to_string())));
    p.step(Event::DirectoryPrepared(true));
    p.step(cmd_ok());
    p.step(cmd_ok());
    p.step(cmd_ok());
    p.step(Event::SparseSpecWritten { success: true, diagnostic: String::new() });
    p.step(cmd_ok());
    p.step(Event::SubdirectoryListed {
        present: false,
        subdir_entries: Vec::new(),
        root_entries: Vec::new(),
    });
    p.step(Event::EnvFileWritten(true));
    let a = p.step(cmd_fail("no such service"));
    match a {
        Action::Fail(InstallError::LaunchError(diag)) => assert_eq!(diag, "no such service"),
        _ => panic!("expected a launch error"),
    }
}

#[test]
fn event_out_of_order_is_a_protocol_violation() {
    let mut p = Pipeline::new(Mode::Production, Some("https://example.test".to_string()));
    let a = p.step(Event::EnvFileWritten(true));
    assert!(matches!(a, Action::Fail(InstallError::ProtocolViolation)));
}

#[test]
fn absent_subdirectory_skips_relocation() {
    let mut p = drive_to_probe(Mode::Production, "https://example.test");
    p.step(Event::ProbeCompleted(ProbeOutcome::Unreachable("down".to_string())));
    p.step(Event::DirectoryPrepared(true));
    p.step(cmd_ok());
    p.step(cmd_ok());
    p.step(cmd_ok());
    p.step(Event::SparseSpecWritten { success: true, diagnostic: String::new() });
    p.step(cmd_ok());
    let a = p.step(Event::SubdirectoryListed {
        present: false,
        subdir_entries: Vec::new(),
        root_entries: Vec::new(),
    });
    match a {
        Action::WriteFileInDir { relative_path, contents, .. } => {
            assert_eq!(relative_path, ".env");
            assert_eq!(contents, "VITE_KUKEN_API=https://example.test\n");
        }
        _ => panic!("expected the environment file write"),
    }
}
