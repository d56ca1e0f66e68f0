use backend_bridge::data::{AppConfig, LogEntry, ProgressData, StatusReport, VerificationReport};
use backend_bridge::facade::{
    health_report, load_config_report, save_config_report, start_update_report, FetchOutcome,
    HttpOutcome,
};
use backend_bridge::poller::{PollEvent, PollOutcome, PollRun, UiEvent};
use backend_bridge::supervisor::{
    KillOutcome, ProbeResult, ProcessHandle, SpawnOutcome, StartAction, StopAction, Supervisor,
};

fn entry(message: &str, log_type: &str) -> LogEntry {
    LogEntry { message: message.to_string(), log_type: log_type.to_string() }
}

fn sample_report() -> StatusReport {
    StatusReport {
        updated: vec!["a.bin".to_string(), "b.bin".to_string()],
        skipped: vec!["c.bin".to_string()],
        failed: vec![],
        verification: VerificationReport {
            verified: vec!["a.bin".to_string()],
            corrupted: vec!["b.bin".to_string()],
        },
    }
}

fn snapshot(
    progress: usize,
    total: usize,
    logs: Vec<LogEntry>,
    completed: bool,
    error: Option<String>,
    status_report: Option<StatusReport>,
) -> ProgressData {
    ProgressData { progress, total, logs, completed, error, status_report }
}

#[test]
fn start_twice_reports_already_running() {
    let mut sup = Supervisor::new();

    let action = sup.start_check(None);
    assert_eq!(action, StartAction::ShouldSpawn);
    let r = sup.finish_start(action, Some(SpawnOutcome::Spawned(ProcessHandle { id: 1 })));
    assert_eq!(r, Ok("Backend started successfully".to_string()));

    // Second start without an intervening stop: the probe finds the
    // process still running; no second handle is spawned.
    let action = sup.start_check(Some(ProbeResult::Running));
    assert_eq!(action, StartAction::AlreadyRunning);
    let r = sup.finish_start(action, None);
    assert_eq!(r, Ok("Backend already running".to_string()));
}

#[test]
fn start_after_exit_spawns_again() {
    let mut sup = Supervisor::new();
    let action = sup.start_check(None);
    let _ = sup.finish_start(action, Some(SpawnOutcome::Spawned(ProcessHandle { id: 1 })));

    // The occupant exited: the slot is cleared and a new spawn is asked for.
    let action = sup.start_check(Some(ProbeResult::Exited));
    assert_eq!(action, StartAction::ShouldSpawn);
    let r = sup.finish_start(action, Some(SpawnOutcome::Spawned(ProcessHandle { id: 2 })));
    assert_eq!(r, Ok("Backend started successfully".to_string()));
}

#[test]
fn start_after_failed_probe_spawns_again() {
    let mut sup = Supervisor::new();
    let action = sup.start_check(None);
    let _ = sup.finish_start(action, Some(SpawnOutcome::Spawned(ProcessHandle { id: 1 })));

    let action = sup.start_check(Some(ProbeResult::ProbeFailed));
    assert_eq!(action, StartAction::ShouldSpawn);
}

#[test]
fn failed_spawn_reports_error_and_leaves_slot_empty() {
    let mut sup = Supervisor::new();
    let action = sup.start_check(None);
    let r = sup.finish_start(
        action,
        Some(SpawnOutcome::SpawnFailed("No such file or directory".to_string())),
    );
    assert_eq!(r, Err("Failed to start backend: No such file or directory".to_string()));

    // The slot stayed empty: the next start needs no probe and spawns.
    let action = sup.start_check(None);
    assert_eq!(action, StartAction::ShouldSpawn);
}

#[test]
fn stop_twice_reports_stopped_then_was_not_running() {
    let mut sup = Supervisor::new();
    let action = sup.start_check(None);
    let _ = sup.finish_start(action, Some(SpawnOutcome::Spawned(ProcessHandle { id: 9 })));

    let action = sup.stop_take();
    assert_eq!(action, StopAction::Terminate(ProcessHandle { id: 9 }));
    let r = Supervisor::stop_report(Some(KillOutcome::Killed));
    assert_eq!(r, Ok("Backend stopped".to_string()));

    // Second stop: nothing is running, and that is not an error.
    let action = sup.stop_take();
    assert_eq!(action, StopAction::WasNotRunning);
    let r = Supervisor::stop_report(None);
    assert_eq!(r, Ok("Backend was not running".to_string()));
}

#[test]
fn failed_kill_reports_error() {
    let r = Supervisor::stop_report(Some(KillOutcome::KillFailed("Operation not permitted".to_string())));
    assert_eq!(r, Err("Failed to stop backend: Operation not permitted".to_string()));
}

#[test]
fn log_delta_sequence_0_2_2_5() {
    // Logs grow 0 -> 2 -> 2 -> 5 across polls: exactly 2, then 0, then 3
    // log events, in original order, no duplicates, no drops.
    let mut run = PollRun::new();

    let (events, outcome) = run.poll_step(PollEvent::Snapshot(snapshot(
        0, 5, vec![], false, None, None,
    )));
    assert_eq!(events, vec![UiEvent::Progress { progress: 0, total: 5 }]);
    assert_eq!(outcome, PollOutcome::KeepPolling);

    let (events, outcome) = run.poll_step(PollEvent::Snapshot(snapshot(
        1,
        5,
        vec![entry("l0", "info"), entry("l1", "warn")],
        false,
        None,
        None,
    )));
    assert_eq!(
        events,
        vec![
            UiEvent::Progress { progress: 1, total: 5 },
            UiEvent::Log(entry("l0", "info")),
            UiEvent::Log(entry("l1", "warn")),
        ]
    );
    assert_eq!(outcome, PollOutcome::KeepPolling);

    // Same length again: nothing is re-delivered.
    let (events, outcome) = run.poll_step(PollEvent::Snapshot(snapshot(
        2,
        5,
        vec![entry("l0", "info"), entry("l1", "warn")],
        false,
        None,
        None,
    )));
    assert_eq!(events, vec![UiEvent::Progress { progress: 2, total: 5 }]);
    assert_eq!(outcome, PollOutcome::KeepPolling);

    let (events, outcome) = run.poll_step(PollEvent::Snapshot(snapshot(
        3,
        5,
        vec![
            entry("l0", "info"),
            entry("l1", "warn"),
            entry("l2", "info"),
            entry("l3", "error"),
            entry("l4", "info"),
        ],
        false,
        None,
        None,
    )));
    assert_eq!(
        events,
        vec![
            UiEvent::Progress { progress: 3, total: 5 },
            UiEvent::Log(entry("l2", "info")),
            UiEvent::Log(entry("l3", "error")),
            UiEvent::Log(entry("l4", "info")),
        ]
    );
    assert_eq!(outcome, PollOutcome::KeepPolling);
}

#[test]
fn shrunken_log_sequence_delivers_nothing_new() {
    let mut run = PollRun::new();
    let _ = run.poll_step(PollEvent::Snapshot(snapshot(
        1,
        2,
        vec![entry("a", "info"), entry("b", "info")],
        false,
        None,
        None,
    )));
    // A shorter sequence than already delivered: no log events.
    let (events, _) = run.poll_step(PollEvent::Snapshot(snapshot(
        2,
        2,
        vec![entry("a", "info")],
        false,
        None,
        None,
    )));
    assert_eq!(events, vec![UiEvent::Progress { progress: 2, total: 2 }]);
}

#[test]
fn terminal_with_report_and_error_emits_both() {
    let mut run = PollRun::new();
    let (events, outcome) = run.poll_step(PollEvent::Snapshot(snapshot(
        5,
        5,
        vec![],
        true,
        Some("two files corrupted".to_string()),
        Some(sample_report()),
    )));
    assert_eq!(
        events,
        vec![
            UiEvent::Progress { progress: 5, total: 5 },
            UiEvent::Complete(sample_report()),
            UiEvent::UpdateError("two files corrupted".to_string()),
        ]
    );
    // Terminal: the run ends, no further poll occurs.
    assert_eq!(outcome, PollOutcome::Finished);
}

#[test]
fn terminal_with_neither_report_nor_error() {
    let mut run = PollRun::new();
    let (events, outcome) = run.poll_step(PollEvent::Snapshot(snapshot(
        4, 4, vec![], true, None, None,
    )));
    assert_eq!(events, vec![UiEvent::Progress { progress: 4, total: 4 }]);
    assert_eq!(outcome, PollOutcome::Finished);
}

#[test]
fn terminal_with_error_only() {
    let mut run = PollRun::new();
    let (events, outcome) = run.poll_step(PollEvent::Snapshot(snapshot(
        1,
        4,
        vec![],
        true,
        Some("update aborted".to_string()),
        None,
    )));
    assert_eq!(
        events,
        vec![
            UiEvent::Progress { progress: 1, total: 4 },
            UiEvent::UpdateError("update aborted".to_string()),
        ]
    );
    assert_eq!(outcome, PollOutcome::Finished);
}

#[test]
fn unreachable_first_poll_emits_nothing_and_ends_run() {
    let mut run = PollRun::new();
    let (events, outcome) = run.poll_step(PollEvent::Unreachable);
    assert_eq!(events, Vec::<UiEvent>::new());
    assert_eq!(outcome, PollOutcome::ConnectionLost);
}

#[test]
fn undecodable_status_emits_nothing_and_keeps_polling() {
    let mut run = PollRun::new();
    let (events, outcome) = run.poll_step(PollEvent::NoStatus);
    assert_eq!(events, Vec::<UiEvent>::new());
    assert_eq!(outcome, PollOutcome::KeepPolling);

    // The watermark was not touched: the next snapshot delivers from zero.
    let (events, _) = run.poll_step(PollEvent::Snapshot(snapshot(
        1,
        3,
        vec![entry("a", "info")],
        false,
        None,
        None,
    )));
    assert_eq!(
        events,
        vec![UiEvent::Progress { progress: 1, total: 3 }, UiEvent::Log(entry("a", "info"))]
    );
}

#[test]
fn progress_scenario_exact_event_order() {
    // {progress:1,total:5,logs:["a"],completed:false} then
    // {progress:5,total:5,logs:["a","b"],completed:true,status_report:{..}}
    let mut run = PollRun::new();

    let (events, outcome) = run.poll_step(PollEvent::Snapshot(snapshot(
        1,
        5,
        vec![entry("a", "info")],
        false,
        None,
        None,
    )));
    assert_eq!(
        events,
        vec![UiEvent::Progress { progress: 1, total: 5 }, UiEvent::Log(entry("a", "info"))]
    );
    assert_eq!(outcome, PollOutcome::KeepPolling);

    let (events, outcome) = run.poll_step(PollEvent::Snapshot(snapshot(
        5,
        5,
        vec![entry("a", "info"), entry("b", "info")],
        true,
        None,
        Some(sample_report()),
    )));
    assert_eq!(
        events,
        vec![
            UiEvent::Progress { progress: 5, total: 5 },
            UiEvent::Log(entry("b", "info")),
            UiEvent::Complete(sample_report()),
        ]
    );
    assert_eq!(outcome, PollOutcome::Finished);
}

#[test]
fn channel_names_match_the_ui_contract() {
    assert_eq!(
        UiEvent::Progress { progress: 1, total: 2 }.channel_name(),
        "update_progress"
    );
    assert_eq!(UiEvent::Log(entry("a", "info")).channel_name(), "log_message");
    assert_eq!(UiEvent::Complete(sample_report()).channel_name(), "update_complete");
    assert_eq!(UiEvent::UpdateError("boom".to_string()).channel_name(), "update_error");
}

#[test]
fn fixed_base_address() {
    assert_eq!(backend_bridge::facade::base_url(), "http://localhost:8080");
}

#[test]
fn health_report_coerces_to_bool() {
    assert!(health_report(Some(200)));
    assert!(health_report(Some(204)));
    assert!(health_report(Some(299)));
    assert!(!health_report(Some(300)));
    assert!(!health_report(Some(199)));
    assert!(!health_report(Some(404)));
    assert!(!health_report(Some(500)));
    // Transport failure never surfaces as an error: it is just "down".
    assert!(!health_report(None));
}

fn sample_config() -> AppConfig {
    AppConfig {
        server_url: "http://localhost:8080".to_string(),
        target_folder: "/srv/game".to_string(),
        file_list_url: "http://files.example/list.json".to_string(),
        download_speed_limit: 1048576,
    }
}

#[test]
fn config_round_trip_is_field_for_field() {
    let saved = sample_config();
    // What a save hands the service: the configuration itself, unchanged.
    let wire = saved.duplicate();
    assert_eq!(wire, saved);
    // A service that echoes state hands the same value back to the load.
    let loaded = load_config_report(FetchOutcome::Fetched(wire)).unwrap();
    assert_eq!(loaded, saved);
}

#[test]
fn load_config_maps_failures_to_messages() {
    let r = load_config_report(FetchOutcome::DecodeFailed("missing field".to_string()));
    assert_eq!(r, Err("Failed to parse config: missing field".to_string()));
    let r = load_config_report(FetchOutcome::Unreached("connection refused".to_string()));
    assert_eq!(r, Err("Failed to load config: connection refused".to_string()));
}

#[test]
fn save_config_reports() {
    assert_eq!(
        save_config_report(HttpOutcome::Response(200)),
        Ok("Configuration saved".to_string())
    );
    assert_eq!(
        save_config_report(HttpOutcome::Response(500)),
        Err("Failed to save configuration".to_string())
    );
    assert_eq!(
        save_config_report(HttpOutcome::TransportFailed("timed out".to_string())),
        Err("Failed to save config: timed out".to_string())
    );
}

#[test]
fn start_update_launches_poller_exactly_on_success() {
    let (r, launch) = start_update_report(HttpOutcome::Response(200));
    assert_eq!(r, Ok("Update started".to_string()));
    assert!(launch);

    let (r, launch) = start_update_report(HttpOutcome::Response(503));
    assert_eq!(r, Err("Failed to start update".to_string()));
    assert!(!launch);

    let (r, launch) = start_update_report(HttpOutcome::TransportFailed("timed out".to_string()));
    assert_eq!(r, Err("Failed to start update: timed out".to_string()));
    assert!(!launch);
}
