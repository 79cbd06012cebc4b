use tunnel_core::event::{ConnectionState, StatusEvent};
use tunnel_core::launcher::{build_args, LaunchError, TunnelConfig, TunnelMode};
use tunnel_core::supervisor::{ExitOutcome, SupAction, SupEvent, Supervisor, RETRY_DELAY_SECS};

fn quick_config(id: &str, port: u16) -> TunnelConfig {
    TunnelConfig { id: id.to_string(), mode: TunnelMode::Quick, local_port: port }
}

fn statuses(evs: &[StatusEvent]) -> Vec<ConnectionState> {
    evs.iter().map(|e| e.status).collect()
}

fn messages(evs: &[StatusEvent]) -> Vec<String> {
    evs.iter().map(|e| e.message.clone().unwrap_or_default()).collect()
}

#[test]
fn quick_args_exact() {
    let args = build_args(&quick_config("t", 8080));
    assert_eq!(args, vec!["tunnel", "--url", "http://localhost:8080"]);
}

#[test]
fn named_args_exact() {
    let c = TunnelConfig {
        id: "t".to_string(),
        mode: TunnelMode::Named("tok123".to_string()),
        local_port: 8080,
    };
    assert_eq!(build_args(&c), vec!["tunnel", "run", "--token", "tok123"]);
}

#[test]
fn named_with_empty_token_degrades_to_quick() {
    let c = TunnelConfig {
        id: "t".to_string(),
        mode: TunnelMode::Named(String::new()),
        local_port: 9001,
    };
    assert_eq!(build_args(&c), vec!["tunnel", "--url", "http://localhost:9001"]);
}

#[test]
fn startup_emits_connecting_sequence() {
    let (mut sup, evs) = Supervisor::new(quick_config("t1", 8080));
    assert_eq!(statuses(&evs), vec![ConnectionState::Connecting]);
    assert_eq!(messages(&evs), vec!["Starting tunnel..."]);
    let (evs, act) = sup.step(SupEvent::LaunchOk);
    assert_eq!(act, SupAction::Monitor);
    assert_eq!(
        messages(&evs),
        vec!["Connecting to port 8080...", "Authenticating..."]
    );
    assert_eq!(
        statuses(&evs),
        vec![ConnectionState::Connecting, ConnectionState::Connecting]
    );
}

#[test]
fn binary_not_found_is_distinguished() {
    let (mut sup, _) = Supervisor::new(quick_config("t1", 8080));
    let (evs, act) = sup.step(SupEvent::LaunchFailed(LaunchError::BinaryNotFound));
    assert_eq!(act, SupAction::Sleep);
    assert_eq!(evs.len(), 2);
    assert_eq!(evs[0].status, ConnectionState::Error);
    let msg = evs[0].message.as_deref().unwrap();
    assert!(msg.contains("not found"));
    assert!(msg.contains("install"));
    assert_eq!(evs[1].status, ConnectionState::Reconnecting);
    assert_eq!(evs[1].message.as_deref(), Some("Retrying in 5s..."));
    assert_eq!(RETRY_DELAY_SECS, 5);
}

#[test]
fn other_launch_failure_reports_os_error() {
    let (mut sup, _) = Supervisor::new(quick_config("t1", 8080));
    let (evs, _) = sup.step(SupEvent::LaunchFailed(LaunchError::Other(
        "permission denied".to_string(),
    )));
    let msg = evs[0].message.as_deref().unwrap();
    assert_eq!(msg, "Failed to start: permission denied");
    assert!(!msg.contains("not found"));
}

#[test]
fn nonzero_exit_reports_code() {
    let (mut sup, _) = Supervisor::new(quick_config("t1", 8080));
    sup.step(SupEvent::LaunchOk);
    let (evs, act) = sup.step(SupEvent::Exited(ExitOutcome::Code(1)));
    assert_eq!(act, SupAction::Sleep);
    assert_eq!(evs[0].status, ConnectionState::Error);
    assert_eq!(evs[0].message.as_deref(), Some("Exited code: 1"));
    assert_eq!(evs[1].status, ConnectionState::Reconnecting);
}

#[test]
fn zero_exit_closes_normally() {
    let (mut sup, _) = Supervisor::new(quick_config("t1", 8080));
    sup.step(SupEvent::LaunchOk);
    let (evs, act) = sup.step(SupEvent::Exited(ExitOutcome::Success));
    assert_eq!(act, SupAction::Sleep);
    assert_eq!(evs[0].status, ConnectionState::Disconnected);
    assert_eq!(evs[0].message.as_deref(), Some("Closed normally"));
}

#[test]
fn wait_error_is_surfaced_not_fatal() {
    let (mut sup, _) = Supervisor::new(quick_config("t1", 8080));
    sup.step(SupEvent::LaunchOk);
    let (evs, act) = sup.step(SupEvent::Exited(ExitOutcome::WaitFailed("gone".to_string())));
    assert_eq!(evs[0].status, ConnectionState::Error);
    assert_eq!(evs[0].message.as_deref(), Some("Wait error: gone"));
    assert_eq!(act, SupAction::Sleep);
}

#[test]
fn classified_lines_flow_through() {
    let (mut sup, _) = Supervisor::new(quick_config("t1", 8080));
    sup.step(SupEvent::LaunchOk);
    let (evs, act) = sup.step(SupEvent::StderrLine(
        "INF Registered tunnel connection".to_string(),
    ));
    assert_eq!(act, SupAction::Monitor);
    assert_eq!(evs[0].status, ConnectionState::Connected);
    assert_eq!(evs[0].message.as_deref(), Some("Tunnel established"));
    let (evs, _) = sup.step(SupEvent::StderrLine("noise".to_string()));
    assert!(evs.is_empty());
}

#[test]
fn detected_url_is_retained_for_later_events() {
    let (mut sup, _) = Supervisor::new(quick_config("t1", 8080));
    sup.step(SupEvent::LaunchOk);
    let (evs, _) = sup.step(SupEvent::StderrLine(
        "INF https://abc.trycloudflare.com".to_string(),
    ));
    assert_eq!(evs[0].url.as_deref(), Some("https://abc.trycloudflare.com"));
    let (evs, _) = sup.step(SupEvent::StderrLine(
        "INF Registered tunnel connection".to_string(),
    ));
    assert_eq!(evs[0].url.as_deref(), Some("https://abc.trycloudflare.com"));
    let (evs, _) = sup.step(SupEvent::StderrLine("ERR something failed".to_string()));
    assert_eq!(evs[0].status, ConnectionState::Error);
    assert!(evs[0].url.is_none());
    let (evs, _) = sup.step(SupEvent::Exited(ExitOutcome::Code(2)));
    assert_eq!(evs[0].message.as_deref(), Some("Exited code: 2"));
    let (evs, _) = sup.step(SupEvent::RetryElapsed);
    assert_eq!(evs[0].message.as_deref(), Some("Starting tunnel..."));
    // A new process run starts with no retained URL.
    let (evs, _) = sup.step(SupEvent::LaunchOk);
    assert!(evs[0].url.is_none());
    let (evs, _) = sup.step(SupEvent::StderrLine(
        "INF Registered tunnel connection".to_string(),
    ));
    assert!(evs[0].url.is_none());
}

#[test]
fn cancel_during_retry_wait_stops_for_good() {
    let (mut sup, _) = Supervisor::new(quick_config("t1", 8080));
    sup.step(SupEvent::LaunchFailed(LaunchError::BinaryNotFound));
    let (evs, act) = sup.step(SupEvent::Cancelled);
    assert_eq!(act, SupAction::Stop);
    assert_eq!(statuses(&evs), vec![ConnectionState::Disconnected]);
    assert_eq!(evs[0].message.as_deref(), Some("User disconnected"));
    // No further spawn and no further events, whatever is reported.
    let (evs, act) = sup.step(SupEvent::RetryElapsed);
    assert!(evs.is_empty());
    assert_eq!(act, SupAction::Stop);
    let (evs, act) = sup.step(SupEvent::LaunchOk);
    assert!(evs.is_empty());
    assert_eq!(act, SupAction::Stop);
}

#[test]
fn cancel_while_running_kills_the_child() {
    let (mut sup, _) = Supervisor::new(quick_config("t1", 8080));
    sup.step(SupEvent::LaunchOk);
    let (evs, act) = sup.step(SupEvent::Cancelled);
    assert_eq!(act, SupAction::StopProcess);
    assert_eq!(evs[0].message.as_deref(), Some("User disconnected"));
}

#[test]
fn repeated_cancellation_is_observed_once() {
    let (mut sup, _) = Supervisor::new(quick_config("t1", 8080));
    sup.step(SupEvent::LaunchOk);
    let (evs1, _) = sup.step(SupEvent::Cancelled);
    assert_eq!(evs1.len(), 1);
    let (evs2, act2) = sup.step(SupEvent::Cancelled);
    assert!(evs2.is_empty());
    assert_eq!(act2, SupAction::Stop);
    let (evs3, _) = sup.step(SupEvent::Cancelled);
    assert!(evs3.is_empty());
}
