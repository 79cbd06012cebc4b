use std::time::Duration;

use tunnel_core::event::ConnectionState;
use tunnel_core::launcher::{build_args, TunnelConfig, TunnelMode};
use tunnel_core::registry::CloudflareManager;
use tunnel_core::supervisor::Supervisor;

fn quick_config(id: &str, port: u16) -> TunnelConfig {
    TunnelConfig { id: id.to_string(), mode: TunnelMode::Quick, local_port: port }
}

#[test]
fn connect_then_status_active() {
    let mut mgr = CloudflareManager::new();
    assert_eq!(mgr.get_status("a"), "inactive");
    let _cancel = mgr.connect(&quick_config("a", 8000));
    assert_eq!(mgr.get_status("a"), "active");
    assert_eq!(mgr.get_status("b"), "inactive");
}

#[test]
fn connect_twice_leaves_one_supervisor_with_second_config() {
    let mut mgr = CloudflareManager::new();
    let first = mgr.connect(&quick_config("a", 8000));
    let second_config = quick_config("a", 9000);
    let _second = mgr.connect(&second_config);
    assert_eq!(mgr.get_status("a"), "active");
    // The replaced supervisor's signal was fired: its pending permit is
    // observed at once by the next wait.
    let rt = tokio::runtime::Builder::new_current_thread().enable_time().build().unwrap();
    rt.block_on(async {
        tokio::time::timeout(Duration::from_secs(5), first.notified())
            .await
            .expect("the replaced tunnel's cancellation must already be pending");
    });
    // Any spawn after the replacement uses the second configuration's
    // arguments.
    let (sup, _) = Supervisor::new(second_config);
    assert_eq!(
        build_args(&sup.config),
        vec!["tunnel", "--url", "http://localhost:9000"]
    );
    // After disconnecting the id once, nothing is left for it.
    mgr.disconnect("a");
    assert_eq!(mgr.get_status("a"), "inactive");
}

#[test]
fn disconnect_unknown_id_is_a_no_op() {
    let mut mgr = CloudflareManager::new();
    let _cancel = mgr.connect(&quick_config("a", 8000));
    mgr.disconnect("missing");
    assert_eq!(mgr.get_status("a"), "active");
    assert_eq!(mgr.get_status("missing"), "inactive");
}

#[test]
fn disconnect_fires_the_signal() {
    let mut mgr = CloudflareManager::new();
    let cancel = mgr.connect(&quick_config("a", 8000));
    mgr.disconnect("a");
    assert_eq!(mgr.get_status("a"), "inactive");
    let rt = tokio::runtime::Builder::new_current_thread().enable_time().build().unwrap();
    rt.block_on(async {
        tokio::time::timeout(Duration::from_secs(5), cancel.notified())
            .await
            .expect("disconnect must leave a pending cancellation permit");
    });
}

#[test]
fn disconnect_all_clears_every_tunnel() {
    let mut mgr = CloudflareManager::new();
    let ca = mgr.connect(&quick_config("a", 8000));
    let cb = mgr.connect(&quick_config("b", 8001));
    mgr.disconnect_all();
    assert_eq!(mgr.get_status("a"), "inactive");
    assert_eq!(mgr.get_status("b"), "inactive");
    let rt = tokio::runtime::Builder::new_current_thread().enable_time().build().unwrap();
    rt.block_on(async {
        tokio::time::timeout(Duration::from_secs(5), ca.notified()).await.expect("a cancelled");
        tokio::time::timeout(Duration::from_secs(5), cb.notified()).await.expect("b cancelled");
    });
}

#[test]
fn wire_names_are_lowercase() {
    assert_eq!(ConnectionState::Connecting.wire_name(), "connecting");
    assert_eq!(ConnectionState::Connected.wire_name(), "connected");
    assert_eq!(ConnectionState::Error.wire_name(), "error");
    assert_eq!(ConnectionState::Reconnecting.wire_name(), "reconnecting");
    assert_eq!(ConnectionState::Disconnected.wire_name(), "disconnected");
}
