use tunnel_manager::connect::run_connect;
use tunnel_manager::directory::{DirectoryCall, FakeDirectory};
use tunnel_manager::error::{TunnelError, UiError};
use tunnel_manager::machine::{ApiFailure, OpenedTunnel};
use tunnel_manager::plan::{plan_reconciliation, PlanAction};
use tunnel_manager::tunnel::{AccessTokenPair, TunnelDescriptor, TunnelStatus};

fn record(tunnel_id: &str, device_id: &str, status: TunnelStatus) -> TunnelDescriptor {
    TunnelDescriptor {
        tunnel_id: tunnel_id.to_string(),
        device_id: device_id.to_string(),
        status,
    }
}

fn tokens(source: &str, destination: &str) -> AccessTokenPair {
    AccessTokenPair {
        source_token: source.to_string(),
        destination_token: destination.to_string(),
    }
}

fn directory_with(tunnels: Result<Vec<TunnelDescriptor>, ApiFailure>) -> FakeDirectory {
    FakeDirectory {
        tunnels,
        open_response: Ok(OpenedTunnel {
            tunnel_id: "fresh-tunnel".to_string(),
            tokens: tokens("fresh-source", "fresh-dest"),
        }),
        rotate_response: Ok(tokens("rotated-source", "rotated-dest")),
        close_response: Ok(()),
        recovery_response: Ok(()),
        calls: Vec::new(),
    }
}

fn close_ids(calls: &[DirectoryCall]) -> Vec<String> {
    calls
        .iter()
        .filter_map(|c| match c {
            DirectoryCall::Close { tunnel_id } => Some(tunnel_id.clone()),
            _ => None,
        })
        .collect()
}

fn count_opens(calls: &[DirectoryCall]) -> usize {
    calls.iter().filter(|c| matches!(c, DirectoryCall::Open { .. })).count()
}

fn count_rotates(calls: &[DirectoryCall]) -> usize {
    calls.iter().filter(|c| matches!(c, DirectoryCall::Rotate { .. })).count()
}

fn count_recoveries(calls: &[DirectoryCall]) -> usize {
    calls.iter().filter(|c| matches!(c, DirectoryCall::Recovery)).count()
}

#[test]
fn fresh_device_opens_exactly_one_tunnel() {
    let mut dir = directory_with(Ok(Vec::new()));
    let lease = run_connect("G111070".to_string(), &mut dir).expect("connect should succeed");
    assert_eq!(lease.tunnel_id, "fresh-tunnel");
    assert_eq!(lease.source_token, "fresh-source");
    assert_eq!(count_opens(&dir.calls), 1);
    assert_eq!(count_rotates(&dir.calls), 0);
    assert!(close_ids(&dir.calls).is_empty());
}

#[test]
fn single_open_tunnel_is_rotated_not_reopened() {
    let mut dir = directory_with(Ok(vec![record("T9", "G111070", TunnelStatus::Open)]));
    let lease = run_connect("G111070".to_string(), &mut dir).expect("connect should succeed");
    assert_eq!(lease.tunnel_id, "T9");
    assert_eq!(lease.source_token, "rotated-source");
    assert_eq!(count_opens(&dir.calls), 0);
    assert_eq!(count_rotates(&dir.calls), 1);
    assert!(close_ids(&dir.calls).is_empty());
    assert!(matches!(
        dir.calls[1],
        DirectoryCall::Rotate { ref tunnel_id } if tunnel_id == "T9"
    ));
}

#[test]
fn stale_records_before_the_open_one_are_closed() {
    let mut dir = directory_with(Ok(vec![
        record("T1", "G111070", TunnelStatus::Closed),
        record("T2", "G111070", TunnelStatus::Unknown),
        record("T3", "G111070", TunnelStatus::Open),
        record("T4", "G111070", TunnelStatus::Closed),
    ]));
    let lease = run_connect("G111070".to_string(), &mut dir).expect("connect should succeed");
    assert_eq!(lease.tunnel_id, "T3");
    assert_eq!(close_ids(&dir.calls), vec!["T1".to_string(), "T2".to_string()]);
    assert_eq!(count_rotates(&dir.calls), 1);
    assert_eq!(count_opens(&dir.calls), 0);
    // The record after the first Open one is left untouched: no call names
    // it (the inherited ordering policy, kept deliberately).
    assert!(!close_ids(&dir.calls).contains(&"T4".to_string()));
}

#[test]
fn all_stale_records_are_closed_then_a_tunnel_is_opened() {
    let mut dir = directory_with(Ok(vec![
        record("T1", "G111070", TunnelStatus::Closed),
        record("T2", "G111070", TunnelStatus::Closed),
        record("T3", "G111070", TunnelStatus::Unknown),
    ]));
    let lease = run_connect("G111070".to_string(), &mut dir).expect("connect should succeed");
    assert_eq!(lease.tunnel_id, "fresh-tunnel");
    assert_eq!(
        close_ids(&dir.calls),
        vec!["T1".to_string(), "T2".to_string(), "T3".to_string()]
    );
    assert_eq!(count_opens(&dir.calls), 1);
    assert_eq!(count_rotates(&dir.calls), 0);
    // Ordering: list first, then the closes in list order, then the open.
    assert!(matches!(dir.calls[0], DirectoryCall::List { .. }));
    assert!(matches!(dir.calls[4], DirectoryCall::Open { .. }));
}

#[test]
fn auth_failure_runs_recovery_once_and_is_retryable() {
    let mut dir = directory_with(Err(ApiFailure::Authentication {
        detail: "dispatch failure".to_string(),
    }));
    let error = run_connect("G111070".to_string(), &mut dir).expect_err("connect must fail");
    assert_eq!(count_recoveries(&dir.calls), 1);
    assert_eq!(dir.calls.len(), 2);
    assert!(matches!(error, TunnelError::AwsAuth { .. }));
    let ui: UiError = error.into();
    assert!(ui.should_retry());
}

#[test]
fn auth_failure_with_failing_recovery_surfaces_the_recovery_error() {
    let mut dir = directory_with(Err(ApiFailure::Authentication {
        detail: "dispatch failure".to_string(),
    }));
    dir.recovery_response = Err("login flow failed".to_string());
    let error = run_connect("G111070".to_string(), &mut dir).expect_err("connect must fail");
    assert_eq!(count_recoveries(&dir.calls), 1);
    match error {
        TunnelError::AwsAuth { message } => assert_eq!(message, "login flow failed"),
        other => panic!("unexpected error: {:?}", other),
    }
}

#[test]
fn empty_device_id_fails_before_any_remote_call() {
    let mut dir = directory_with(Ok(vec![record("T1", "", TunnelStatus::Open)]));
    let error = run_connect(String::new(), &mut dir).expect_err("connect must fail");
    assert!(dir.calls.is_empty());
    assert!(matches!(error, TunnelError::InvalidDeviceId { .. }));
    let ui: UiError = error.into();
    assert!(matches!(ui, UiError::EmptyDeviceId));
    assert_eq!(ui.user_message(), "Please enter a device ID");
}

#[test]
fn end_to_end_fresh_device_gets_tunnel_t1() {
    let mut dir = directory_with(Ok(Vec::new()));
    dir.open_response = Ok(OpenedTunnel {
        tunnel_id: "T1".to_string(),
        tokens: tokens("T1-source", "T1-dest"),
    });
    let lease = run_connect("G111070".to_string(), &mut dir).expect("connect should succeed");
    assert_eq!(lease.tunnel_id, "T1");
    assert_eq!(lease.source_token, "T1-source");
    assert_eq!(dir.calls.len(), 2);
    assert!(matches!(dir.calls[0], DirectoryCall::List { ref device_id } if device_id == "G111070"));
    assert!(matches!(dir.calls[1], DirectoryCall::Open { ref device_id } if device_id == "G111070"));
}

#[test]
fn end_to_end_open_tunnel_t9_is_reused_with_rotated_token() {
    let mut dir = directory_with(Ok(vec![record("T9", "G111070", TunnelStatus::Open)]));
    dir.rotate_response = Ok(tokens("T9-new-source", "T9-new-dest"));
    let lease = run_connect("G111070".to_string(), &mut dir).expect("connect should succeed");
    assert_eq!(lease.tunnel_id, "T9");
    assert_eq!(lease.source_token, "T9-new-source");
    assert_eq!(count_opens(&dir.calls), 0);
    assert!(close_ids(&dir.calls).is_empty());
    assert_eq!(dir.calls.len(), 2);
}

#[test]
fn list_operation_failure_is_fatal() {
    let mut dir = directory_with(Err(ApiFailure::Operation {
        detail: "throttled".to_string(),
    }));
    let error = run_connect("G111070".to_string(), &mut dir).expect_err("connect must fail");
    assert_eq!(dir.calls.len(), 1);
    match &error {
        TunnelError::TunnelOperation { message } => {
            assert_eq!(message, "Failed to list tunnels: throttled")
        }
        other => panic!("unexpected error: {:?}", other),
    }
    let ui: UiError = error.into();
    assert!(!ui.should_retry());
}

#[test]
fn failed_close_aborts_the_whole_attempt() {
    let mut dir = directory_with(Ok(vec![
        record("T1", "G111070", TunnelStatus::Closed),
        record("T2", "G111070", TunnelStatus::Closed),
        record("T3", "G111070", TunnelStatus::Open),
    ]));
    dir.close_response = Err(ApiFailure::Operation {
        detail: "not permitted".to_string(),
    });
    let error = run_connect("G111070".to_string(), &mut dir).expect_err("connect must fail");
    // Only the first close is attempted; no rotation happens afterwards.
    assert_eq!(close_ids(&dir.calls), vec!["T1".to_string()]);
    assert_eq!(count_rotates(&dir.calls), 0);
    assert_eq!(count_opens(&dir.calls), 0);
    match error {
        TunnelError::TunnelOperation { message } => {
            assert_eq!(message, "Failed to close tunnel: not permitted")
        }
        other => panic!("unexpected error: {:?}", other),
    }
}

#[test]
fn failed_rotation_names_the_tunnel() {
    let mut dir = directory_with(Ok(vec![record("T9", "G111070", TunnelStatus::Open)]));
    dir.rotate_response = Err(ApiFailure::Operation {
        detail: "token expired".to_string(),
    });
    let error = run_connect("G111070".to_string(), &mut dir).expect_err("connect must fail");
    match error {
        TunnelError::TokenRotation { tunnel_id, message } => {
            assert_eq!(tunnel_id, "T9");
            assert_eq!(message, "token expired");
        }
        other => panic!("unexpected error: {:?}", other),
    }
}

#[test]
fn failed_open_is_reported() {
    let mut dir = directory_with(Ok(Vec::new()));
    dir.open_response = Err(ApiFailure::Operation {
        detail: "quota".to_string(),
    });
    let error = run_connect("G111070".to_string(), &mut dir).expect_err("connect must fail");
    match error {
        TunnelError::TunnelOperation { message } => {
            assert_eq!(message, "Failed to open tunnel: quota")
        }
        other => panic!("unexpected error: {:?}", other),
    }
}

#[test]
fn plan_for_empty_list_opens_new() {
    let plan = plan_reconciliation(&Vec::new());
    assert!(plan.closes.is_empty());
    assert!(matches!(plan.action, PlanAction::OpenNew));
}

#[test]
fn plan_rotates_first_open_and_closes_only_what_precedes_it() {
    let tunnels = vec![
        record("T1", "D", TunnelStatus::Closed),
        record("T2", "D", TunnelStatus::Open),
        record("T3", "D", TunnelStatus::Closed),
        record("T4", "D", TunnelStatus::Open),
    ];
    let plan = plan_reconciliation(&tunnels);
    assert_eq!(plan.closes, vec!["T1".to_string()]);
    assert!(matches!(plan.action, PlanAction::Rotate { ref tunnel_id } if tunnel_id == "T2"));
}

#[test]
fn plan_with_no_open_tunnel_closes_everything() {
    let tunnels = vec![
        record("T1", "D", TunnelStatus::Closed),
        record("T2", "D", TunnelStatus::Unknown),
    ];
    let plan = plan_reconciliation(&tunnels);
    assert_eq!(plan.closes, vec!["T1".to_string(), "T2".to_string()]);
    assert!(matches!(plan.action, PlanAction::OpenNew));
}
