use controller::error::OSLOError;
use controller::status::{DataSourceStatus, Status, StatusCondition, StatusReason, StatusType, Timestamp};

const AT: Timestamp = Timestamp { secs: 1_700_000_000, nanos: 5 };

#[test]
fn error_messages() {
    assert_eq!(OSLOError::PrometheusError("down".to_string()).to_string(), "Prometheus: down");
    assert_eq!(OSLOError::ProviderError("bad".to_string()).to_string(), "Provider: bad");
}

#[test]
fn connected_condition() {
    let c = StatusCondition::connected(Some(3), AT);
    assert_eq!(c.condition_type, StatusType::Ready);
    assert_eq!(c.status, Status::True);
    assert_eq!(c.reason, StatusReason::Connected);
    assert_eq!(c.message, "Connected successful");
    assert_eq!(c.observd_generation, Some(3));
    assert_eq!(c.last_transition_time, AT);
}

#[test]
fn not_connected_condition() {
    let err = OSLOError::PrometheusError("Connection error: refused".to_string());
    let c = StatusCondition::not_connected(&err, None, AT);
    assert_eq!(c.condition_type, StatusType::NotReady);
    assert_eq!(c.status, Status::True);
    assert_eq!(c.reason, StatusReason::CanNotConnect);
    assert_eq!(c.message, "Prometheus: Connection error: refused");
    assert_eq!(c.observd_generation, None);
}

#[test]
fn condition_for_check_outcome() {
    let ok = StatusCondition::for_check(&None, Some(2), AT);
    assert!(ok.is_ready());
    let failed = StatusCondition::for_check(&Some(OSLOError::ProviderError("x".to_string())), Some(2), AT);
    assert_eq!(failed.last_transition_time, AT);
    assert!(!failed.is_ready());
    assert_eq!(failed.message, "Provider: x");
}

fn down() -> StatusCondition {
    StatusCondition::not_connected(&OSLOError::PrometheusError("e".to_string()), Some(1), AT)
}

fn up() -> StatusCondition {
    StatusCondition::connected(Some(1), AT)
}

#[test]
fn first_check_writes_a_status() {
    let patch = DataSourceStatus::patch_after_check(&None, up()).unwrap();
    assert!(patch.connected);
    assert_eq!(patch.conditions.len(), 1);
    assert_eq!(patch.conditions[0].reason, StatusReason::Connected);
}

#[test]
fn change_keeps_the_previous_condition() {
    let current = Some(DataSourceStatus { conditions: vec![up(), up()], connected: true });
    let patch = DataSourceStatus::patch_after_check(&current, down()).unwrap();
    assert!(!patch.connected);
    assert_eq!(patch.conditions.len(), 2);
    assert_eq!(patch.conditions[0].reason, StatusReason::Connected);
    assert_eq!(patch.conditions[1].reason, StatusReason::CanNotConnect);
}

#[test]
fn unchanged_reachability_needs_no_patch() {
    let current = Some(DataSourceStatus { conditions: vec![down()], connected: false });
    assert!(DataSourceStatus::patch_after_check(&current, down()).is_none());
}

#[test]
fn status_update_settles() {
    let first = DataSourceStatus::patch_after_check(&None, down());
    assert!(first.is_some());
    assert!(DataSourceStatus::patch_after_check(&first, down()).is_none());
    let flipped = DataSourceStatus::patch_after_check(&first, up());
    assert!(flipped.is_some());
    assert!(DataSourceStatus::patch_after_check(&flipped, up()).is_none());
}
