use node_template::service::{
    babe_inherent_slot, new_partial_plan, remote_keystore, PartialPlan, ServiceError,
    TELEMETRY_BUFFER_SIZE,
};

#[test]
fn remote_keystore_is_refused() {
    assert_eq!(
        new_partial_plan(Some("ws://keystore"), Some(3)),
        Err(ServiceError::Other("Remote Keystores are not supported.".to_string()))
    );
    assert_eq!(remote_keystore("ws://keystore"), Err("Remote Keystore not supported."));
}

#[test]
fn telemetry_starts_only_with_endpoints() {
    assert_eq!(new_partial_plan(None, None), Ok(PartialPlan { telemetry_worker_buffer: None }));
    assert_eq!(new_partial_plan(None, Some(0)), Ok(PartialPlan { telemetry_worker_buffer: None }));
    assert_eq!(
        new_partial_plan(None, Some(2)),
        Ok(PartialPlan { telemetry_worker_buffer: Some(TELEMETRY_BUFFER_SIZE) })
    );
    assert_eq!(TELEMETRY_BUFFER_SIZE, 16);
}

#[test]
fn babe_slot_is_the_timestamp_over_the_duration() {
    assert_eq!(babe_inherent_slot(12_000, 6_000), 2);
    assert_eq!(babe_inherent_slot(11_999, 6_000), 1);
    assert_eq!(babe_inherent_slot(0, 3_000), 0);
    assert_eq!(babe_inherent_slot(1_700_000_000_000, 6_000), 283_333_333);
}
