use maverick::domain::entities::device::{Device, DeviceClass, DeviceKeys, DeviceState};
use maverick::domain::entities::downlink::{Downlink, DownlinkPriority};
use maverick::domain::types::{AppKey, Eui64, Frequency, NwkKey, SpreadingFactor};
use maverick::error::DomainError;
use maverick::ports::{DownlinkState, QueuedDownlink};
use maverick::use_cases::device_management::{
    apply_device_update, create_device_decision, delete_device_decision, get_device_outcome,
    reason_code, update_device_decision, validate_update_command, CreateDeviceCommand, EventSource,
    OperationContext, UpdateDeviceCommand,
};
use maverick::use_cases::downlink_delivery_service::{
    delivery_step, failover_reason, next_gateway_candidate, send_failure_step, DeliveryConfig,
    DeliveryStep, FailureStep,
};
use maverick::use_cases::process_downlink_frame::{build_downlink, resolve_gateway_choice, DownlinkDraft};

fn sample_downlink(gateway: Eui64) -> Downlink {
    let mut downlink = Downlink::new(
        vec![0x01],
        10,
        Eui64::new([1, 2, 3, 4, 5, 6, 7, 8]),
        gateway,
        Frequency::new(868_100_000),
        SpreadingFactor::new(7).expect("spreading factor must be valid"),
        0,
        1,
    );
    downlink.scheduled_at = Some(0);
    downlink
}

fn queued(gateway: Eui64) -> QueuedDownlink {
    QueuedDownlink { id: 1, downlink: sample_downlink(gateway), state: DownlinkState::Queued, attempt_count: 0 }
}

#[test]
fn delivery_config_default_values() {
    let c = DeliveryConfig::default();
    assert_eq!(c.fetch_limit, 128);
    assert_eq!(c.schedule_delay_secs, 2);
    assert_eq!(c.retry_delay_secs, 3);
    assert_eq!(c.max_attempts, 3);
}

#[test]
fn queued_item_without_schedule_gets_now_plus_delay() {
    let c = DeliveryConfig::default();
    assert_eq!(
        delivery_step(DownlinkState::Queued, None, 100, &c),
        DeliveryStep::Schedule { scheduled_at: 102 }
    );
    assert_eq!(
        delivery_step(DownlinkState::Queued, Some(50), 100, &c),
        DeliveryStep::Schedule { scheduled_at: 50 }
    );
}

#[test]
fn scheduled_item_waits_until_due() {
    let c = DeliveryConfig::default();
    assert_eq!(delivery_step(DownlinkState::Scheduled, Some(101), 100, &c), DeliveryStep::Skip);
    assert_eq!(delivery_step(DownlinkState::Scheduled, Some(100), 100, &c), DeliveryStep::Send);
    assert_eq!(delivery_step(DownlinkState::Scheduled, None, 100, &c), DeliveryStep::Send);
    assert_eq!(delivery_step(DownlinkState::Sent, None, 100, &c), DeliveryStep::Skip);
    assert_eq!(delivery_step(DownlinkState::Failed, Some(0), 100, &c), DeliveryStep::Skip);
    assert!(!DeliveryStep::Skip.counts_as_processed());
    assert!(DeliveryStep::Send.counts_as_processed());
}

#[test]
fn two_passes_with_accepting_sender_deliver() {
    let c = DeliveryConfig { schedule_delay_secs: 0, ..DeliveryConfig::default() };
    let mut item = queued(Eui64::new([8, 7, 6, 5, 4, 3, 2, 1]));
    let now = 10;
    match delivery_step(item.state, item.downlink.scheduled_at, now, &c) {
        DeliveryStep::Schedule { scheduled_at } => item.mark_scheduled(scheduled_at),
        other => panic!("unexpected {other:?}"),
    }
    assert_eq!(item.state, DownlinkState::Scheduled);
    assert_eq!(delivery_step(item.state, item.downlink.scheduled_at, now, &c), DeliveryStep::Send);
    item.mark_sent();
    assert_eq!(item.state, DownlinkState::Sent);
}

#[test]
fn failing_sends_retry_then_fail() {
    let c = DeliveryConfig { schedule_delay_secs: 0, retry_delay_secs: 0, max_attempts: 2, ..DeliveryConfig::default() };
    let gw = Eui64::new([8, 7, 6, 5, 4, 3, 2, 1]);
    let mut item = queued(gw);
    let now = 5;
    for round in 0..2 {
        if let DeliveryStep::Schedule { scheduled_at } = delivery_step(item.state, item.downlink.scheduled_at, now, &c) {
            item.mark_scheduled(scheduled_at);
        }
        assert_eq!(delivery_step(item.state, item.downlink.scheduled_at, now, &c), DeliveryStep::Send);
        match send_failure_step(item.attempt_count, now, &c, &item.downlink.gateway_eui, &[]) {
            FailureStep::MarkFailed => {
                assert_eq!(round, 1);
                item.mark_failed();
            }
            FailureStep::Retry { retry_at, alternate } => {
                assert_eq!(round, 0);
                assert_eq!(retry_at, 5);
                assert!(alternate.is_none());
                item.mark_retry(retry_at, alternate);
            }
        }
    }
    assert_eq!(item.state, DownlinkState::Failed);
    assert!(item.attempt_count >= 2);
}

#[test]
fn failover_moves_to_first_other_healthy_gateway() {
    let c = DeliveryConfig { retry_delay_secs: 0, max_attempts: 3, ..DeliveryConfig::default() };
    let first = Eui64::new([8, 7, 6, 5, 4, 3, 2, 1]);
    let second = Eui64::new([9, 7, 6, 5, 4, 3, 2, 1]);
    let healthy = [first, second];
    let mut item = queued(first);
    item.mark_scheduled(0);
    match send_failure_step(item.attempt_count, 7, &c, &first, &healthy) {
        FailureStep::Retry { retry_at, alternate } => {
            assert_eq!(alternate, Some(second));
            item.mark_retry(retry_at, alternate);
        }
        FailureStep::MarkFailed => panic!("attempts are not used up"),
    }
    assert_eq!(item.state, DownlinkState::Queued);
    assert_eq!(item.downlink.gateway_eui, second);
    assert_eq!(item.attempt_count, 1);
    assert_eq!(next_gateway_candidate(&[first], &first), None);
    assert_eq!(next_gateway_candidate(&[], &first), None);
}

#[test]
fn failover_reason_names_both_gateways() {
    let a = Eui64::new([0xAA, 0xBB, 0xCC, 0xDD, 0xEE, 0xFF, 0x00, 0x11]);
    let b = Eui64::new([1, 2, 3, 4, 5, 6, 7, 8]);
    assert_eq!(
        failover_reason(&a, &b, "timeout"),
        "gateway AA:BB:CC:DD:EE:FF:00:11 -> 01:02:03:04:05:06:07:08: timeout"
    );
}

fn draft() -> DownlinkDraft {
    DownlinkDraft {
        payload: vec![0x01, 0x02],
        f_port: 10,
        dev_eui: Eui64::new([0x10; 8]),
        frequency: Frequency::new(868_100_000),
        spreading_factor: SpreadingFactor::new(7).expect("valid sf"),
        timestamp: 1,
        frame_counter: 1,
        priority: DownlinkPriority::High,
        scheduled_at: Some(42),
    }
}

#[test]
fn explicit_gateway_override_wins() {
    let over = Eui64::new([0xAB; 8]);
    let best = Eui64::new([0xCD; 8]);
    assert_eq!(resolve_gateway_choice(Some(over), Some(best)).unwrap(), over);
    assert_eq!(resolve_gateway_choice(None, Some(best)).unwrap(), best);
}

#[test]
fn no_healthy_gateway_is_an_invalid_state() {
    let err = resolve_gateway_choice(None, None).expect_err("must fail without healthy gateways");
    assert!(err.to_string().contains("no healthy gateways available for automatic selection"));
    assert!(matches!(err, DomainError::InvalidState { entity: "downlink", .. }));
}

#[test]
fn built_downlink_keeps_draft_fields() {
    let gw = Eui64::new([0x22; 8]);
    let d = build_downlink(draft(), gw);
    assert_eq!(d.gateway_eui, gw);
    assert_eq!(d.priority, DownlinkPriority::High);
    assert_eq!(d.scheduled_at, Some(42));
    assert_eq!(d.payload, vec![0x01, 0x02]);
    assert_eq!(d.f_port, 10);
}

fn create_command() -> CreateDeviceCommand {
    CreateDeviceCommand {
        dev_eui: Eui64::new([1, 2, 3, 4, 5, 6, 7, 8]),
        app_eui: Eui64::new([9; 8]),
        app_key: AppKey::new([1; 16]),
        nwk_key: NwkKey::new([2; 16]),
        class: DeviceClass::ClassC,
    }
}

fn empty_patch() -> UpdateDeviceCommand {
    UpdateDeviceCommand {
        dev_eui: Eui64::new([1, 2, 3, 4, 5, 6, 7, 8]),
        app_eui: None,
        app_key: None,
        nwk_key: None,
        class: None,
        state: None,
    }
}

#[test]
fn create_registers_or_refuses_duplicates() {
    let d = create_device_decision(create_command(), false).unwrap();
    assert_eq!(d.class, DeviceClass::ClassC);
    assert_eq!(d.state, DeviceState::Init);
    assert!(d.session.is_none());
    let err = create_device_decision(create_command(), true).unwrap_err();
    assert_eq!(err.to_string(), "device already exists: 01:02:03:04:05:06:07:08");
    assert_eq!(reason_code(&err), "device_already_exists");
}

#[test]
fn get_and_delete_report_missing_devices() {
    let eui = Eui64::new([1, 2, 3, 4, 5, 6, 7, 8]);
    let err = get_device_outcome(&eui, None).unwrap_err();
    assert_eq!(err.to_string(), "device not found: 01:02:03:04:05:06:07:08");
    assert_eq!(reason_code(&err), "device_not_found");
    assert!(delete_device_decision(&eui, true).is_ok());
    assert!(delete_device_decision(&eui, false).is_err());
}

#[test]
fn empty_patch_is_refused_before_lookup() {
    let err = validate_update_command(&empty_patch()).unwrap_err();
    assert_eq!(err.to_string(), "validation failed for patch: at least one field must be provided");
    assert_eq!(reason_code(&err), "validation_failed");
    assert!(update_device_decision(empty_patch(), None).is_err());
}

#[test]
fn patch_replaces_only_named_fields_and_is_idempotent() {
    let device = Device::new(
        Eui64::new([1, 2, 3, 4, 5, 6, 7, 8]),
        Eui64::new([9; 8]),
        DeviceKeys::new(AppKey::new([1; 16]), NwkKey::new([2; 16])),
    );
    let patch = UpdateDeviceCommand { state: Some(DeviceState::Sleep), ..empty_patch() };
    let once = apply_device_update(device.clone(), patch.clone());
    assert_eq!(once.state, DeviceState::Sleep);
    assert_eq!(once.class, DeviceClass::ClassA);
    let twice = apply_device_update(once.clone(), patch.clone());
    assert_eq!(twice.state, once.state);
    assert_eq!(twice.class, once.class);
    let missing = update_device_decision(patch.clone(), None).unwrap_err();
    assert_eq!(reason_code(&missing), "device_not_found");
    let updated = update_device_decision(patch, Some(device)).unwrap();
    assert_eq!(updated.state, DeviceState::Sleep);
}

#[test]
fn api_context_is_anonymous() {
    let c = OperationContext::api(Some("corr".to_string()));
    assert_eq!(c.source, EventSource::Api);
    assert_eq!(c.actor, "anonymous");
    assert_eq!(c.correlation_id.as_deref(), Some("corr"));
}
