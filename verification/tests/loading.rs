use cloudpilot_shim::loading_controller::{
    enable_dev_tools, get_version, splash_hold_nanos, wait_step, LoadingController, WaitAction,
    WaitEvent,
    FALLBACK_HANDSHAKE_AFTER_MSEC, SPLASH_SCREEN_MIN_TTL_MSEC, TIMEOUT_SECONDS,
};

#[test]
fn load_cycle() {
    let mut controller = LoadingController::default();
    assert!(!controller.is_loading());
    controller.begin_load();
    assert!(controller.is_loading());
    controller.end_load();
    assert!(!controller.is_loading());
    controller.begin_load();
    assert!(controller.is_loading());
}

#[test]
fn timing_constants() {
    assert_eq!(TIMEOUT_SECONDS, 10);
    assert_eq!(SPLASH_SCREEN_MIN_TTL_MSEC, 500);
    assert_eq!(FALLBACK_HANDSHAKE_AFTER_MSEC, 5000);
}

#[test]
fn version_packing() {
    assert_eq!(get_version(1, 2, 3), 0x0001_0203);
    assert_eq!(get_version(0, 0, 0), 0);
    assert_eq!(get_version(2, 0, 17), 131_089);
    let v = get_version(3, 14, 15);
    assert_eq!((v >> 16, (v >> 8) & 0xff, v & 0xff), (3, 14, 15));
}

#[test]
fn version_packing_overlapping_fields() {
    assert_eq!(get_version(0, 0x1ff, 0), 0x1ff00);
    assert_eq!(get_version(0, 1, 0x1ff), 0x1ff);
    assert_eq!(get_version(0x1_0001, 0, 0), 0x0001_0000);
    assert_eq!(get_version(u64::MAX, u64::MAX, u64::MAX), u32::MAX);
}

#[test]
fn splash_hold_times() {
    assert_eq!(splash_hold_nanos(0), Some(500_000_000));
    assert_eq!(splash_hold_nanos(120_000_000), Some(380_000_000));
    assert_eq!(splash_hold_nanos(499_999_999), Some(1));
    assert_eq!(splash_hold_nanos(500_000_000), None);
    assert_eq!(splash_hold_nanos(10_000_000_000), None);
}

#[test]
fn splash_hold_after_millisecond_overflow() {
    let wrapped = (1u128 << 64) * 1_000_000 + 3_000_000;
    assert_eq!(splash_hold_nanos(wrapped), Some(0));
}

#[test]
fn dev_tools_switch() {
    assert!(!enable_dev_tools(None));
    assert!(!enable_dev_tools(Some("")));
    assert!(enable_dev_tools(Some("1")));
    assert!(enable_dev_tools(Some("false")));
}

#[test]
fn wait_steps() {
    assert_eq!(wait_step(WaitEvent::Handshake), WaitAction::Finish);
    assert_eq!(wait_step(WaitEvent::Timeout), WaitAction::Renavigate);
    assert_eq!(wait_step(WaitEvent::Closed), WaitAction::Abort);
}
