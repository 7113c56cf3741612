use cloudpilot_shim::app_channel::AppChannel;
use cloudpilot_shim::loading_controller::app_channel_from_store;

#[test]
fn from_number_reads_known_channels() {
    assert_eq!(AppChannel::from_number(0i64), Some(AppChannel::Preview));
    assert_eq!(AppChannel::from_number(1i64), Some(AppChannel::Stable));
    assert_eq!(AppChannel::from_number(1u8), Some(AppChannel::Stable));
    assert_eq!(AppChannel::from_number(0i32), Some(AppChannel::Preview));
}

#[test]
fn from_number_rejects_other_numbers() {
    assert_eq!(AppChannel::from_number(2i64), None);
    assert_eq!(AppChannel::from_number(-1i64), None);
    assert_eq!(AppChannel::from_number(i64::MAX), None);
    assert_eq!(AppChannel::from_i64(i64::MIN), None);
    assert_eq!(AppChannel::from_number(i64::MIN), None);
    assert_eq!(AppChannel::from_number(255u8), None);
    assert_eq!(AppChannel::from_number(-1i32), None);
}

#[test]
fn channel_numbers_and_names() {
    assert_eq!(AppChannel::Preview.to_number(), 0);
    assert_eq!(AppChannel::Stable.to_number(), 1);
    assert_eq!(AppChannel::Preview.to_string(), "preview");
    assert_eq!(AppChannel::Stable.to_string(), "stable");
}

#[test]
fn stored_channel_reads_back() {
    for channel in [AppChannel::Preview, AppChannel::Stable] {
        assert_eq!(AppChannel::from_number(channel.to_number()), Some(channel));
        assert_eq!(app_channel_from_store(Some(channel.to_number())), channel);
    }
}

#[test]
fn missing_or_unknown_stored_channel_is_stable() {
    assert_eq!(app_channel_from_store(None), AppChannel::Stable);
    assert_eq!(app_channel_from_store(Some(2)), AppChannel::Stable);
    assert_eq!(app_channel_from_store(Some(-7)), AppChannel::Stable);
    assert_eq!(app_channel_from_store(Some(0)), AppChannel::Preview);
}
