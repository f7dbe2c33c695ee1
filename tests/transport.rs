use pcan::transport::{
    filter_setting, policy_setting, read_outcome, status_error, ChannelState, FilterPolicy, FilterSetting,
    Lifecycle, ReadOutcome, FILTER_CLOSED, FILTER_CUSTOM, FILTER_OPEN, STATUS_ILLEGAL_HANDLE, STATUS_OK,
    STATUS_RECEIVE_QUEUE_EMPTY,
};
use pcan::{Error, Filter, Id, WireMsg};

#[test]
fn init_fail() {
    let mut channel = Lifecycle::new();
    assert_eq!(channel.initialized(STATUS_ILLEGAL_HANDLE), Some(STATUS_ILLEGAL_HANDLE));
    assert_eq!(channel.state(), ChannelState::Uninitialized);
    assert!(!channel.release());
}

#[test]
fn release_is_idempotent() {
    let mut channel = Lifecycle::new();
    assert_eq!(channel.initialized(STATUS_OK), None);
    assert_eq!(channel.state(), ChannelState::Open);
    assert!(channel.release());
    assert_eq!(channel.state(), ChannelState::Closed);
    assert!(!channel.release());
    assert_eq!(channel.state(), ChannelState::Closed);
}

#[test]
fn status_errors() {
    assert_eq!(status_error(STATUS_OK), None);
    assert_eq!(status_error(STATUS_ILLEGAL_HANDLE), Some(STATUS_ILLEGAL_HANDLE));
}

#[test]
fn read_outcomes() {
    let w = WireMsg { id: 0x79, msg_type: 0, len: 1, data: [0x79, 0, 0, 0, 0, 0, 0, 0] };
    match read_outcome(STATUS_OK, w) {
        ReadOutcome::Received(f) => {
            assert_eq!(f.id(), Id::Standard(0x79));
            assert_eq!(f.data(), &[0x79]);
        }
        other => panic!("expected a frame, got {:?}", other),
    }
    assert!(matches!(read_outcome(STATUS_RECEIVE_QUEUE_EMPTY, w), ReadOutcome::WouldBlock));
    assert!(matches!(read_outcome(0x4000, w), ReadOutcome::Failed(0x4000)));
}

#[test]
fn filter_settings() {
    assert_eq!(filter_setting(FILTER_CLOSED, &Filter::accept_all()).unwrap(), FilterSetting::Open);
    let mut f = Filter::new_extended(0x152);
    f.with_mask(0x0F0);
    assert_eq!(
        filter_setting(FILTER_OPEN, &f).unwrap(),
        FilterSetting::Acceptance { extended: true, code: 0x152, mask: 0x0F0 }
    );
    assert_eq!(
        filter_setting(FILTER_CLOSED, &Filter::new_standard(0x20)).unwrap(),
        FilterSetting::Acceptance { extended: false, code: 0x20, mask: 0x7FF }
    );
}

#[test]
fn second_custom_filter_is_refused() {
    assert!(matches!(
        filter_setting(FILTER_CUSTOM, &Filter::new_standard(1 << 5)),
        Err(Error::FilterAlreadyConfigured)
    ));
    assert!(matches!(filter_setting(FILTER_CUSTOM, &Filter::accept_all()), Err(Error::FilterAlreadyConfigured)));
}

#[test]
fn filter_policies() {
    assert_eq!(policy_setting(FilterPolicy::RejectAll), FILTER_CLOSED);
    assert_eq!(policy_setting(FilterPolicy::AcceptAll), FILTER_OPEN);
}
