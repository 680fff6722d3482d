use xous_services::usb_device::{
    debug_lock_request, ensure_core_request, key_codes_to_press, refusal_action, soc_supports_hid, DebugStatus,
    RefusalAction, RefusedRequest, ReportAction, RxRequestAction, U2fRouter,
};

#[test]
fn soc_version_gate() {
    assert!(soc_supports_hid(0, 9, 8, 20));
    assert!(soc_supports_hid(0, 9, 8, 21));
    assert!(soc_supports_hid(0, 9, 9, 0));
    assert!(soc_supports_hid(0, 10, 0, 0));
    assert!(soc_supports_hid(1, 0, 0, 0));
    assert!(!soc_supports_hid(0, 9, 8, 19));
    assert!(!soc_supports_hid(0, 9, 7, 100));
    assert!(!soc_supports_hid(0, 8, 20, 0));
    assert!(!soc_supports_hid(0, 0, 0, 0));
}

fn packet(b: u8) -> [u8; 64] {
    [b; 64]
}

#[test]
fn u2f_owner_is_first_user() {
    let mut r = U2fRouter::new();
    assert!(r.on_tx_request(Some(5)));
    assert_eq!(r.listener_pid, Some(5));
    assert!(!r.on_tx_request(Some(6)));
    assert!(matches!(r.on_rx_request(Some(6)), RxRequestAction::Deny));
    assert!(matches!(r.on_rx_request(Some(5)), RxRequestAction::Defer));
    assert_eq!(r.listener_pid, Some(5));
}

#[test]
fn u2f_packets_queue_in_order() {
    let mut r = U2fRouter::new();
    assert!(matches!(r.on_report(packet(1)), ReportAction::Queued));
    assert!(matches!(r.on_report(packet(2)), ReportAction::Queued));
    assert_eq!(r.rx_queue.len(), 2);
    match r.on_rx_request(Some(3)) {
        RxRequestAction::Deliver(p) => assert_eq!(p, packet(1)),
        _ => panic!("expected the first packet"),
    }
    match r.on_rx_request(Some(3)) {
        RxRequestAction::Deliver(p) => assert_eq!(p, packet(2)),
        _ => panic!("expected the second packet"),
    }
    assert!(matches!(r.on_rx_request(Some(3)), RxRequestAction::Defer));
    assert!(r.listener_waiting);
    match r.on_report(packet(3)) {
        ReportAction::Deliver(p) => assert_eq!(p, packet(3)),
        _ => panic!("expected delivery to the parked request"),
    }
    assert!(!r.listener_waiting);
    assert_eq!(r.rx_queue.len(), 0);
}

#[test]
fn u2f_hang_up_on_suspend_edge() {
    let mut r = U2fRouter::new();
    assert!(!r.on_link_state(false));
    assert!(matches!(r.on_rx_request(Some(1)), RxRequestAction::Defer));
    assert!(r.on_link_state(true));
    assert!(!r.listener_waiting);
    assert!(matches!(r.on_rx_request(Some(1)), RxRequestAction::Defer));
    assert!(!r.on_link_state(true));
    assert!(r.listener_waiting);
    assert!(!r.on_link_state(false));
    assert!(r.on_link_state(true));
}

#[test]
fn u2f_requests_without_pid() {
    let mut r = U2fRouter::new();
    assert!(r.on_tx_request(None));
    assert_eq!(r.listener_pid, None);
    assert!(r.on_tx_request(Some(4)));
    assert_eq!(r.listener_pid, Some(4));
    assert!(!r.on_tx_request(None));
}

#[test]
fn debug_status_redraw_after_boot_and_resume() {
    let mut s = DebugStatus::new();
    assert_eq!(s.report(true), (1, 1));
    assert_eq!(s.report(true), (1, 0));
    assert_eq!(s.report(false), (0, 0));
    s.on_resume();
    assert_eq!(s.report(false), (0, 1));
}

#[test]
fn debug_lock_requests() {
    assert_eq!(debug_lock_request(0, 1), None);
    assert_eq!(debug_lock_request(1, 1), Some(true));
    assert_eq!(debug_lock_request(1, 0), Some(false));
}

#[test]
fn ensure_core_requests() {
    assert_eq!(ensure_core_request(1, false), Some(true));
    assert_eq!(ensure_core_request(1, true), None);
    assert_eq!(ensure_core_request(0, true), Some(false));
    assert_eq!(ensure_core_request(0, false), None);
}

#[test]
fn key_codes_skip_zero_words() {
    assert_eq!(key_codes_to_press(4, 0, 5), vec![4, 5]);
    assert_eq!(key_codes_to_press(0, 0, 0), Vec::<u8>::new());
    assert_eq!(key_codes_to_press(0x104, 0x28, 0), vec![4, 0x28]);
}

#[test]
fn refusal_mode_answers() {
    assert_eq!(refusal_action(RefusedRequest::DebugUsbOp), RefusalAction::ReplyTwo(0, 1));
    assert_eq!(refusal_action(RefusedRequest::U2fRxDeferred), RefusalAction::Park);
    assert_eq!(refusal_action(RefusedRequest::IsSocCompatible), RefusalAction::Reply(0));
    assert_eq!(refusal_action(RefusedRequest::Quit), RefusalAction::Stop);
    assert_eq!(refusal_action(RefusedRequest::OtherBlocking), RefusalAction::Reply(0));
    assert_eq!(refusal_action(RefusedRequest::Other), RefusalAction::Ignore);
}
