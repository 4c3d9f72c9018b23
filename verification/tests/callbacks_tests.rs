use rdp_wry::callbacks::{
    client_new_status, frame_len, global_init_status, post_connect_status, pre_connect_settings,
    FALSE, TRUE,
};

#[test]
fn pre_connect_settings_values() {
    let s = pre_connect_settings();
    assert_eq!(s.os_major_type, 1);
    assert_eq!(s.os_minor_type, 3);
    assert_eq!(s.connection_type, 7);
    assert!(s.ignore_certificate);
}

#[test]
fn callback_statuses() {
    assert_eq!(global_init_status(0), TRUE);
    assert_eq!(global_init_status(-1), FALSE);
    assert_eq!(global_init_status(5), FALSE);
    assert_eq!(post_connect_status(true), TRUE);
    assert_eq!(post_connect_status(false), FALSE);
    assert_eq!(client_new_status(false, false), TRUE);
    assert_eq!(client_new_status(true, false), FALSE);
    assert_eq!(client_new_status(false, true), FALSE);
}

#[test]
fn frame_length() {
    assert_eq!(frame_len(1, 1024, 768), Some(1024 * 768 * 4));
    assert_eq!(frame_len(3, 1, 1), Some(4));
    assert_eq!(frame_len(0, 1024, 768), None);
    assert_eq!(frame_len(-1, 1024, 768), None);
}

