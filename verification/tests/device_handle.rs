use nanoleaf_rs::Nanoleaf;
use nanoleaf_rs::NanoleafError;

#[test]
fn new_handle_is_unconfigured() {
    let device = Nanoleaf::new();
    assert!(device.ip.is_none());
    assert!(device.access_token.is_none());
    assert!(device.on.is_none());
}

#[test]
fn preload_keeps_address_and_token() {
    let device = Nanoleaf::preload("10.0.0.3", "tok123");
    assert_eq!(device.ip.as_deref(), Some("10.0.0.3"));
    assert_eq!(device.access_token.as_deref(), Some("tok123"));
    assert!(device.on.is_none());
}

#[test]
fn api_url_scopes_target_by_token() {
    let device = Nanoleaf::preload("10.0.0.3", "tok123");
    assert_eq!(
        device.api_url("/panelLayout/layout").as_deref(),
        Some("http://10.0.0.3:16021/api/v1/tok123/panelLayout/layout")
    );
}

#[test]
fn api_url_needs_configuration() {
    let device = Nanoleaf::new();
    assert!(device.api_url("/state/on").is_none());
}

#[test]
fn set_on_value_updates_only_power_state() {
    let mut device = Nanoleaf::preload("10.0.0.3", "tok123");
    device.set_on_value(Some(true));
    assert_eq!(device.on, Some(true));
    device.set_on_value(None);
    assert_eq!(device.on, None);
    assert_eq!(device.ip.as_deref(), Some("10.0.0.3"));
}

#[test]
fn state_body_texts() {
    assert_eq!(Nanoleaf::set_state_body(true), "{\"on\":{\"value\":true}}");
    assert_eq!(Nanoleaf::set_state_body(false), "{\"on\":{\"value\":false}}");
}

#[test]
fn open_socket_body_arms_external_control_v2() {
    assert_eq!(
        Nanoleaf::open_socket_body(),
        "{\"write\":{\"animType\":\"extControl\",\"command\":\"display\",\"extControlVersion\":\"v2\"}}"
    );
}

#[test]
fn error_descriptions() {
    assert_eq!(
        NanoleafError::MalformedLayout.describe(),
        "malformed device layout response"
    );
    assert_eq!(
        NanoleafError::FrameTooLarge.describe(),
        "frame holds more than 255 panel assignments"
    );
    assert_eq!(
        NanoleafError::InvalidAssignment.describe(),
        "panel assignment field out of protocol range"
    );
    assert_eq!(
        NanoleafError::TransmissionFailure.describe(),
        "datagram transmission failed"
    );
}
