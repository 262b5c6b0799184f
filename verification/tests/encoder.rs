use nanoleaf_rs::Frame;
use nanoleaf_rs::NanoleafError;
use nanoleaf_rs::PanelState;

fn state(panel_id: u16, red: u8, green: u8, blue: u8, transition_time: u16) -> PanelState {
    PanelState { panel_id, red, green, blue, transition_time }
}

#[test]
fn single_panel_exact_bytes() {
    let frame = Frame { states: vec![state(300, 255, 0, 0, 10)] };
    let buf = frame.get_buf().unwrap();
    assert_eq!(
        buf,
        vec![0x00, 0x01, 0x01, 0x2C, 0xFF, 0x00, 0x00, 0xFF, 0x00, 0x0A]
    );
}

#[test]
fn empty_frame_encodes_to_header_only() {
    let frame = Frame { states: Vec::new() };
    assert_eq!(frame.get_buf().unwrap(), vec![0x00, 0x00]);
}

#[test]
fn length_is_two_plus_eight_per_panel() {
    for n in [0usize, 1, 2, 17, 255] {
        let states: Vec<PanelState> =
            (0..n).map(|i| state(i as u16, 1, 2, 3, 4)).collect();
        let frame = Frame { states };
        let buf = frame.get_buf().unwrap();
        assert_eq!(buf.len(), 2 + 8 * n);
        assert_eq!(buf[0], 0);
        assert_eq!(buf[1] as usize, n);
    }
}

#[test]
fn white_channel_is_always_full() {
    let frame = Frame {
        states: vec![
            state(1, 0, 0, 0, 0),
            state(2, 255, 255, 255, 65535),
            state(3, 17, 34, 51, 12345),
        ],
    };
    let buf = frame.get_buf().unwrap();
    for i in 0..3 {
        assert_eq!(buf[7 + 8 * i], 255);
    }
}

#[test]
fn big_endian_fields() {
    let frame = Frame { states: vec![state(0xABCD, 9, 8, 7, 0x1234)] };
    let buf = frame.get_buf().unwrap();
    assert_eq!(buf[2], 0xAB);
    assert_eq!(buf[3], 0xCD);
    assert_eq!(buf[8], 0x12);
    assert_eq!(buf[9], 0x34);
}

#[test]
fn encoding_twice_is_byte_identical() {
    let frame = Frame {
        states: vec![state(300, 255, 0, 0, 10), state(77, 1, 2, 3, 4)],
    };
    let first = frame.get_buf().unwrap();
    let second = frame.get_buf().unwrap();
    assert_eq!(first, second);
}

#[test]
fn oversized_frame_is_rejected_before_encoding() {
    let states: Vec<PanelState> =
        (0..256).map(|i| state(i as u16, 0, 0, 0, 0)).collect();
    let frame = Frame { states };
    assert_eq!(frame.get_buf(), Err(NanoleafError::FrameTooLarge));
}

#[test]
fn largest_frame_is_accepted() {
    let states: Vec<PanelState> =
        (0..255).map(|i| state(i as u16, 0, 0, 0, 0)).collect();
    let frame = Frame { states };
    let buf = frame.get_buf().unwrap();
    assert_eq!(buf.len(), 2 + 8 * 255);
    assert_eq!(buf[1], 255);
}

#[test]
fn checked_accepts_in_range_fields() {
    let p = PanelState::checked(300, 255, 0, 0, 10).unwrap();
    assert_eq!(p, state(300, 255, 0, 0, 10));
}

#[test]
fn checked_rejects_oversized_panel_id() {
    assert_eq!(
        PanelState::checked(70000, 0, 0, 0, 0),
        Err(NanoleafError::InvalidAssignment)
    );
}

#[test]
fn checked_rejects_oversized_transition_time() {
    assert_eq!(
        PanelState::checked(1, 0, 0, 0, 70000),
        Err(NanoleafError::InvalidAssignment)
    );
}

#[test]
fn solid_frame_appends_with_unit_transition() {
    let mut frame = Frame { states: Vec::new() };
    frame.solid_frame(300, 255, 0, 0);
    assert_eq!(frame.states, vec![state(300, 255, 0, 0, 1)]);
    let buf = frame.get_buf().unwrap();
    assert_eq!(buf[8], 0);
    assert_eq!(buf[9], 1);
}
