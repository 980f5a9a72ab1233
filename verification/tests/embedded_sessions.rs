use rdp_man::framebuffer::{blank_framebuffer, blit_update, copy_is_in_bounds, UpdateRect, BLANK_PIXEL};
use rdp_man::ironrdp_session::{
    encode_input_event, next_step, reconnect_delay_secs, FastPathInput, InputEvent, LinkState,
    LoopAction, LoopEvent, RdpConfig, SessionManager, IDLE_DELAY_MILLIS, KEYBOARD_RELEASE,
    MAX_RECONNECT_ATTEMPTS, MAX_RECONNECT_DELAY_SECS, POINTER_DOWN, POINTER_LEFT_BUTTON,
    POINTER_MIDDLE_BUTTON, POINTER_MOVE, POINTER_RIGHT_BUTTON, READ_TIMEOUT_MILLIS,
};

fn event(kind: &str, button: u8, key_code: u16, is_down: bool) -> InputEvent {
    InputEvent { event_type: kind.to_string(), x: 120, y: 45, button, key_code, is_down }
}

fn mouse(flags: u16) -> FastPathInput {
    FastPathInput::Mouse { pointer_flags: flags, wheel_rotation_units: 0, x: 120, y: 45 }
}

fn config(id: i64) -> RdpConfig {
    RdpConfig {
        connection_id: id,
        hostname: "10.0.1.2".to_string(),
        port: 3389,
        username: "u".to_string(),
        password: "p".to_string(),
        width: 1024,
        height: 768,
    }
}

#[test]
fn protocol_flag_values() {
    assert_eq!(POINTER_MOVE, 0x0800);
    assert_eq!(POINTER_LEFT_BUTTON, 0x1000);
    assert_eq!(POINTER_RIGHT_BUTTON, 0x2000);
    assert_eq!(POINTER_MIDDLE_BUTTON, 0x4000);
    assert_eq!(POINTER_DOWN, 0x8000);
    assert_eq!(KEYBOARD_RELEASE, 0x01);
}

#[test]
fn mouse_move_keeps_position() {
    assert_eq!(encode_input_event(&event("mouse_move", 0, 0, false)), Some(vec![mouse(0x0800)]));
}

#[test]
fn mouse_down_sets_down_and_button() {
    assert_eq!(encode_input_event(&event("mouse_down", 1, 0, true)), Some(vec![mouse(0x9000)]));
    assert_eq!(encode_input_event(&event("mouse_down", 2, 0, true)), Some(vec![mouse(0xA000)]));
    assert_eq!(encode_input_event(&event("mouse_down", 3, 0, true)), Some(vec![mouse(0xC000)]));
    assert_eq!(encode_input_event(&event("mouse_down", 4, 0, true)), None);
    assert_eq!(encode_input_event(&event("mouse_down", 0, 0, true)), None);
}

#[test]
fn mouse_up_sets_button_only() {
    assert_eq!(encode_input_event(&event("mouse_up", 1, 0, false)), Some(vec![mouse(0x1000)]));
    assert_eq!(encode_input_event(&event("mouse_up", 2, 0, false)), Some(vec![mouse(0x2000)]));
    assert_eq!(encode_input_event(&event("mouse_up", 3, 0, false)), Some(vec![mouse(0x4000)]));
    assert_eq!(encode_input_event(&event("mouse_up", 9, 0, false)), None);
}

#[test]
fn keys_follow_is_down_and_truncate_the_code() {
    let down = FastPathInput::Keyboard { key_flags: 0, key_code: 0x1E };
    let up = FastPathInput::Keyboard { key_flags: 1, key_code: 0x1E };
    assert_eq!(encode_input_event(&event("key_down", 0, 0x1E, true)), Some(vec![down]));
    assert_eq!(encode_input_event(&event("key_up", 0, 0x1E, false)), Some(vec![up]));
    assert_eq!(encode_input_event(&event("key_up", 0, 0x1E, true)), Some(vec![down]));
    assert_eq!(encode_input_event(&event("key_down", 0, 0x1E, false)), Some(vec![up]));
    assert_eq!(
        encode_input_event(&event("key_down", 0, 0x11D, true)),
        Some(vec![FastPathInput::Keyboard { key_flags: 0, key_code: 0x1D }])
    );
}

#[test]
fn unknown_event_types_have_no_encoding() {
    assert_eq!(encode_input_event(&event("wheel", 1, 0, true)), None);
    assert_eq!(encode_input_event(&event("", 1, 0, true)), None);
    assert_eq!(encode_input_event(&event("Mouse_Move", 1, 0, true)), None);
}

#[test]
fn manager_opens_closes_and_lists() {
    let mut m = SessionManager::new();
    let (a, screen) = m.open(config(3)).unwrap();
    assert_eq!(screen.len(), 1024 * 768);
    assert!(screen.iter().all(|p| *p == 0xFF000000));
    assert_eq!(a.session_id, 1);
    assert_eq!(a.connection_id, 3);
    assert_eq!(a.hostname, "10.0.1.2");
    assert_eq!(a.status, "connected");
    assert_eq!((a.width, a.height), (1024, 768));
    let (b, _) = m.open(config(4)).unwrap();
    assert_eq!(b.session_id, 2);
    assert_eq!(m.session(1).unwrap().connection_id, 3);
    let mut ids: Vec<u32> = m.list_active().iter().map(|s| s.session_id).collect();
    ids.sort();
    assert_eq!(ids, vec![1, 2]);
    assert_eq!(m.close(1), Ok(()));
    assert_eq!(m.close(1), Err("Session not found".to_string()));
    assert_eq!(m.session(1).unwrap_err(), "Session not found");
    assert_eq!(m.list_active().len(), 1);
    assert_eq!(m.open(config(5)).unwrap().0.session_id, 3);
    assert_eq!(m.next_session_id(), 4);
}

#[test]
fn loop_decisions() {
    let c = LinkState::Connected;
    assert_eq!(READ_TIMEOUT_MILLIS, 50);
    assert_eq!(next_step(c, LoopEvent::ReadTimedOut), (c, LoopAction::Idle { millis: IDLE_DELAY_MILLIS }));
    assert_eq!(next_step(c, LoopEvent::ReadWouldBlock), (c, LoopAction::Idle { millis: 16 }));
    assert_eq!(next_step(c, LoopEvent::ProcessFailed), (c, LoopAction::Stop));
    assert_eq!(next_step(c, LoopEvent::StopRequested), (c, LoopAction::Stop));
    assert_eq!(next_step(c, LoopEvent::Terminated), (c, LoopAction::Stop));
    assert_eq!(next_step(c, LoopEvent::ResponseFrame), (c, LoopAction::SendFrame));
    assert_eq!(next_step(c, LoopEvent::GraphicsUpdate), (c, LoopAction::DrawUpdate));
    assert_eq!(next_step(c, LoopEvent::OtherOutput), (c, LoopAction::Continue));
    assert_eq!(
        next_step(LinkState::Connecting, LoopEvent::Connected),
        (LinkState::Connected, LoopAction::Continue)
    );
    assert_eq!(next_step(LinkState::Connecting, LoopEvent::ConnectFailed).1, LoopAction::Stop);
}

#[test]
fn dropped_connection_is_retried_with_backoff_then_given_up() {
    assert_eq!(MAX_RECONNECT_ATTEMPTS, 10);
    assert_eq!(MAX_RECONNECT_DELAY_SECS, 30);
    let (mut state, mut action) = next_step(LinkState::Connected, LoopEvent::ReadFailed);
    let mut delays = vec![];
    while let LoopAction::Reconnect { delay_secs } = action {
        delays.push(delay_secs);
        let step = next_step(state, LoopEvent::ConnectFailed);
        state = step.0;
        action = step.1;
    }
    assert_eq!(delays, vec![1, 2, 4, 8, 16, 30, 30, 30, 30, 30]);
    assert_eq!(action, LoopAction::Stop);
    assert_eq!(state, LinkState::Reconnecting { retries: 10 });
}

#[test]
fn successful_reconnect_restarts_the_backoff() {
    let (s, _) = next_step(LinkState::Connected, LoopEvent::ReadFailed);
    let (s, _) = next_step(s, LoopEvent::ConnectFailed);
    let (s, a) = next_step(s, LoopEvent::Connected);
    assert_eq!((s, a), (LinkState::Connected, LoopAction::Continue));
    assert_eq!(
        next_step(s, LoopEvent::ReadFailed),
        (LinkState::Reconnecting { retries: 1 }, LoopAction::Reconnect { delay_secs: 1 })
    );
    assert_eq!(reconnect_delay_secs(1), 1);
    assert_eq!(reconnect_delay_secs(5), 16);
    assert_eq!(reconnect_delay_secs(6), 30);
    assert_eq!(reconnect_delay_secs(100), 30);
}

#[test]
fn blank_framebuffer_is_opaque_black() {
    let fb = blank_framebuffer(3, 2);
    assert_eq!(fb, vec![0xFF000000u32; 6]);
    assert_eq!(BLANK_PIXEL, 0xFF000000);
    assert!(blank_framebuffer(0, 5).is_empty());
}

fn le(img: &[u8], pixel: usize) -> u32 {
    u32::from_le_bytes([img[4 * pixel], img[4 * pixel + 1], img[4 * pixel + 2], img[4 * pixel + 3]])
}

#[test]
fn blit_copies_each_pixel_from_its_four_bytes() {
    let img: Vec<u8> = (0u8..16).collect();
    let mut fb = blank_framebuffer(2, 2);
    blit_update(&mut fb, &img, 2, 2, UpdateRect { left: 0, top: 0, right: 1, bottom: 1 });
    assert_eq!(fb, vec![le(&img, 0), le(&img, 1), le(&img, 2), le(&img, 3)]);
    assert_eq!(fb[1], u32::from_le_bytes([4, 5, 6, 7]));
}

#[test]
fn blit_on_a_two_by_one_screen() {
    let img: Vec<u8> = vec![1, 2, 3, 4, 5, 6, 7, 8];
    let mut fb = blank_framebuffer(2, 1);
    blit_update(&mut fb, &img, 2, 1, UpdateRect { left: 1, top: 0, right: 1, bottom: 0 });
    assert_eq!(fb, vec![BLANK_PIXEL, u32::from_le_bytes([5, 6, 7, 8])]);
}

#[test]
fn blit_leaves_pixels_outside_the_region() {
    let img: Vec<u8> = (0u8..36).collect();
    let mut fb = blank_framebuffer(3, 3);
    blit_update(&mut fb, &img, 3, 3, UpdateRect { left: 1, top: 1, right: 1, bottom: 1 });
    let mut expected = vec![BLANK_PIXEL; 9];
    expected[4] = le(&img, 4);
    assert_eq!(fb, expected);
}

#[test]
fn blit_cuts_the_region_at_the_screen_edge() {
    let img: Vec<u8> = (0u8..16).collect();
    let mut fb = blank_framebuffer(2, 2);
    blit_update(&mut fb, &img, 2, 2, UpdateRect { left: 1, top: 1, right: 500, bottom: 500 });
    assert_eq!(fb, vec![BLANK_PIXEL, BLANK_PIXEL, BLANK_PIXEL, le(&img, 3)]);
}

#[test]
fn blit_skips_rows_past_a_short_image() {
    let img: Vec<u8> = (0u8..12).collect();
    let mut fb = blank_framebuffer(2, 2);
    blit_update(&mut fb, &img, 2, 2, UpdateRect { left: 0, top: 0, right: 1, bottom: 1 });
    assert_eq!(fb, vec![le(&img, 0), le(&img, 1), BLANK_PIXEL, BLANK_PIXEL]);
}

#[test]
fn copy_bounds_check() {
    assert!(copy_is_in_bounds(2, 2, UpdateRect { left: 0, top: 0, right: 1, bottom: 1 }));
    assert!(!copy_is_in_bounds(3, 3, UpdateRect { left: 5, top: 0, right: 1, bottom: 1 }));
    assert!(copy_is_in_bounds(3, 3, UpdateRect { left: 5, top: 7, right: 1, bottom: 1 }));
    assert!(copy_is_in_bounds(3, 3, UpdateRect { left: 3, top: 0, right: 9, bottom: 1 }));
}
