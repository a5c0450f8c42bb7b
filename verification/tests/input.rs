use mouseplay::raw_input::{str_to_vk, RawInput, WindowMessage};

const HWND: u64 = 0x1000;

fn captured_and_locked() -> RawInput {
    let mut input = RawInput::new();
    // A raw-input message records the capture window.
    let fwd = input.parse(
        HWND,
        WindowMessage::RawMouse { dx: 0, dy: 0, buttons: 0 },
        true,
    );
    assert!(fwd);
    // A left-click above the bottom toolbar band engages the lock.
    let fwd = input.parse(
        HWND,
        WindowMessage::ParentNotifyLeftDown { y: 100, height: 600 },
        true,
    );
    assert!(!fwd);
    assert!(input.locked());
    input
}

#[test]
fn unknown_key_reads_false() {
    let input = RawInput::new();
    assert!(!input.key("notakey"));
    assert!(!input.key(""));
    assert!(!input.key("W"));
    assert!(!input.key("mouse6"));
}

#[test]
fn vk_table_samples() {
    assert_eq!(str_to_vk("mouse1"), Ok(1));
    assert_eq!(str_to_vk("mouse5"), Ok(6));
    assert_eq!(str_to_vk("shift"), Ok(16));
    assert_eq!(str_to_vk("esc"), Ok(27));
    assert_eq!(str_to_vk("escape"), Ok(27));
    assert_eq!(str_to_vk("space"), Ok(32));
    assert_eq!(str_to_vk("kp_0"), Ok(96));
    assert_eq!(str_to_vk("kp_9"), Ok(105));
    assert_eq!(str_to_vk("f1"), Ok(112));
    assert_eq!(str_to_vk("f12"), Ok(123));
    assert_eq!(str_to_vk("a"), Ok(65));
    assert_eq!(str_to_vk("z"), Ok(90));
    assert_eq!(str_to_vk("w"), Ok(87));
    assert_eq!(str_to_vk("1"), Ok(49));
    assert_eq!(str_to_vk("9"), Ok(57));
    // Historical quirk of the table, kept deliberately: "0" maps to 58.
    assert_eq!(str_to_vk("0"), Ok(58));
    assert!(str_to_vk("f13").is_err());
    assert!(str_to_vk("kp_10").is_err());
}

#[test]
fn keyboard_event_sets_and_clears_keys() {
    let mut input = RawInput::new();
    input.parse(HWND, WindowMessage::RawKeyboard { vkey: 87, flags: 0 }, true);
    assert!(input.key("w"));
    input.parse(HWND, WindowMessage::RawKeyboard { vkey: 87, flags: 1 }, true);
    assert!(!input.key("w"));
    // Codes outside the key array are ignored, never a crash.
    input.parse(HWND, WindowMessage::RawKeyboard { vkey: 300, flags: 0 }, true);
    input.parse(HWND, WindowMessage::RawKeyboard { vkey: 65535, flags: 0 }, true);
}

#[test]
fn mouse_button_flags_update_keys() {
    let mut input = RawInput::new();
    // Left down (0x0001) and x-button-2 down (0x0100) together.
    input.parse(
        HWND,
        WindowMessage::RawMouse { dx: 0, dy: 0, buttons: 0x0101 },
        true,
    );
    assert!(input.key("mouse1"));
    assert!(input.key("mouse5"));
    assert!(!input.key("mouse2"));
    // Left up (0x0002).
    input.parse(
        HWND,
        WindowMessage::RawMouse { dx: 0, dy: 0, buttons: 0x0002 },
        true,
    );
    assert!(!input.key("mouse1"));
    assert!(input.key("mouse5"));
    // Down and up in one event: the up bit wins.
    input.parse(
        HWND,
        WindowMessage::RawMouse { dx: 0, dy: 0, buttons: 0x0003 },
        true,
    );
    assert!(!input.key("mouse1"));
}

#[test]
fn accumulator_resets_after_accumulate() {
    let mut input = captured_and_locked();
    input.parse(HWND, WindowMessage::RawMouse { dx: 7, dy: -3, buttons: 0 }, true);
    input.parse(HWND, WindowMessage::RawMouse { dx: 1, dy: 1, buttons: 0 }, true);
    let recenter = input.accumulate(true);
    assert!(recenter);
    assert_eq!((input.mouse_x(), input.mouse_y()), (8, -2));
    // The accumulator was zeroed: a second freeze sees no motion.
    input.accumulate(true);
    assert_eq!((input.mouse_x(), input.mouse_y()), (0, 0));
}

#[test]
fn unlocked_capture_freezes_zero_motion() {
    let mut input = RawInput::new();
    input.parse(HWND, WindowMessage::RawMouse { dx: 9, dy: 9, buttons: 0 }, true);
    assert!(!input.locked());
    let recenter = input.accumulate(true);
    assert!(!recenter);
    assert_eq!((input.mouse_x(), input.mouse_y()), (0, 0));
}

#[test]
fn lock_and_unlock_flow() {
    let mut input = captured_and_locked();
    // While locked, button and key messages are swallowed.
    assert!(!input.parse(HWND, WindowMessage::ButtonOrKey, true));
    assert!(!input.parse(HWND, WindowMessage::CursorQuery, true));
    // Raw mouse messages are swallowed too while locked.
    assert!(!input.parse(HWND, WindowMessage::RawMouse { dx: 1, dy: 0, buttons: 0 }, true));
    // Shift+Escape held in the same frame releases the lock.
    assert!(!input.parse(HWND, WindowMessage::RawKeyboard { vkey: 16, flags: 0 }, true));
    let fwd = input.parse(HWND, WindowMessage::RawKeyboard { vkey: 27, flags: 0 }, true);
    assert!(fwd);
    assert!(!input.locked());
    // Unlocked again: messages flow to the original handler.
    assert!(input.parse(HWND, WindowMessage::ButtonOrKey, true));
    assert!(input.parse(HWND, WindowMessage::CursorQuery, true));
}

#[test]
fn toolbar_band_click_does_not_lock() {
    let mut input = RawInput::new();
    input.parse(HWND, WindowMessage::RawMouse { dx: 0, dy: 0, buttons: 0 }, true);
    // y within 130 pixels of the bottom: the host's toolbar stays clickable.
    let fwd = input.parse(
        HWND,
        WindowMessage::ParentNotifyLeftDown { y: 500, height: 600 },
        true,
    );
    assert!(fwd);
    assert!(!input.locked());
    // Exactly on the boundary locks.
    let fwd = input.parse(
        HWND,
        WindowMessage::ParentNotifyLeftDown { y: 470, height: 600 },
        true,
    );
    assert!(!fwd);
    assert!(input.locked());
}

#[test]
fn click_without_capture_does_not_lock() {
    let mut input = RawInput::new();
    let fwd = input.parse(
        HWND,
        WindowMessage::ParentNotifyLeftDown { y: 10, height: 600 },
        true,
    );
    assert!(fwd);
    assert!(!input.locked());
}

#[test]
fn dead_capture_window_releases_lock() {
    let mut input = captured_and_locked();
    // The capture window is gone at accumulate time: the lock is released.
    let recenter = input.accumulate(false);
    assert!(!recenter);
    assert!(!input.locked());
}

#[test]
fn other_messages_are_forwarded() {
    let mut input = captured_and_locked();
    assert!(input.parse(HWND, WindowMessage::Other, true));
}
