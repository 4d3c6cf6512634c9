use enigo::libei::{
    EiEvent, EiRequest, EiSession, KeyRoute,
    button_action, check_motion, check_text, ensure_emulating, raw_evdev_keycode, scroll_amounts,
    utf8_byte_chunks, ButtonAction, DeviceState, SeatCapabilities, EI_TEXT_MAX_UTF8_LEN,
};
use enigo::protocols::{key_is_noop, unserved, Connections, HeldKeys, Protocol};
use enigo::vk::{combine_release, release_outcome, KeyMotion, Pressed, SubmitError};
use enigo::xdg::{is_wayland_session, key_states, portal_keycode, portal_keysym, portal_motions, KeyState};
use enigo::keycodes::Modifier;
use enigo::{Axis, Button, Coordinate, Direction, InputError, Key, NewConError};

#[test]
fn protocols_are_tried_in_order() {
    let c = Connections { xdg_desktop: false, wayland: true, x11: false, libei: true };
    assert_eq!(c.next_protocol(None), Some(Protocol::Wayland));
    assert_eq!(c.next_protocol(Some(Protocol::Wayland)), Some(Protocol::Libei));
    assert_eq!(c.next_protocol(Some(Protocol::Libei)), None);
    assert_eq!(c.next_protocol(Some(Protocol::XdgDesktop)), Some(Protocol::Wayland));
    assert_eq!(c.check(), Ok(()));
    let none = Connections { xdg_desktop: false, wayland: false, x11: false, libei: false };
    assert_eq!(none.next_protocol(None), None);
    assert_eq!(none.check(), Err(NewConError::EstablishCon("no successful connection")));
}

#[test]
fn unserved_requests() {
    assert_eq!(
        unserved(None, "No protocol to simulate the input"),
        InputError::Simulate("No protocol to simulate the input")
    );
    assert_eq!(
        unserved(Some(InputError::NoEmptyKeycodes), "No protocol to simulate the input"),
        InputError::NoEmptyKeycodes
    );
}

#[test]
fn null_key_is_a_noop() {
    assert!(key_is_noop(Key::Unicode('\0')));
    assert!(!key_is_noop(Key::Unicode('a')));
    assert!(!key_is_noop(Key::Return));
}

#[test]
fn held_keys_are_remembered_until_released() {
    let mut h = HeldKeys::new();
    h.key_sent(Key::Shift, Direction::Press);
    h.key_sent(Key::Unicode('a'), Direction::Click);
    h.key_sent(Key::Control, Direction::Press);
    h.key_sent(Key::Shift, Direction::Press);
    h.raw_sent(38, Direction::Press);
    assert_eq!(h.held(), (vec![Key::Shift, Key::Control, Key::Shift], vec![38]));
    h.key_sent(Key::Shift, Direction::Release);
    h.raw_sent(38, Direction::Release);
    assert_eq!(h.held(), (vec![Key::Control], vec![]));
}

#[test]
fn only_keys_that_were_entered_are_held() {
    let mut h = HeldKeys::new();
    let failed: Result<(), InputError> = Err(InputError::Simulate("No protocol to simulate the input"));
    h.key_outcome(Key::Shift, Direction::Press, &Ok(()));
    h.key_outcome(Key::Control, Direction::Press, &failed);
    h.raw_outcome(38, Direction::Press, &failed);
    h.raw_outcome(39, Direction::Press, &Ok(()));
    assert_eq!(h.held(), (vec![Key::Shift], vec![39]));
    // a release that failed leaves the key held
    h.key_outcome(Key::Shift, Direction::Release, &failed);
    assert_eq!(h.held(), (vec![Key::Shift], vec![39]));
    h.key_outcome(Key::Shift, Direction::Release, &Ok(()));
    h.raw_outcome(39, Direction::Release, &Ok(()));
    assert_eq!(h.held(), (vec![], vec![]));
}

#[test]
fn text_is_cut_on_character_boundaries() {
    let text = "aé€𝕊";
    let chunks = utf8_byte_chunks(text, 4);
    assert_eq!(chunks, vec!["aé", "€", "𝕊"]);
    assert_eq!(chunks.concat(), text);
    let long = "x".repeat(600);
    let chunks = utf8_byte_chunks(&long, EI_TEXT_MAX_UTF8_LEN);
    assert_eq!(chunks.iter().map(|c| c.len()).collect::<Vec<_>>(), vec![254, 254, 92]);
    assert!(utf8_byte_chunks("", 4).is_empty());
}

#[test]
fn devices_start_emulating_once_resumed() {
    assert_eq!(
        ensure_emulating(DeviceState::Resumed, 7),
        Ok((DeviceState::Emulating, 8, true))
    );
    assert_eq!(
        ensure_emulating(DeviceState::Resumed, u32::MAX),
        Ok((DeviceState::Emulating, 0, true))
    );
    assert_eq!(
        ensure_emulating(DeviceState::Emulating, 7),
        Ok((DeviceState::Emulating, 7, false))
    );
    assert_eq!(
        ensure_emulating(DeviceState::Paused, 7),
        Err(InputError::Simulate(
            "cannot simulate input: the device is paused by the EIS implementation"
        ))
    );
    assert_eq!(DeviceState::default(), DeviceState::Paused);
}

#[test]
fn buttons_as_libei_sends_them() {
    assert_eq!(button_action(Button::Left, Direction::Click), ButtonAction::Code(0x110));
    assert_eq!(button_action(Button::Right, Direction::Release), ButtonAction::Code(0x111));
    assert_eq!(button_action(Button::Middle, Direction::Press), ButtonAction::Code(0x112));
    assert_eq!(button_action(Button::Forward, Direction::Press), ButtonAction::Code(0x115));
    assert_eq!(button_action(Button::Back, Direction::Press), ButtonAction::Code(0x116));
    assert_eq!(
        button_action(Button::ScrollDown, Direction::Click),
        ButtonAction::Scroll(1, Axis::Vertical)
    );
    assert_eq!(
        button_action(Button::ScrollUp, Direction::Press),
        ButtonAction::Scroll(-1, Axis::Vertical)
    );
    assert_eq!(
        button_action(Button::ScrollRight, Direction::Click),
        ButtonAction::Scroll(1, Axis::Horizontal)
    );
    assert_eq!(
        button_action(Button::ScrollLeft, Direction::Click),
        ButtonAction::Scroll(-1, Axis::Horizontal)
    );
    assert_eq!(button_action(Button::ScrollLeft, Direction::Release), ButtonAction::Nothing);
}

#[test]
fn libei_checks() {
    assert_eq!(raw_evdev_keycode(38), Ok(30));
    assert_eq!(
        raw_evdev_keycode(7),
        Err(InputError::InvalidInput("the keycode must be at least 8 (X11 keycode offset)"))
    );
    assert_eq!(check_text("hello"), Ok(()));
    assert_eq!(
        check_text("he\0llo"),
        Err(InputError::InvalidInput(
            "the text to enter contained a NULL byte ('\\0'), which is not allowed"
        ))
    );
    assert_eq!(check_motion(-5, 3, Coordinate::Rel), Ok(()));
    assert_eq!(
        check_motion(5, -3, Coordinate::Abs),
        Err(InputError::InvalidInput("the absolute coordinates cannot be negative"))
    );
    assert_eq!(scroll_amounts(3, Axis::Horizontal), (3, 0));
    assert_eq!(scroll_amounts(-3, Axis::Vertical), (0, -3));
}

#[test]
fn seat_capabilities_bind_mask() {
    let mut caps = SeatCapabilities::new();
    assert_eq!(caps.bind_mask(), 0);
    caps.insert("ei_pointer".to_string(), 0x2);
    caps.insert("ei_keyboard".to_string(), 0x4);
    caps.insert("ei_touch_unknown".to_string(), 0x100);
    caps.insert("ei_text".to_string(), 0x40);
    caps.insert("ei_pointer".to_string(), 0x8);
    assert_eq!(caps.get("ei_pointer"), Some(0x8));
    assert_eq!(caps.get("ei_scroll"), None);
    assert_eq!(caps.bind_mask(), 0x8 | 0x4 | 0x40);
}

#[test]
fn portal_key_states() {
    assert_eq!(key_states(Direction::Press), vec![KeyState::Pressed]);
    assert_eq!(key_states(Direction::Release), vec![KeyState::Released]);
    assert_eq!(key_states(Direction::Click), vec![KeyState::Pressed, KeyState::Released]);
}

#[test]
fn portal_units() {
    assert_eq!(portal_keysym(Key::Return), Ok(0xff0d));
    assert_eq!(portal_keysym(Key::Unicode('a')), Ok(0x61));
    assert_eq!(
        portal_keysym(Key::Other(0x8000_0000)),
        Err(InputError::InvalidInput("The keysym was larger than i32::MAX"))
    );
    assert_eq!(portal_keycode(38), Ok(30));
    assert_eq!(portal_keycode(8), Ok(0));
    assert_eq!(
        portal_keycode(3),
        Err(InputError::InvalidInput("the keycode must be at least 8 (X11 keycode offset)"))
    );
    assert_eq!(portal_motions(4, 5, Coordinate::Rel), vec![(4, 5)]);
    assert_eq!(
        portal_motions(4, 5, Coordinate::Abs),
        vec![(i32::MIN, i32::MIN), (4, 5)]
    );
}

#[test]
fn wayland_sessions() {
    assert!(is_wayland_session(true, None));
    assert!(is_wayland_session(false, Some("Wayland")));
    assert!(is_wayland_session(false, Some("wayland")));
    assert!(!is_wayland_session(false, Some("x11")));
    assert!(!is_wayland_session(false, Some("waylandx")));
    assert!(!is_wayland_session(false, None));
}

#[test]
fn release_outcomes() {
    assert_eq!(combine_release(Ok(()), Ok(())), Ok(()));
    assert_eq!(
        combine_release(Err(SubmitError::InvalidKeycode), Err(SubmitError::NotAlive)),
        Err(SubmitError::NotAlive)
    );
    assert_eq!(
        combine_release(Ok(()), Err(SubmitError::InvalidKeycode)),
        Err(SubmitError::InvalidKeycode)
    );
    assert_eq!(release_outcome(&vec![]), Ok(()));
    assert_eq!(
        release_outcome(&vec![Err(SubmitError::NotAlive), Ok(()), Err(SubmitError::InvalidKeycode), Ok(())]),
        Err(SubmitError::InvalidKeycode)
    );
}

#[test]
fn virtual_keyboard_bookkeeping() {
    assert_eq!(KeyMotion::Press.code(), 1);
    assert_eq!(KeyMotion::Release.code(), 0);
    let mut p = Pressed::new();
    assert_eq!(p.toggle_motion(30), KeyMotion::Press);
    p.keycode_sent(30, KeyMotion::Press);
    p.keycode_sent(31, KeyMotion::Press);
    assert!(p.is_pressed(30));
    assert_eq!(p.toggle_motion(30), KeyMotion::Release);
    let mut keys = p.keys_to_release();
    keys.sort();
    assert_eq!(keys, vec![30, 31]);
    p.keycode_sent(30, KeyMotion::Release);
    assert!(!p.is_pressed(30));
    assert_eq!(p.toggled_modifiers(Modifier::Control), 0x4);
    p.modifiers_sent(0x5);
    assert_eq!(p.toggled_modifiers(Modifier::Control), 0x1);
    assert_eq!(p.toggled_modifiers(Modifier::Mod5), 0x85);
}

#[test]
fn libei_session_tracks_devices() {
    let mut s = EiSession::new();
    assert_eq!(s.handle(EiEvent::Connection(5)), Ok(()));
    assert_eq!(s.handle(EiEvent::SeatAdded(1)), Ok(()));
    // a device of an unknown seat is ignored
    assert_eq!(s.handle(EiEvent::DeviceAdded(2, 10)), Ok(()));
    assert_eq!(s.handle(EiEvent::DeviceAdded(1, 11)), Ok(()));
    assert_eq!(
        s.start_emulating(11),
        Err(InputError::Simulate(
            "cannot simulate input: the device is paused by the EIS implementation"
        ))
    );
    assert_eq!(s.handle(EiEvent::DeviceResumed(11, 7)), Ok(()));
    assert_eq!(s.start_emulating(11), Ok(Some((7, 0))));
    assert_eq!(s.start_emulating(11), Ok(None));
    assert_eq!(s.handle(EiEvent::DevicePaused(11, 8)), Ok(()));
    assert_eq!(s.handle(EiEvent::DeviceResumed(11, 9)), Ok(()));
    assert_eq!(s.start_emulating(11), Ok(Some((9, 1))));
    assert_eq!(s.handle(EiEvent::KeyboardKeymap(20, true, true)), Ok(()));
    assert!(s.has_keyboard(20));
    assert_eq!(s.disconnect(), None);
    assert_eq!(s.handle(EiEvent::Disconnected(12, 1, Some("bye".to_string()))), Ok(()));
    assert_eq!(s.disconnect(), Some((1, Some("bye".to_string()))));
    assert_eq!(s.last_serial(), 12);
    // a disconnect forgets the keyboards
    assert!(!s.has_keyboard(20));
    assert_eq!(s.handle(EiEvent::SeatAdded(1)), Ok(()));
    assert_eq!(s.handle(EiEvent::DeviceAdded(1, 11)), Ok(()));
    assert_eq!(s.handle(EiEvent::DeviceResumed(11, 13)), Ok(()));
    // the sequence starts over after a disconnect
    assert_eq!(s.start_emulating(11), Ok(Some((13, 0))));
}

#[test]
fn libei_keyboards_come_and_go() {
    let mut s = EiSession::new();
    assert_eq!(s.handle(EiEvent::KeyboardKeymap(3, true, true)), Ok(()));
    assert_eq!(s.handle(EiEvent::KeyboardKeymap(4, true, true)), Ok(()));
    assert_eq!(s.handle(EiEvent::KeyboardDestroyed(3, 21)), Ok(()));
    assert!(!s.has_keyboard(3));
    assert!(s.has_keyboard(4));
    assert_eq!(s.last_serial(), 21);
    assert_eq!(s.handle(EiEvent::Disconnected(22, 2, None)), Ok(()));
    assert_eq!(s.disconnect(), Some((2, None)));
    assert!(!s.has_keyboard(4));
}

#[test]
fn libei_pings_and_keymaps() {
    let mut s = EiSession::new();
    assert_eq!(s.handle(EiEvent::Ping(true)), Ok(()));
    assert_eq!(
        s.handle(EiEvent::Ping(false)),
        Err(InputError::Simulate("ei::Pingpong is no longer alive"))
    );
    // a keymap that is not an XKB one is ignored
    assert_eq!(s.handle(EiEvent::KeyboardKeymap(5, false, false)), Ok(()));
    assert!(!s.has_keyboard(5));
    assert_eq!(
        s.handle(EiEvent::KeyboardKeymap(5, true, false)),
        Err(InputError::Simulate("failed to create keymap"))
    );
    assert!(!s.has_keyboard(5));
    assert_eq!(s.handle(EiEvent::KeyboardKeymap(5, true, true)), Ok(()));
    assert!(s.has_keyboard(5));
}

#[test]
fn libei_text_interfaces() {
    let mut s = EiSession::new();
    assert_eq!(s.handle(EiEvent::SeatAdded(1)), Ok(()));
    assert_eq!(s.handle(EiEvent::DeviceAdded(1, 10)), Ok(()));
    assert_eq!(s.handle(EiEvent::DeviceAdded(1, 11)), Ok(()));
    assert_eq!(s.handle(EiEvent::DeviceInterface(10, "ei_text".to_string(), 100)), Ok(()));
    assert_eq!(s.handle(EiEvent::DeviceInterface(11, "ei_text".to_string(), 101)), Ok(()));
    // other interfaces, and interfaces of unknown devices, are not kept
    assert_eq!(s.handle(EiEvent::DeviceInterface(10, "ei_pointer".to_string(), 103)), Ok(()));
    assert_eq!(s.handle(EiEvent::DeviceInterface(12, "ei_text".to_string(), 102)), Ok(()));
    assert_eq!(s.text_interface(12), None);
    assert_eq!(s.text_interface(10), Some(100));
    assert_eq!(s.text_interface(11), Some(101));
    assert_eq!(s.handle(EiEvent::TextDestroyed(100, 30)), Ok(()));
    assert_eq!(s.text_interface(10), None);
    assert_eq!(s.text_interface(11), Some(101));
    assert_eq!(s.last_serial(), 30);
    assert_eq!(s.handle(EiEvent::DeviceDestroyed(11, 31)), Ok(()));
    assert_eq!(s.text_interface(11), None);
}

#[test]
fn libei_key_steps() {
    let levels = vec![(vec![0x61u32], vec![0x41u32]), (vec![0x62u32], vec![0x42u32])];
    let mut s = EiSession::new();
    assert_eq!(
        s.key_step(Key::Unicode('a'), Direction::Click, 8, &levels),
        Err(InputError::Simulate(
            "cannot simulate key event: no device implementing the `ei::Keyboard` interface was found on any connected device"
        ))
    );
    assert_eq!(s.handle(EiEvent::SeatAdded(1)), Ok(()));
    assert_eq!(s.handle(EiEvent::DeviceAdded(1, 10)), Ok(()));
    assert_eq!(s.handle(EiEvent::DeviceInterface(10, "ei_keyboard".to_string(), 200)), Ok(()));
    assert_eq!(
        s.key_step(Key::Unicode('a'), Direction::Click, 8, &levels),
        Err(InputError::Simulate("cannot simulate key event: no keymap was received for the keyboard"))
    );
    assert_eq!(s.handle(EiEvent::KeyboardKeymap(200, true, true)), Ok(()));
    assert_eq!(
        s.key_step(Key::Unicode('a'), Direction::Click, 8, &levels),
        Err(InputError::Simulate(
            "cannot simulate input: the device is paused by the EIS implementation"
        ))
    );
    assert_eq!(s.handle(EiEvent::DeviceResumed(10, 40)), Ok(()));
    assert_eq!(
        s.key_step(Key::Unicode('z'), Direction::Click, 8, &levels),
        Err(InputError::InvalidInput(
            "failed to map the requested key to a keycode: the provided key is not mapped in the current xkb keymap"
        ))
    );
    assert_eq!(
        s.key_step(Key::Unicode('B'), Direction::Click, 8, &levels),
        Ok((
            KeyRoute::Keyboard(10),
            vec![
                EiRequest::StartEmulating(10, 40, 0),
                EiRequest::KeyboardKey(200, 1, true),
                EiRequest::Frame(10, 40),
                EiRequest::KeyboardKey(200, 1, false),
                EiRequest::Frame(10, 40),
            ]
        ))
    );
    // a text interface is preferred; emulation has already started
    assert_eq!(s.handle(EiEvent::DeviceInterface(10, "ei_text".to_string(), 300)), Ok(()));
    assert_eq!(
        s.key_step(Key::Unicode('a'), Direction::Press, 8, &levels),
        Ok((KeyRoute::Text(10), vec![EiRequest::TextKeysym(300, 0x61, true), EiRequest::Frame(10, 40)]))
    );
}

#[test]
fn held_keys_are_released_on_drop_if_asked() {
    let mut h = HeldKeys::new();
    h.key_sent(Key::Shift, Direction::Press);
    h.raw_sent(38, Direction::Press);
    assert_eq!(h.to_release(true), (vec![Key::Shift], vec![38]));
    assert_eq!(h.to_release(false), (vec![], vec![]));
}
