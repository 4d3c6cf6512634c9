use enigo::keycodes::{key_to_keysym, Modifier};
use enigo::text::{chars_of, push_decimal, push_hex_upper, push_str, same_text, string_from};
use enigo::xdo::{keysequence, mousebutton, scroll_clicks};
use enigo::xdo_early;
use enigo::{
    win_future_rel_mouse_location, Axis, Button, Coordinate, Direction, InputError, Key,
    NewConError, Settings,
};

#[test]
fn defaults() {
    assert_eq!(Button::default(), Button::Left);
    assert_eq!(Direction::default(), Direction::Click);
    assert_eq!(Axis::default(), Axis::Vertical);
    assert_eq!(Coordinate::default(), Coordinate::Abs);
    let s = Settings::default();
    assert_eq!(s.linux_delay, 12);
    assert_eq!(s.x11_display, None);
    assert_eq!(s.wayland_display, None);
    assert_eq!(s.windows_dw_extra_info, None);
    assert_eq!(s.event_source_user_data, None);
    assert!(s.release_keys_when_dropped);
    assert!(s.open_prompt_to_get_permissions);
    assert!(s.independent_of_keyboard_state);
    assert!(!s.windows_subject_to_mouse_speed_and_acceleration_level);
}

#[test]
fn input_error_messages() {
    assert_eq!(
        InputError::Mapping("XK_a".to_string()).to_string(),
        "error when mapping keycode to keysym: (XK_a)"
    );
    assert_eq!(
        InputError::Unmapping("XK_b".to_string()).to_string(),
        "error when unmapping keysym: (XK_b)"
    );
    assert_eq!(
        InputError::NoEmptyKeycodes.to_string(),
        "there were no empty keycodes that could be used"
    );
    assert_eq!(
        InputError::Simulate("oops").to_string(),
        "simulating input failed: (oops)"
    );
    assert_eq!(
        InputError::InvalidInput("bad").to_string(),
        "you tried to simulate invalid input: (bad)"
    );
}

#[test]
fn connection_error_messages() {
    assert_eq!(
        NewConError::EstablishCon("no display").to_string(),
        "no connection could be established: (no display)"
    );
    assert_eq!(
        NewConError::NoPermission.to_string(),
        "the application does not have the permission to simulate input"
    );
    assert_eq!(
        NewConError::Reply.to_string(),
        "there was an error with the reply from the display server. this should not happen"
    );
    assert_eq!(
        NewConError::NoEmptyKeycodes.to_string(),
        "there were no empty keycodes that could be used"
    );
}

#[test]
fn future_relative_location() {
    // no acceleration, full speed
    assert_eq!(win_future_rel_mouse_location(3, -3, 6, 10, 0, 10), (3, -3));
    // the first threshold doubles
    assert_eq!(win_future_rel_mouse_location(10, -15, 6, 10, 1, 10), (20, -30));
    // the second threshold doubles again at level two
    assert_eq!(win_future_rel_mouse_location(11, 0, 6, 10, 2, 10), (44, 0));
    // half speed rounds half away from zero
    assert_eq!(win_future_rel_mouse_location(5, -5, 6, 10, 0, 5), (3, -3));
    assert_eq!(win_future_rel_mouse_location(0, 0, 6, 10, 2, 20), (0, 0));
}

#[test]
fn mouse_speed_from_sensitivity() {
    assert_eq!(enigo::input::update_mouse_speed(10), Ok(10));
    assert_eq!(enigo::input::update_mouse_speed(1), Ok(1));
    assert_eq!(enigo::input::update_mouse_speed(20), Ok(20));
    let err = Err(InputError::InvalidInput("Mouse sensitivity must be between 1 and 20."));
    assert_eq!(enigo::input::update_mouse_speed(0), err);
    assert_eq!(enigo::input::update_mouse_speed(21), err);
}

#[test]
fn keysyms_of_named_keys() {
    assert_eq!(key_to_keysym(Key::Return), 0xff0d);
    assert_eq!(key_to_keysym(Key::Shift), 0xffe1);
    assert_eq!(key_to_keysym(Key::Space), 0x20);
    assert_eq!(key_to_keysym(Key::Other(0x1234)), 0x1234);
    assert_eq!(key_to_keysym(Key::Super), 0xffeb);
}

#[test]
fn keysyms_of_characters() {
    assert_eq!(key_to_keysym(Key::Unicode('a')), 0x61);
    assert_eq!(key_to_keysym(Key::Unicode('ä')), 0xe4);
    // characters of a legacy keysym table
    assert_eq!(key_to_keysym(Key::Unicode('Ж')), 0x6f6);
    // characters without one are offset into the Unicode keysym range
    assert_eq!(key_to_keysym(Key::Unicode('❤')), 0x0100_2764);
    // control characters with a keysym of their own
    assert_eq!(key_to_keysym(Key::Unicode('\n')), 0xff0a);
}

#[test]
fn modifiers() {
    assert_eq!(Modifier::Shift.bitflag(), 0x1);
    assert_eq!(Modifier::Mod5.bitflag(), 0x80);
    assert_eq!(Modifier::Control.no(), 2);
    for m in [
        Modifier::Shift,
        Modifier::Lock,
        Modifier::Control,
        Modifier::Mod1,
        Modifier::Mod2,
        Modifier::Mod3,
        Modifier::Mod4,
        Modifier::Mod5,
    ] {
        assert_eq!(m.bitflag(), 1 << m.no());
    }
    assert_eq!(Modifier::try_from(Key::RControl), Ok(Modifier::Control));
    assert_eq!(Modifier::try_from(Key::Meta), Ok(Modifier::Mod4));
    assert_eq!(Modifier::try_from(Key::Unicode('a')), Err("not a modifier key"));
}

#[test]
fn xdo_names() {
    assert_eq!(keysequence(Key::Return), Some("Return".to_string()));
    assert_eq!(keysequence(Key::ScrollLock), Some("Scroll_Lock".to_string()));
    assert_eq!(keysequence(Key::Hanja), Some("Hangul_Hanja".to_string()));
    assert_eq!(keysequence(Key::Unicode('a')), Some("U61".to_string()));
    assert_eq!(keysequence(Key::Unicode('❤')), Some("U2764".to_string()));
    assert_eq!(keysequence(Key::Other(65)), Some("65".to_string()));
    assert_eq!(xdo_early::keysequence(Key::Unicode('x')), Some("x".to_string()));
    assert_eq!(xdo_early::keysequence(Key::DownArrow), Some("DownArrow".to_string()));
    assert_eq!(xdo_early::keysequence(Key::Insert), None);
    assert_eq!(mousebutton(Button::Forward), 9);
    assert_eq!(scroll_clicks(-4, Axis::Horizontal), (Button::ScrollLeft, 4));
    assert_eq!(scroll_clicks(0, Axis::Vertical), (Button::ScrollDown, 0));
}

#[test]
fn text_helpers() {
    let mut s = string_from("x");
    push_str(&mut s, "yz");
    push_hex_upper(&mut s, 0xbeef);
    push_decimal(&mut s, 1024);
    assert_eq!(s, "xyzBEEF1024");
    assert_eq!(chars_of("aé"), vec!['a', 'é']);
    assert!(same_text("abc", "abc"));
    assert!(!same_text("abc", "abd"));
    assert!(!same_text("abc", "ab"));
}

#[test]
fn xdo_key_names_drop_every_xk() {
    assert_eq!(enigo::xdo::key_name(Key::Return), Ok("Return".to_string()));
    assert_eq!(enigo::xdo::key_name(Key::VolumeMute), Ok("XF86AudioMute".to_string()));
    assert_eq!(
        enigo::xdo::key_name(Key::Other(0x1234_5678)),
        Err(InputError::InvalidInput("the keysym does not have a name"))
    );
}

#[test]
fn xdo_refuses_null_characters() {
    assert_eq!(enigo::xdo::check_display_name(":0"), Ok(()));
    assert_eq!(
        enigo::xdo::check_display_name(":0\0"),
        Err(NewConError::EstablishCon("the display name contained a null byte"))
    );
    assert_eq!(enigo::xdo::check_text("abc"), Ok(()));
    assert_eq!(
        enigo::xdo::check_text("a\0c"),
        Err(InputError::InvalidInput(
            "the text to enter contained a NULL byte ('\\0\u{2019}), which is not allowed"
        ))
    );
}

#[test]
fn button_names_round_trip() {
    for b in [Button::Left, Button::Middle, Button::Right] {
        let (name, _) = enigo::input::button_variant(b).unwrap();
        assert_eq!(enigo::input::button_from_name(name), Ok(b));
    }
    assert_eq!(enigo::input::button_variant(Button::Middle), Ok(("middle", 1)));
    assert_eq!(
        enigo::input::button_variant(Button::Back),
        Err("Not a valid MouseButton type.")
    );
    assert_eq!(
        enigo::input::button_from_name("up"),
        Err("Not a valid MouseButton type.")
    );
}

#[test]
fn negated_motion_ends_at_the_negated_location() {
    // 3 * 4 * 15 = 180 and 7 * 4 * 15 = 420 tenths
    assert_eq!(win_future_rel_mouse_location(3, -7, 2, 5, 2, 15), (18, -42));
    assert_eq!(win_future_rel_mouse_location(-3, 7, 2, 5, 2, 15), (-18, 42));
    // 1 * 1 * 5 = 5 tenths rounds away from zero both ways
    assert_eq!(win_future_rel_mouse_location(1, 0, 6, 10, 0, 5), (1, 0));
    assert_eq!(win_future_rel_mouse_location(-1, 0, 6, 10, 0, 5), (-1, 0));
}
