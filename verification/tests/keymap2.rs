use enigo::keymap2::{find_keycode, key_name, level_keycode, modifier_change, strip_nul_padding, KeyDirection, PressedKeys};
use enigo::{InputError, Key};

#[test]
fn keys_are_mapped_by_name() {
    assert_eq!(key_name(Key::Return), Ok("Return".to_string()));
    assert_eq!(key_name(Key::Unicode('a')), Ok("a".to_string()));
    assert_eq!(key_name(Key::VolumeMute), Ok("XF86XK_AudioMute".to_string()));
    assert_eq!(
        key_name(Key::Other(0x1234_5678)),
        Err(InputError::Mapping("the key to map doesn't have a name".to_string()))
    );
}

#[test]
fn keycodes_are_found_by_name() {
    let syms = vec![0x61, 0xff0d, 0xff0d];
    assert_eq!(find_keycode(8, &syms, Key::Return), Some(9));
    assert_eq!(find_keycode(8, &syms, Key::Unicode('a')), Some(8));
    assert_eq!(find_keycode(8, &syms, Key::Tab), None);
    assert_eq!(find_keycode(8, &syms, Key::Other(0x1234_5678)), None);
    // the first match does not fit in u16
    assert_eq!(find_keycode(65535, &vec![0, 0xff0d], Key::Return), None);
}

#[test]
fn nul_padding_is_stripped() {
    assert_eq!(strip_nul_padding("xkb_keymap {}\0\0"), "xkb_keymap {}");
    assert_eq!(strip_nul_padding("\0a\0"), "\0a");
    assert_eq!(strip_nul_padding("\0\0"), "");
    assert_eq!(strip_nul_padding("abc"), "abc");
}

#[test]
fn modifier_changes_are_reported() {
    assert_eq!(modifier_change((1, 0, 0, 0), (1, 0, 0, 0)), None);
    assert_eq!(modifier_change((1, 0, 0, 0), (0, 0, 2, 0)), Some((0, 0, 2, 0)));
}

#[test]
fn keycodes_on_the_first_two_levels() {
    let levels = vec![(vec![0x61], vec![0x41]), (vec![0xff0d], vec![]), (vec![0x41], vec![])];
    assert_eq!(level_keycode(8, &levels, Key::Unicode('A')), Ok(8));
    assert_eq!(level_keycode(8, &levels, Key::Return), Ok(9));
    assert_eq!(
        level_keycode(8, &levels, Key::Unicode('z')),
        Err(InputError::InvalidInput("Key is not mapped"))
    );
}

#[test]
fn pressed_keys_follow_key_events() {
    let mut p = PressedKeys::new();
    assert_eq!(p.update_key(50, KeyDirection::Down, (0, 0, 0, 0), (1, 0, 0, 0)), Some((1, 0, 0, 0)));
    assert!(p.is_pressed(50));
    assert_eq!(p.update_key(38, KeyDirection::Down, (1, 0, 0, 0), (1, 0, 0, 0)), None);
    assert!(p.is_pressed(38));
    assert_eq!(p.update_key(50, KeyDirection::Up, (1, 0, 0, 0), (0, 0, 0, 0)), Some((0, 0, 0, 0)));
    assert!(!p.is_pressed(50));
    assert!(p.is_pressed(38));
}
