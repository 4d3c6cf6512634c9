use enigo::macos::{
    cg_keycode, event_flags_after, flag_rule, key_plan, raw_flags, FlagOp, KeyPlan, KeycodeSource,
};
use enigo::macos::Key as MacKey;
use enigo::win::virtual_key;
use enigo::win::Key as WinKey;
use enigo::{Direction, InputError};

#[test]
fn windows_virtual_keys() {
    assert_eq!(virtual_key(WinKey::A), Ok(0x41));
    assert_eq!(virtual_key(WinKey::Num7), Ok(0x37));
    assert_eq!(virtual_key(WinKey::F24), Ok(0x87));
    assert_eq!(virtual_key(WinKey::Return), Ok(0x0d));
    assert_eq!(virtual_key(WinKey::PageUp), Ok(0x21));
    assert_eq!(virtual_key(WinKey::PrintScr), Ok(0x2c));
    assert_eq!(virtual_key(WinKey::Snapshot), Ok(0x2c));
    assert_eq!(virtual_key(WinKey::Meta), Ok(0x5b));
    assert_eq!(virtual_key(WinKey::LWin), Ok(0x5b));
    assert_eq!(virtual_key(WinKey::Option), Ok(0x12));
    assert_eq!(virtual_key(WinKey::GamepadRightThumbstickLeft), Ok(0xda));
    assert_eq!(virtual_key(WinKey::NoneKey), Ok(0xff));
    assert_eq!(virtual_key(WinKey::Other(0xffff)), Ok(0xffff));
    assert_eq!(
        virtual_key(WinKey::Other(0x1_0000)),
        Err("virtual keycodes on Windows have to fit into u16")
    );
    assert_eq!(virtual_key(WinKey::Unicode('a')), Err("Unicode must be entered via scancodes"));
}

#[test]
fn macos_keycodes() {
    assert_eq!(cg_keycode(MacKey::Return), Ok(KeycodeSource::Code(0x24)));
    assert_eq!(cg_keycode(MacKey::Meta), Ok(KeycodeSource::Code(0x37)));
    assert_eq!(cg_keycode(MacKey::Launchpad), Ok(KeycodeSource::Code(131)));
    assert_eq!(cg_keycode(MacKey::Unicode('a')), Ok(KeycodeSource::Layout('a')));
    assert_eq!(cg_keycode(MacKey::Other(0x1_0000)), Err(()));
    assert_eq!(cg_keycode(MacKey::Eject), Err(()));
}

#[test]
fn macos_event_flags() {
    // shift sets its flag and the left device flag while it is held
    assert_eq!(flag_rule(0x38), (FlagOp::Insert, FlagOp::Remove, 0x2_0002));
    let f = event_flags_after(0x100, 0x38, Direction::Press);
    assert_eq!(f, 0x2_0102);
    assert_eq!(event_flags_after(f, 0x38, Direction::Release), 0x100);
    // caps lock flips its flags on a press only
    let f = event_flags_after(0, 0x39, Direction::Press);
    assert_eq!(f, 0x1_0080);
    assert_eq!(event_flags_after(f, 0x39, Direction::Release), 0x1_0080);
    assert_eq!(event_flags_after(f, 0x39, Direction::Press), 0);
    // a key of the numeric pad keeps its flag set after the release
    assert_eq!(raw_flags(0, 0x52, Direction::Click), 0x20_0000);
    // an arrow key sets the function and numeric pad flags
    assert_eq!(raw_flags(0, 0x7b, Direction::Press), 0xa0_0000);
    // a letter changes nothing
    assert_eq!(raw_flags(0x100, 0x00, Direction::Click), 0x100);
}

#[test]
fn macos_key_plans() {
    assert_eq!(key_plan(MacKey::Unicode('\0'), Direction::Click, 7), Ok((KeyPlan::Nothing, 7)));
    assert_eq!(key_plan(MacKey::VolumeUp, Direction::Press, 7), Ok((KeyPlan::Special(0), 7)));
    assert_eq!(key_plan(MacKey::IlluminationToggle, Direction::Click, 7), Ok((KeyPlan::Special(23), 7)));
    assert_eq!(key_plan(MacKey::Shift, Direction::Press, 0), Ok((KeyPlan::Keycode(0x38), 0x2_0002)));
    assert_eq!(key_plan(MacKey::Shift, Direction::Click, 0), Ok((KeyPlan::Keycode(0x38), 0)));
    assert_eq!(key_plan(MacKey::Unicode('a'), Direction::Click, 0), Ok((KeyPlan::LayoutKeycode('a'), 0)));
    assert_eq!(
        key_plan(MacKey::Other(0x1_0000), Direction::Click, 0),
        Err(InputError::InvalidInput("virtual keycodes on macOS have to fit into u16"))
    );
}
