//! The macOS backend's decisions: the keys of a macOS keyboard, the
//! keycode each is sent with, the event flags that pressing and releasing a
//! keycode leaves set, and how a key is entered.

use vstd::prelude::*;

use crate::input::{Direction, InputError, InputResult};

verus! {

/// A key of a macOS keyboard.
/// Use [`Key::Unicode`] to enter arbitrary Unicode chars.
/// If a key is missing, you can simulate it by using [`Key::Other`], which
/// holds the keycode itself.
#[derive(Debug, Copy, Clone, PartialEq, Eq, Hash, Structural)]
pub enum Key {
    /// alt key on Linux and Windows (option key on macOS)
    Alt,
    /// backspace key
    Backspace,
    BrightnessDown,
    BrightnessUp,
    /// caps lock key
    CapsLock,
    /// command key on macOS (super key on Linux, windows key on Windows)
    Command,
    ContrastUp,
    ContrastDown,
    /// control key
    Control,
    /// delete key
    Delete,
    /// down arrow key
    DownArrow,
    Eject,
    /// end key
    End,
    /// escape key (esc)
    Escape,
    /// F1 key
    F1,
    /// F2 key
    F2,
    /// F3 key
    F3,
    /// F4 key
    F4,
    /// F5 key
    F5,
    /// F6 key
    F6,
    /// F7 key
    F7,
    /// F8 key
    F8,
    /// F9 key
    F9,
    /// F10 key
    F10,
    /// F11 key
    F11,
    /// F12 key
    F12,
    /// F13 key
    F13,
    /// F14 key
    F14,
    /// F15 key
    F15,
    /// F16 key
    F16,
    /// F17 key
    F17,
    /// F18 key
    F18,
    /// F19 key
    F19,
    /// F20 key
    F20,
    Function,
    Help,
    /// home key
    Home,
    IlluminationDown,
    IlluminationUp,
    IlluminationToggle,
    /// Opens launchpad
    Launchpad,
    LaunchPanel,
    LControl,
    /// left arrow key
    LeftArrow,
    LShift,
    MediaFast,
    MediaNextTrack,
    MediaPlayPause,
    MediaPrevTrack,
    MediaRewind,
    /// meta key (also known as "windows", "super", and "command")
    Meta,
    /// Opens mission control
    MissionControl,
    /// option key on macOS (alt key on Linux and Windows)
    Option,
    /// page down key
    PageDown,
    /// page up key
    PageUp,
    Power,
    RCommand,
    RControl,
    /// return key
    Return,
    /// right arrow key
    RightArrow,
    ROption,
    RShift,
    /// shift key
    Shift,
    /// space key
    Space,
    /// super key on linux (command key on macOS, windows key on Windows)
    Super,
    /// tab key (tabulator)
    Tab,
    /// up arrow key
    UpArrow,
    VidMirror,
    VolumeDown,
    VolumeMute,
    VolumeUp,
    /// windows key on Windows (super key on Linux, command key on macOS)
    Windows,
    /// Unicode character
    Unicode(char),
    /// Use this for keys that are not listed here that you know the
    /// value of. Let us know if you think the key should be listed so
    /// we can add it
    /// On Linux, this will result in a keysym,
    /// On Windows, this will result in a `Virtual_Key` and
    /// On macOS, this will yield a `KeyCode`
    Other(u32),
}

/// The event flag of the command key (`kCGEventFlagMaskCommand`)
pub const CMD: u64 = 0x0010_0000;
/// The event flag of the shift keys (`kCGEventFlagMaskShift`)
pub const SHIFT: u64 = 0x0002_0000;
/// The event flag of the control keys (`kCGEventFlagMaskControl`)
pub const CONTROL: u64 = 0x0004_0000;
/// The event flag of the option keys (`kCGEventFlagMaskAlternate`)
pub const ALTERNATE: u64 = 0x0008_0000;
/// The event flag of caps lock (`kCGEventFlagMaskAlphaShift`)
pub const ALPHA_SHIFT: u64 = 0x0001_0000;
/// The event flag of the function key (`kCGEventFlagMaskSecondaryFn`)
pub const SECONDARY_FN: u64 = 0x0080_0000;
/// The event flag of the keys of the numeric pad (`kCGEventFlagMaskNumericPad`)
pub const NUMERIC_PAD: u64 = 0x0020_0000;
/// The event flag of the help key (`kCGEventFlagMaskHelp`)
pub const HELP: u64 = 0x0040_0000;

/// What a key event does to the event flags of its mask
#[derive(Debug, Copy, Clone, PartialEq, Eq, Hash, Structural)]
pub enum FlagOp {
    /// The mask's flags are set
    Insert,
    /// The mask's flags are cleared
    Remove,
    /// The mask's flags are flipped
    Toggle,
    /// The flags stay as they are
    Keep,
}

/// The flags after an operation with a mask
pub open spec fn apply_flag_op(op: FlagOp, flags: u64, mask: u64) -> u64 {
    match op {
        FlagOp::Insert => flags | mask,
        FlagOp::Remove => flags & !mask,
        FlagOp::Toggle => flags ^ mask,
        FlagOp::Keep => flags,
    }
}

/// For a keycode: what pressing it does to the event flags, what releasing
/// it does, and the mask they do it with. The modifier keys set their flag
/// and the device flag of the left or right key while pressed; caps lock
/// flips its flags on a press; the keys of the numeric pad and the function
/// and navigation keys set their flags on both. The small masks are the
/// device flags: left control 0x01, left shift 0x02, right shift 0x04, left
/// command 0x08, right command 0x10, left option 0x20, right option 0x40,
/// caps lock 0x80 and right control 0x2000.
pub open spec fn spec_flag_rule(keycode: u16) -> (FlagOp, FlagOp, u64) {
    if keycode == 0x36 {  // right command
        (FlagOp::Insert, FlagOp::Remove, CMD | 0x10)
    } else if keycode == 0x37 {  // command
        (FlagOp::Insert, FlagOp::Remove, CMD | 0x08)
    } else if keycode == 0x38 {  // shift
        (FlagOp::Insert, FlagOp::Remove, SHIFT | 0x02)
    } else if keycode == 0x39 {  // caps lock
        (FlagOp::Toggle, FlagOp::Keep, ALPHA_SHIFT | 0x80)
    } else if keycode == 0x3a {  // option
        (FlagOp::Insert, FlagOp::Remove, ALTERNATE | 0x20)
    } else if keycode == 0x3b {  // control
        (FlagOp::Insert, FlagOp::Remove, CONTROL | 0x01)
    } else if keycode == 0x3c {  // right shift
        (FlagOp::Insert, FlagOp::Remove, SHIFT | 0x04)
    } else if keycode == 0x3d {  // right option
        (FlagOp::Insert, FlagOp::Remove, ALTERNATE | 0x40)
    } else if keycode == 0x3e {  // right control
        (FlagOp::Insert, FlagOp::Remove, CONTROL | 0x2000)
    } else if keycode == 0x3f {  // function
        (FlagOp::Insert, FlagOp::Remove, SECONDARY_FN)
    } else if keycode == 0x40 {  // F17
        (FlagOp::Insert, FlagOp::Insert, SECONDARY_FN)
    } else if keycode == 0x41 || keycode == 0x43 || keycode == 0x45 {
        (FlagOp::Insert, FlagOp::Insert, NUMERIC_PAD)
    } else if keycode == 0x47 {
        (FlagOp::Insert, FlagOp::Insert, SECONDARY_FN)
    } else if keycode == 0x4b || keycode == 0x4c || keycode == 0x4e {
        (FlagOp::Insert, FlagOp::Insert, NUMERIC_PAD)
    } else if keycode == 0x4f || keycode == 0x50 {
        (FlagOp::Insert, FlagOp::Insert, SECONDARY_FN)
    } else if (0x51 <= keycode <= 0x59) || (0x5b <= keycode <= 0x5c) {
        (FlagOp::Insert, FlagOp::Insert, NUMERIC_PAD)
    } else if (0x60 <= keycode <= 0x65) || keycode == 0x67 || (0x69 <= keycode <= 0x6b) || keycode == 0x6d
        || keycode == 0x6f || keycode == 0x71 {
        (FlagOp::Insert, FlagOp::Insert, SECONDARY_FN)
    } else if keycode == 0x72 {  // help
        (FlagOp::Insert, FlagOp::Insert, SECONDARY_FN | HELP)
    } else if 0x73 <= keycode <= 0x7a {
        (FlagOp::Insert, FlagOp::Insert, SECONDARY_FN)
    } else if 0x7b <= keycode <= 0x7e {  // arrows
        (FlagOp::Insert, FlagOp::Insert, SECONDARY_FN | NUMERIC_PAD)
    } else if (0x81 <= keycode <= 0x83) || keycode == 0x90 || keycode == 0x91 || keycode == 0xa0
        || (0xb0 <= keycode <= 0xb2) {
        (FlagOp::Insert, FlagOp::Insert, SECONDARY_FN)
    } else {
        (FlagOp::Keep, FlagOp::Keep, 0)
    }
}

/// The rule of [`spec_flag_rule`] for a keycode
pub fn flag_rule(keycode: u16) -> (r: (FlagOp, FlagOp, u64))
    ensures
        r == spec_flag_rule(keycode),
{
    if keycode == 0x36 {  // right command
        (FlagOp::Insert, FlagOp::Remove, CMD | 0x10)
    } else if keycode == 0x37 {  // command
        (FlagOp::Insert, FlagOp::Remove, CMD | 0x08)
    } else if keycode == 0x38 {  // shift
        (FlagOp::Insert, FlagOp::Remove, SHIFT | 0x02)
    } else if keycode == 0x39 {  // caps lock
        (FlagOp::Toggle, FlagOp::Keep, ALPHA_SHIFT | 0x80)
    } else if keycode == 0x3a {  // option
        (FlagOp::Insert, FlagOp::Remove, ALTERNATE | 0x20)
    } else if keycode == 0x3b {  // control
        (FlagOp::Insert, FlagOp::Remove, CONTROL | 0x01)
    } else if keycode == 0x3c {  // right shift
        (FlagOp::Insert, FlagOp::Remove, SHIFT | 0x04)
    } else if keycode == 0x3d {  // right option
        (FlagOp::Insert, FlagOp::Remove, ALTERNATE | 0x40)
    } else if keycode == 0x3e {  // right control
        (FlagOp::Insert, FlagOp::Remove, CONTROL | 0x2000)
    } else if keycode == 0x3f {  // function
        (FlagOp::Insert, FlagOp::Remove, SECONDARY_FN)
    } else if keycode == 0x40 {  // F17
        (FlagOp::Insert, FlagOp::Insert, SECONDARY_FN)
    } else if keycode == 0x41 || keycode == 0x43 || keycode == 0x45 {
        (FlagOp::Insert, FlagOp::Insert, NUMERIC_PAD)
    } else if keycode == 0x47 {
        (FlagOp::Insert, FlagOp::Insert, SECONDARY_FN)
    } else if keycode == 0x4b || keycode == 0x4c || keycode == 0x4e {
        (FlagOp::Insert, FlagOp::Insert, NUMERIC_PAD)
    } else if keycode == 0x4f || keycode == 0x50 {
        (FlagOp::Insert, FlagOp::Insert, SECONDARY_FN)
    } else if (0x51 <= keycode && keycode <= 0x59) || (0x5b <= keycode && keycode <= 0x5c) {
        (FlagOp::Insert, FlagOp::Insert, NUMERIC_PAD)
    } else if (0x60 <= keycode && keycode <= 0x65) || keycode == 0x67 || (0x69 <= keycode && keycode <= 0x6b)
        || keycode == 0x6d || keycode == 0x6f || keycode == 0x71 {
        (FlagOp::Insert, FlagOp::Insert, SECONDARY_FN)
    } else if keycode == 0x72 {  // help
        (FlagOp::Insert, FlagOp::Insert, SECONDARY_FN | HELP)
    } else if 0x73 <= keycode && keycode <= 0x7a {
        (FlagOp::Insert, FlagOp::Insert, SECONDARY_FN)
    } else if 0x7b <= keycode && keycode <= 0x7e {  // arrows
        (FlagOp::Insert, FlagOp::Insert, SECONDARY_FN | NUMERIC_PAD)
    } else if (0x81 <= keycode && keycode <= 0x83) || keycode == 0x90 || keycode == 0x91 || keycode == 0xa0
        || (0xb0 <= keycode && keycode <= 0xb2) {
        (FlagOp::Insert, FlagOp::Insert, SECONDARY_FN)
    } else {
        (FlagOp::Keep, FlagOp::Keep, 0)
    }
}

/// The event flags after a press or a release of the keycode; a click
/// leaves them as they are
pub open spec fn spec_event_flags_after(flags: u64, keycode: u16, direction: Direction) -> u64 {
    let (press, release, mask) = spec_flag_rule(keycode);
    match direction {
        Direction::Press => apply_flag_op(press, flags, mask),
        Direction::Release => apply_flag_op(release, flags, mask),
        Direction::Click => flags,
    }
}

/// Adds or removes the event flags as the keycode needs them. A click is
/// sent as a press and a release, each with its own flags, so it is never
/// asked for here.
pub fn event_flags_after(flags: u64, keycode: u16, direction: Direction) -> (r: u64)
    requires
        direction != Direction::Click,
    ensures
        r == spec_event_flags_after(flags, keycode, direction),
{
    let (press, release, mask) = flag_rule(keycode);
    let op = if direction == Direction::Press {
        press
    } else {
        release
    };
    match op {
        FlagOp::Insert => flags | mask,
        FlagOp::Remove => flags & !mask,
        FlagOp::Toggle => flags ^ mask,
        FlagOp::Keep => flags,
    }
}

/// The event flags after a raw key event: a press, a release, or a click,
/// which is a press followed by a release
pub open spec fn spec_raw_flags(flags: u64, keycode: u16, direction: Direction) -> u64 {
    match direction {
        Direction::Click => spec_event_flags_after(
            spec_event_flags_after(flags, keycode, Direction::Press),
            keycode,
            Direction::Release,
        ),
        _ => spec_event_flags_after(flags, keycode, direction),
    }
}

/// The event flags after a raw key event of the keycode
pub fn raw_flags(flags: u64, keycode: u16, direction: Direction) -> (r: u64)
    ensures
        r == spec_raw_flags(flags, keycode, direction),
{
    match direction {
        Direction::Click => {
            let pressed = event_flags_after(flags, keycode, Direction::Press);
            event_flags_after(pressed, keycode, Direction::Release)
        },
        _ => event_flags_after(flags, keycode, direction),
    }
}

/// Where the keycode of a key comes from
#[derive(Debug, Copy, Clone, PartialEq, Eq, Hash, Structural)]
pub enum KeycodeSource {
    /// This keycode
    Code(u16),
    /// The keycode that enters the character on the current keyboard layout
    Layout(char),
}

/// The keycode of a key. The keys that are entered as system events have
/// none, and neither does a code given with [`Key::Other`] that does not fit
/// into 16 bits. A comment names the key that a keycode belongs to.
pub open spec fn spec_cg_keycode(key: Key) -> Result<KeycodeSource, ()> {
    match key {
        Key::Alt | Key::Option => Ok(KeycodeSource::Code(0x3a)),  // option
        Key::Backspace => Ok(KeycodeSource::Code(0x33)),  // delete
        Key::CapsLock => Ok(KeycodeSource::Code(0x39)),  // caps lock
        Key::Control | Key::LControl => Ok(KeycodeSource::Code(0x3b)),  // control
        Key::Delete => Ok(KeycodeSource::Code(0x75)),  // forward delete
        Key::DownArrow => Ok(KeycodeSource::Code(0x7d)),  // down arrow
        Key::End => Ok(KeycodeSource::Code(0x77)),  // end
        Key::Escape => Ok(KeycodeSource::Code(0x35)),  // escape
        Key::F1 => Ok(KeycodeSource::Code(0x7a)),
        Key::F2 => Ok(KeycodeSource::Code(0x78)),
        Key::F3 => Ok(KeycodeSource::Code(0x63)),
        Key::F4 => Ok(KeycodeSource::Code(0x76)),
        Key::F5 => Ok(KeycodeSource::Code(0x60)),
        Key::F6 => Ok(KeycodeSource::Code(0x61)),
        Key::F7 => Ok(KeycodeSource::Code(0x62)),
        Key::F8 => Ok(KeycodeSource::Code(0x64)),
        Key::F9 => Ok(KeycodeSource::Code(0x65)),
        Key::F10 => Ok(KeycodeSource::Code(0x6d)),
        Key::F11 => Ok(KeycodeSource::Code(0x67)),
        Key::F12 => Ok(KeycodeSource::Code(0x6f)),
        Key::F13 => Ok(KeycodeSource::Code(0x69)),
        Key::F14 => Ok(KeycodeSource::Code(0x6b)),
        Key::F15 => Ok(KeycodeSource::Code(0x71)),
        Key::F16 => Ok(KeycodeSource::Code(0x6a)),
        Key::F17 => Ok(KeycodeSource::Code(0x40)),
        Key::F18 => Ok(KeycodeSource::Code(0x4f)),
        Key::F19 => Ok(KeycodeSource::Code(0x50)),
        Key::F20 => Ok(KeycodeSource::Code(0x5a)),
        Key::Function => Ok(KeycodeSource::Code(0x3f)),  // function
        Key::Help => Ok(KeycodeSource::Code(0x72)),  // help
        Key::Home => Ok(KeycodeSource::Code(0x73)),  // home
        Key::Launchpad => Ok(KeycodeSource::Code(131)),
        Key::LeftArrow => Ok(KeycodeSource::Code(0x7b)),  // left arrow
        Key::MissionControl => Ok(KeycodeSource::Code(160)),
        Key::PageDown => Ok(KeycodeSource::Code(0x79)),  // page down
        Key::PageUp => Ok(KeycodeSource::Code(0x74)),  // page up
        Key::RCommand => Ok(KeycodeSource::Code(0x36)),  // right command
        Key::RControl => Ok(KeycodeSource::Code(0x3e)),  // right control
        Key::Return => Ok(KeycodeSource::Code(0x24)),  // return
        Key::RightArrow => Ok(KeycodeSource::Code(0x7c)),  // right arrow
        Key::RShift => Ok(KeycodeSource::Code(0x3c)),  // right shift
        Key::ROption => Ok(KeycodeSource::Code(0x3d)),  // right option
        Key::Shift | Key::LShift => Ok(KeycodeSource::Code(0x38)),  // shift
        Key::Space => Ok(KeycodeSource::Code(0x31)),  // space
        Key::Tab => Ok(KeycodeSource::Code(0x30)),  // tab
        Key::UpArrow => Ok(KeycodeSource::Code(0x7e)),  // up arrow
        Key::VolumeDown => Ok(KeycodeSource::Code(0x49)),  // volume down
        Key::VolumeUp => Ok(KeycodeSource::Code(0x48)),  // volume up
        Key::VolumeMute => Ok(KeycodeSource::Code(0x4a)),  // mute
        Key::Super | Key::Command | Key::Windows | Key::Meta => Ok(KeycodeSource::Code(0x37)),  // command
        Key::Unicode(c) => Ok(KeycodeSource::Layout(c)),
        Key::Other(v) => if v <= 0xFFFF {
            Ok(KeycodeSource::Code(v as u16))
        } else {
            Err(())
        },
        Key::BrightnessDown | Key::BrightnessUp | Key::ContrastUp | Key::ContrastDown | Key::Eject | Key::IlluminationDown
        | Key::IlluminationUp | Key::IlluminationToggle | Key::LaunchPanel | Key::MediaFast | Key::MediaNextTrack
        | Key::MediaPlayPause | Key::MediaPrevTrack | Key::MediaRewind | Key::Power | Key::VidMirror => Err(()),
    }
}

/// The keys that a keycode belongs to, listed by keycode (the
/// `kVK_` constants of the Carbon headers: return 0x24, tab 0x30, space 0x31,
/// delete 0x33, escape 0x35, the modifiers from 0x36 to 0x3f, the function
/// keys, the arrows from 0x7b to 0x7e); Launchpad and Mission Control have
/// 131 and 160
pub open spec fn cg_names_key(code: u16, key: Key) -> bool {
    match code {
        0x24 => key == Key::Return,
        0x30 => key == Key::Tab,
        0x31 => key == Key::Space,
        0x33 => key == Key::Backspace,
        0x35 => key == Key::Escape,
        0x36 => key == Key::RCommand,
        0x37 => key == Key::Super || key == Key::Command || key == Key::Windows || key == Key::Meta,
        0x38 => key == Key::Shift || key == Key::LShift,
        0x39 => key == Key::CapsLock,
        0x3a => key == Key::Alt || key == Key::Option,
        0x3b => key == Key::Control || key == Key::LControl,
        0x3c => key == Key::RShift,
        0x3d => key == Key::ROption,
        0x3e => key == Key::RControl,
        0x3f => key == Key::Function,
        0x40 => key == Key::F17,
        0x48 => key == Key::VolumeUp,
        0x49 => key == Key::VolumeDown,
        0x4a => key == Key::VolumeMute,
        0x4f => key == Key::F18,
        0x50 => key == Key::F19,
        0x5a => key == Key::F20,
        0x60 => key == Key::F5,
        0x61 => key == Key::F6,
        0x62 => key == Key::F7,
        0x63 => key == Key::F3,
        0x64 => key == Key::F8,
        0x65 => key == Key::F9,
        0x67 => key == Key::F11,
        0x69 => key == Key::F13,
        0x6a => key == Key::F16,
        0x6b => key == Key::F14,
        0x6d => key == Key::F10,
        0x6f => key == Key::F12,
        0x71 => key == Key::F15,
        0x72 => key == Key::Help,
        0x73 => key == Key::Home,
        0x74 => key == Key::PageUp,
        0x75 => key == Key::Delete,
        0x76 => key == Key::F4,
        0x77 => key == Key::End,
        0x78 => key == Key::F2,
        0x79 => key == Key::PageDown,
        0x7a => key == Key::F1,
        0x7b => key == Key::LeftArrow,
        0x7c => key == Key::RightArrow,
        0x7d => key == Key::DownArrow,
        0x7e => key == Key::UpArrow,
        131 => key == Key::Launchpad,
        160 => key == Key::MissionControl,
        _ => false,
    }
}

/// The keys that are entered as system events and have no keycode
pub open spec fn system_event_key(key: Key) -> bool {
    key == Key::BrightnessDown || key == Key::BrightnessUp || key == Key::ContrastUp || key == Key::ContrastDown
        || key == Key::Eject || key == Key::IlluminationDown || key == Key::IlluminationUp
        || key == Key::IlluminationToggle || key == Key::LaunchPanel || key == Key::MediaFast
        || key == Key::MediaNextTrack || key == Key::MediaPlayPause || key == Key::MediaPrevTrack
        || key == Key::MediaRewind || key == Key::Power || key == Key::VidMirror
}

/// Each named key other than those entered as system events has a keycode,
/// and that keycode is the one of its name: keys that belong to different
/// keycodes, such as `Tab` and `Space`, are sent with different keycodes. A
/// character is looked up on the layout, and a system-event key has none.
#[verifier::rlimit(50)]
pub proof fn lemma_cg_keycode_names(key: Key, code: u16)
    ensures
        !(key is Unicode) && !(key is Other) && !system_event_key(key) ==> spec_cg_keycode(key) is Ok
            && spec_cg_keycode(key)->Ok_0 is Code,
        !(key is Other) && spec_cg_keycode(key) == Ok::<KeycodeSource, ()>(KeycodeSource::Code(code))
            ==> cg_names_key(code, key),
        key matches Key::Unicode(c) ==> spec_cg_keycode(key) == Ok::<KeycodeSource, ()>(KeycodeSource::Layout(c)),
        system_event_key(key) ==> spec_cg_keycode(key) is Err,
{
    match key {
        Key::Alt => {},
        Key::Backspace => {},
        Key::BrightnessDown => {},
        Key::BrightnessUp => {},
        Key::CapsLock => {},
        Key::Command => {},
        Key::ContrastUp => {},
        Key::ContrastDown => {},
        Key::Control => {},
        Key::Delete => {},
        Key::DownArrow => {},
        Key::Eject => {},
        Key::End => {},
        Key::Escape => {},
        Key::F1 => {},
        Key::F2 => {},
        Key::F3 => {},
        Key::F4 => {},
        Key::F5 => {},
        Key::F6 => {},
        Key::F7 => {},
        Key::F8 => {},
        Key::F9 => {},
        Key::F10 => {},
        Key::F11 => {},
        Key::F12 => {},
        Key::F13 => {},
        Key::F14 => {},
        Key::F15 => {},
        Key::F16 => {},
        Key::F17 => {},
        Key::F18 => {},
        Key::F19 => {},
        Key::F20 => {},
        Key::Function => {},
        Key::Help => {},
        Key::Home => {},
        Key::IlluminationDown => {},
        Key::IlluminationUp => {},
        Key::IlluminationToggle => {},
        Key::Launchpad => {},
        Key::LaunchPanel => {},
        Key::LControl => {},
        Key::LeftArrow => {},
        Key::LShift => {},
        Key::MediaFast => {},
        Key::MediaNextTrack => {},
        Key::MediaPlayPause => {},
        Key::MediaPrevTrack => {},
        Key::MediaRewind => {},
        Key::Meta => {},
        Key::MissionControl => {},
        Key::Option => {},
        Key::PageDown => {},
        Key::PageUp => {},
        Key::Power => {},
        Key::RCommand => {},
        Key::RControl => {},
        Key::Return => {},
        Key::RightArrow => {},
        Key::ROption => {},
        Key::RShift => {},
        Key::Shift => {},
        Key::Space => {},
        Key::Super => {},
        Key::Tab => {},
        Key::UpArrow => {},
        Key::VidMirror => {},
        Key::VolumeDown => {},
        Key::VolumeMute => {},
        Key::VolumeUp => {},
        Key::Windows => {},
        Key::Unicode(_) => {},
        Key::Other(_) => {},
    }
}

/// Converts a key to where its keycode comes from
pub fn cg_keycode(key: Key) -> (r: Result<KeycodeSource, ()>)
    ensures
        r == spec_cg_keycode(key),
{
    let source = match key {
        Key::Alt | Key::Option => KeycodeSource::Code(0x3a),  // option
        Key::Backspace => KeycodeSource::Code(0x33),  // delete
        Key::CapsLock => KeycodeSource::Code(0x39),  // caps lock
        Key::Control | Key::LControl => KeycodeSource::Code(0x3b),  // control
        Key::Delete => KeycodeSource::Code(0x75),  // forward delete
        Key::DownArrow => KeycodeSource::Code(0x7d),  // down arrow
        Key::End => KeycodeSource::Code(0x77),  // end
        Key::Escape => KeycodeSource::Code(0x35),  // escape
        Key::F1 => KeycodeSource::Code(0x7a),
        Key::F2 => KeycodeSource::Code(0x78),
        Key::F3 => KeycodeSource::Code(0x63),
        Key::F4 => KeycodeSource::Code(0x76),
        Key::F5 => KeycodeSource::Code(0x60),
        Key::F6 => KeycodeSource::Code(0x61),
        Key::F7 => KeycodeSource::Code(0x62),
        Key::F8 => KeycodeSource::Code(0x64),
        Key::F9 => KeycodeSource::Code(0x65),
        Key::F10 => KeycodeSource::Code(0x6d),
        Key::F11 => KeycodeSource::Code(0x67),
        Key::F12 => KeycodeSource::Code(0x6f),
        Key::F13 => KeycodeSource::Code(0x69),
        Key::F14 => KeycodeSource::Code(0x6b),
        Key::F15 => KeycodeSource::Code(0x71),
        Key::F16 => KeycodeSource::Code(0x6a),
        Key::F17 => KeycodeSource::Code(0x40),
        Key::F18 => KeycodeSource::Code(0x4f),
        Key::F19 => KeycodeSource::Code(0x50),
        Key::F20 => KeycodeSource::Code(0x5a),
        Key::Function => KeycodeSource::Code(0x3f),  // function
        Key::Help => KeycodeSource::Code(0x72),  // help
        Key::Home => KeycodeSource::Code(0x73),  // home
        Key::Launchpad => KeycodeSource::Code(131),
        Key::LeftArrow => KeycodeSource::Code(0x7b),  // left arrow
        Key::MissionControl => KeycodeSource::Code(160),
        Key::PageDown => KeycodeSource::Code(0x79),  // page down
        Key::PageUp => KeycodeSource::Code(0x74),  // page up
        Key::RCommand => KeycodeSource::Code(0x36),  // right command
        Key::RControl => KeycodeSource::Code(0x3e),  // right control
        Key::Return => KeycodeSource::Code(0x24),  // return
        Key::RightArrow => KeycodeSource::Code(0x7c),  // right arrow
        Key::RShift => KeycodeSource::Code(0x3c),  // right shift
        Key::ROption => KeycodeSource::Code(0x3d),  // right option
        Key::Shift | Key::LShift => KeycodeSource::Code(0x38),  // shift
        Key::Space => KeycodeSource::Code(0x31),  // space
        Key::Tab => KeycodeSource::Code(0x30),  // tab
        Key::UpArrow => KeycodeSource::Code(0x7e),  // up arrow
        Key::VolumeDown => KeycodeSource::Code(0x49),  // volume down
        Key::VolumeUp => KeycodeSource::Code(0x48),  // volume up
        Key::VolumeMute => KeycodeSource::Code(0x4a),  // mute
        Key::Super | Key::Command | Key::Windows | Key::Meta => KeycodeSource::Code(0x37),  // command
        Key::Unicode(c) => KeycodeSource::Layout(c),
        Key::Other(v) => {
            if v > 0xFFFF {
                return Err(());
            }
            KeycodeSource::Code(v as u16)
        },
        Key::BrightnessDown | Key::BrightnessUp | Key::ContrastUp | Key::ContrastDown | Key::Eject | Key::IlluminationDown
        | Key::IlluminationUp | Key::IlluminationToggle | Key::LaunchPanel | Key::MediaFast | Key::MediaNextTrack
        | Key::MediaPlayPause | Key::MediaPrevTrack | Key::MediaRewind | Key::Power | Key::VidMirror => {
            return Err(());
        },
    };
    Ok(source)
}

/// The code of the system event that a special key is entered as: the
/// volume, brightness, contrast, illumination, media, power, eject and
/// mirroring keys
pub open spec fn spec_special_key(key: Key) -> Option<i32> {
    match key {
        Key::VolumeUp => Some(0),
        Key::VolumeDown => Some(1),
        Key::BrightnessUp => Some(2),
        Key::BrightnessDown => Some(3),
        Key::Power => Some(6),
        Key::VolumeMute => Some(7),
        Key::ContrastUp => Some(11),
        Key::ContrastDown => Some(12),
        Key::LaunchPanel => Some(13),
        Key::Eject => Some(14),
        Key::VidMirror => Some(15),
        Key::MediaPlayPause => Some(16),
        Key::MediaNextTrack => Some(17),
        Key::MediaPrevTrack => Some(18),
        Key::MediaFast => Some(19),
        Key::MediaRewind => Some(20),
        Key::IlluminationUp => Some(21),
        Key::IlluminationDown => Some(22),
        Key::IlluminationToggle => Some(23),
        _ => None,
    }
}

/// The key that a system-event code stands for, listed by code (the
/// `NX_KEYTYPE_` constants)
pub open spec fn special_names_key(code: i32, key: Key) -> bool {
    match code {
        0 => key == Key::VolumeUp,  // NX_KEYTYPE_SOUND_UP
        1 => key == Key::VolumeDown,  // NX_KEYTYPE_SOUND_DOWN
        2 => key == Key::BrightnessUp,  // NX_KEYTYPE_BRIGHTNESS_UP
        3 => key == Key::BrightnessDown,  // NX_KEYTYPE_BRIGHTNESS_DOWN
        6 => key == Key::Power,  // NX_KEYTYPE_POWER_KEY
        7 => key == Key::VolumeMute,  // NX_KEYTYPE_MUTE
        11 => key == Key::ContrastUp,  // NX_KEYTYPE_CONTRAST_UP
        12 => key == Key::ContrastDown,  // NX_KEYTYPE_CONTRAST_DOWN
        13 => key == Key::LaunchPanel,  // NX_KEYTYPE_LAUNCH_PANEL
        14 => key == Key::Eject,  // NX_KEYTYPE_EJECT
        15 => key == Key::VidMirror,  // NX_KEYTYPE_VIDMIRROR
        16 => key == Key::MediaPlayPause,  // NX_KEYTYPE_PLAY
        17 => key == Key::MediaNextTrack,  // NX_KEYTYPE_NEXT
        18 => key == Key::MediaPrevTrack,  // NX_KEYTYPE_PREVIOUS
        19 => key == Key::MediaFast,  // NX_KEYTYPE_FAST
        20 => key == Key::MediaRewind,  // NX_KEYTYPE_REWIND
        21 => key == Key::IlluminationUp,  // NX_KEYTYPE_ILLUMINATION_UP
        22 => key == Key::IlluminationDown,  // NX_KEYTYPE_ILLUMINATION_DOWN
        23 => key == Key::IlluminationToggle,  // NX_KEYTYPE_ILLUMINATION_TOGGLE
        _ => false,
    }
}

/// A special key is sent as the system-event code of its name, and each
/// code of the list stands for exactly its key
pub proof fn lemma_special_key_codes(key: Key, code: i32)
    ensures
        spec_special_key(key) == Some(code) ==> special_names_key(code, key),
        special_names_key(code, key) ==> spec_special_key(key) == Some(code),
{
}

/// How a key is entered
#[derive(Debug, Copy, Clone, PartialEq, Eq, Hash, Structural)]
pub enum KeyPlan {
    /// Nothing is sent
    Nothing,
    /// A system event with this code
    Special(i32),
    /// Key events with this keycode
    Keycode(u16),
    /// Key events with the keycode that enters the character on the current
    /// keyboard layout
    LayoutKeycode(char),
}

/// How a key is entered and the event flags afterwards, or the error: the
/// null character is nothing to enter; the special keys are system events,
/// which leave the flags alone; every other key is a raw key event of its
/// keycode, whose flags change as [`spec_raw_flags`] says. A character is
/// entered with the keycode of the current layout, which is looked up
/// before the flags can change.
pub open spec fn spec_key_plan(key: Key, direction: Direction, flags: u64) -> InputResult<(KeyPlan, u64)> {
    if key == Key::Unicode('\0') {
        Ok((KeyPlan::Nothing, flags))
    } else if spec_special_key(key) is Some {
        Ok((KeyPlan::Special(spec_special_key(key).unwrap()), flags))
    } else {
        match spec_cg_keycode(key) {
            Ok(KeycodeSource::Code(kc)) => Ok((KeyPlan::Keycode(kc), spec_raw_flags(flags, kc, direction))),
            Ok(KeycodeSource::Layout(c)) => Ok((KeyPlan::LayoutKeycode(c), flags)),
            Err(_) => Err(InputError::InvalidInput("virtual keycodes on macOS have to fit into u16")),
        }
    }
}

/// Decides how a key is entered, with the event flags before it; returns
/// the plan and the event flags afterwards
pub fn key_plan(key: Key, direction: Direction, flags: u64) -> (r: InputResult<(KeyPlan, u64)>)
    ensures
        r == spec_key_plan(key, direction, flags),
{
    if key == Key::Unicode('\0') {
        return Ok((KeyPlan::Nothing, flags));
    }
    let special: Option<i32> = match key {
        Key::VolumeUp => Some(0),
        Key::VolumeDown => Some(1),
        Key::BrightnessUp => Some(2),
        Key::BrightnessDown => Some(3),
        Key::Power => Some(6),
        Key::VolumeMute => Some(7),
        Key::ContrastUp => Some(11),
        Key::ContrastDown => Some(12),
        Key::LaunchPanel => Some(13),
        Key::Eject => Some(14),
        Key::VidMirror => Some(15),
        Key::MediaPlayPause => Some(16),
        Key::MediaNextTrack => Some(17),
        Key::MediaPrevTrack => Some(18),
        Key::MediaFast => Some(19),
        Key::MediaRewind => Some(20),
        Key::IlluminationUp => Some(21),
        Key::IlluminationDown => Some(22),
        Key::IlluminationToggle => Some(23),
        _ => None,
    };
    if let Some(code) = special {
        return Ok((KeyPlan::Special(code), flags));
    }
    match cg_keycode(key) {
        Ok(KeycodeSource::Code(kc)) => Ok((KeyPlan::Keycode(kc), raw_flags(flags, kc, direction))),
        Ok(KeycodeSource::Layout(c)) => Ok((KeyPlan::LayoutKeycode(c), flags)),
        Err(()) => Err(InputError::InvalidInput("virtual keycodes on macOS have to fit into u16")),
    }
}

} // verus!
