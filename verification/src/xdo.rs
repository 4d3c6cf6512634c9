//! Naming keys and buttons for `xdotool` (libxdo).

use vstd::prelude::*;

use crate::input::{scroll_motion, Axis, Button, InputError, InputResult, NewConError};
use crate::keycodes::{key_to_keysym, spec_key_to_keysym, Key};
use crate::keymap2::{keysym_name_of, name_of_keysym};
use crate::text::{
    chars_of, contains_nul, decimal, hex_upper, push_char, push_decimal, push_hex_upper, string_from,
};

verus! {

broadcast use vstd::string::group_string_axioms;

/// The xdo number of a mouse button
pub open spec fn spec_mousebutton(button: Button) -> i32 {
    match button {
        Button::Left => 1,
        Button::Middle => 2,
        Button::Right => 3,
        Button::ScrollUp => 4,
        Button::ScrollDown => 5,
        Button::ScrollLeft => 6,
        Button::ScrollRight => 7,
        Button::Back => 8,
        Button::Forward => 9,
    }
}

/// The number that xdo uses for a mouse button
pub fn mousebutton(button: Button) -> (r: i32)
    ensures
        r == spec_mousebutton(button),
{
    match button {
        Button::Left => 1,
        Button::Middle => 2,
        Button::Right => 3,
        Button::ScrollUp => 4,
        Button::ScrollDown => 5,
        Button::ScrollLeft => 6,
        Button::ScrollRight => 7,
        Button::Back => 8,
        Button::Forward => 9,
    }
}

/// The X button numbers: each button has its own number, and the scroll
/// buttons are 4 to 7, up and down on the vertical wheel, then left and
/// right on the horizontal one
pub proof fn lemma_mousebutton_numbers(b1: Button, b2: Button)
    ensures
        spec_mousebutton(b1) == spec_mousebutton(b2) ==> b1 == b2,
        scroll_motion(b1) matches Some((axis, dir)) ==> spec_mousebutton(b1) == 4 + (if axis == Axis::Horizontal {
            2int
        } else {
            0int
        }) + (if dir > 0 {
            1int
        } else {
            0int
        }),
        scroll_motion(b1) is None ==> spec_mousebutton(b1) < 4 || spec_mousebutton(b1) > 7,
{
}

/// The X keysym name of a named key, as xdo's key sequences spell it
/// (see `keysymdef.h`)
pub open spec fn keysym_name(key: Key) -> Option<Seq<char>> {
    match key {
        Key::Alt => Some("Alt"@),
        Key::Backspace => Some("BackSpace"@),
        Key::Begin => Some("Begin"@),
        Key::Break => Some("Break"@),
        Key::Cancel => Some("Cancel"@),
        Key::CapsLock => Some("Caps_Lock"@),
        Key::Clear => Some("Clear"@),
        Key::Control => Some("Control"@),
        Key::Delete => Some("Delete"@),
        Key::DownArrow => Some("Down"@),
        Key::End => Some("End"@),
        Key::Escape => Some("Escape"@),
        Key::Execute => Some("Execute"@),
        Key::F1 => Some("F1"@),
        Key::F2 => Some("F2"@),
        Key::F3 => Some("F3"@),
        Key::F4 => Some("F4"@),
        Key::F5 => Some("F5"@),
        Key::F6 => Some("F6"@),
        Key::F7 => Some("F7"@),
        Key::F8 => Some("F8"@),
        Key::F9 => Some("F9"@),
        Key::F10 => Some("F10"@),
        Key::F11 => Some("F11"@),
        Key::F12 => Some("F12"@),
        Key::F13 => Some("F13"@),
        Key::F14 => Some("F14"@),
        Key::F15 => Some("F15"@),
        Key::F16 => Some("F16"@),
        Key::F17 => Some("F17"@),
        Key::F18 => Some("F18"@),
        Key::F19 => Some("F19"@),
        Key::F20 => Some("F20"@),
        Key::F21 => Some("F21"@),
        Key::F22 => Some("F22"@),
        Key::F23 => Some("F23"@),
        Key::F24 => Some("F24"@),
        Key::F25 => Some("F25"@),
        Key::F26 => Some("F26"@),
        Key::F27 => Some("F27"@),
        Key::F28 => Some("F28"@),
        Key::F29 => Some("F29"@),
        Key::F30 => Some("F30"@),
        Key::F31 => Some("F31"@),
        Key::F32 => Some("F32"@),
        Key::F33 => Some("F33"@),
        Key::F34 => Some("F34"@),
        Key::F35 => Some("F35"@),
        Key::Find => Some("Find"@),
        Key::Hangul => Some("Hangul"@),
        Key::Hanja => Some("Hangul_Hanja"@),
        Key::Help => Some("Help"@),
        Key::Home => Some("Home"@),
        Key::Insert => Some("Insert"@),
        Key::Kanji => Some("Kanji"@),
        Key::LControl => Some("Control_L"@),
        Key::LeftArrow => Some("Left"@),
        Key::Linefeed => Some("Linefeed"@),
        Key::LMenu => Some("Menu"@),
        Key::LShift => Some("Shift_L"@),
        Key::ModeChange => Some("Mode_switch"@),
        Key::Numlock => Some("Num_Lock"@),
        Key::Option => Some("Option"@),
        Key::PageDown => Some("Page_Down"@),
        Key::PageUp => Some("Page_Up"@),
        Key::Pause => Some("Pause"@),
        Key::Print => Some("Print"@),
        Key::RControl => Some("Control_R"@),
        Key::Redo => Some("Redo"@),
        Key::Return => Some("Return"@),
        Key::RightArrow => Some("Right"@),
        Key::RShift => Some("Shift_R"@),
        Key::ScrollLock => Some("Scroll_Lock"@),
        Key::Select => Some("Select"@),
        Key::ScriptSwitch => Some("script_switch"@),
        Key::Shift => Some("Shift"@),
        Key::ShiftLock => Some("Shift_Lock"@),
        Key::Space => Some("space"@),
        Key::SysReq => Some("Sys_Req"@),
        Key::Tab => Some("Tab"@),
        Key::Undo => Some("Undo"@),
        Key::UpArrow => Some("Up"@),
        Key::Command | Key::Super | Key::Windows | Key::Meta => Some("Super"@),
        _ => None,
    }
}

/// The keys that an xdo key name stands for, listed by name
pub open spec fn xdo_name_names_key(name: Seq<char>, key: Key) -> bool {
    if name == "Alt"@ {
        key == Key::Alt
    } else if name == "BackSpace"@ {
        key == Key::Backspace
    } else if name == "Begin"@ {
        key == Key::Begin
    } else if name == "Break"@ {
        key == Key::Break
    } else if name == "Cancel"@ {
        key == Key::Cancel
    } else if name == "Caps_Lock"@ {
        key == Key::CapsLock
    } else if name == "Clear"@ {
        key == Key::Clear
    } else if name == "Control"@ {
        key == Key::Control
    } else if name == "Delete"@ {
        key == Key::Delete
    } else if name == "Down"@ {
        key == Key::DownArrow
    } else if name == "End"@ {
        key == Key::End
    } else if name == "Escape"@ {
        key == Key::Escape
    } else if name == "Execute"@ {
        key == Key::Execute
    } else if name == "F1"@ {
        key == Key::F1
    } else if name == "F2"@ {
        key == Key::F2
    } else if name == "F3"@ {
        key == Key::F3
    } else if name == "F4"@ {
        key == Key::F4
    } else if name == "F5"@ {
        key == Key::F5
    } else if name == "F6"@ {
        key == Key::F6
    } else if name == "F7"@ {
        key == Key::F7
    } else if name == "F8"@ {
        key == Key::F8
    } else if name == "F9"@ {
        key == Key::F9
    } else if name == "F10"@ {
        key == Key::F10
    } else if name == "F11"@ {
        key == Key::F11
    } else if name == "F12"@ {
        key == Key::F12
    } else if name == "F13"@ {
        key == Key::F13
    } else if name == "F14"@ {
        key == Key::F14
    } else if name == "F15"@ {
        key == Key::F15
    } else if name == "F16"@ {
        key == Key::F16
    } else if name == "F17"@ {
        key == Key::F17
    } else if name == "F18"@ {
        key == Key::F18
    } else if name == "F19"@ {
        key == Key::F19
    } else if name == "F20"@ {
        key == Key::F20
    } else if name == "F21"@ {
        key == Key::F21
    } else if name == "F22"@ {
        key == Key::F22
    } else if name == "F23"@ {
        key == Key::F23
    } else if name == "F24"@ {
        key == Key::F24
    } else if name == "F25"@ {
        key == Key::F25
    } else if name == "F26"@ {
        key == Key::F26
    } else if name == "F27"@ {
        key == Key::F27
    } else if name == "F28"@ {
        key == Key::F28
    } else if name == "F29"@ {
        key == Key::F29
    } else if name == "F30"@ {
        key == Key::F30
    } else if name == "F31"@ {
        key == Key::F31
    } else if name == "F32"@ {
        key == Key::F32
    } else if name == "F33"@ {
        key == Key::F33
    } else if name == "F34"@ {
        key == Key::F34
    } else if name == "F35"@ {
        key == Key::F35
    } else if name == "Find"@ {
        key == Key::Find
    } else if name == "Hangul"@ {
        key == Key::Hangul
    } else if name == "Hangul_Hanja"@ {
        key == Key::Hanja
    } else if name == "Help"@ {
        key == Key::Help
    } else if name == "Home"@ {
        key == Key::Home
    } else if name == "Insert"@ {
        key == Key::Insert
    } else if name == "Kanji"@ {
        key == Key::Kanji
    } else if name == "Control_L"@ {
        key == Key::LControl
    } else if name == "Left"@ {
        key == Key::LeftArrow
    } else if name == "Linefeed"@ {
        key == Key::Linefeed
    } else if name == "Menu"@ {
        key == Key::LMenu
    } else if name == "Shift_L"@ {
        key == Key::LShift
    } else if name == "Mode_switch"@ {
        key == Key::ModeChange
    } else if name == "Num_Lock"@ {
        key == Key::Numlock
    } else if name == "Option"@ {
        key == Key::Option
    } else if name == "Page_Down"@ {
        key == Key::PageDown
    } else if name == "Page_Up"@ {
        key == Key::PageUp
    } else if name == "Pause"@ {
        key == Key::Pause
    } else if name == "Print"@ {
        key == Key::Print
    } else if name == "Control_R"@ {
        key == Key::RControl
    } else if name == "Redo"@ {
        key == Key::Redo
    } else if name == "Return"@ {
        key == Key::Return
    } else if name == "Right"@ {
        key == Key::RightArrow
    } else if name == "Shift_R"@ {
        key == Key::RShift
    } else if name == "Scroll_Lock"@ {
        key == Key::ScrollLock
    } else if name == "Select"@ {
        key == Key::Select
    } else if name == "script_switch"@ {
        key == Key::ScriptSwitch
    } else if name == "Shift"@ {
        key == Key::Shift
    } else if name == "Shift_Lock"@ {
        key == Key::ShiftLock
    } else if name == "space"@ {
        key == Key::Space
    } else if name == "Sys_Req"@ {
        key == Key::SysReq
    } else if name == "Tab"@ {
        key == Key::Tab
    } else if name == "Undo"@ {
        key == Key::Undo
    } else if name == "Up"@ {
        key == Key::UpArrow
    } else if name == "Super"@ {
        key == Key::Command || key == Key::Super || key == Key::Windows || key == Key::Meta
    } else {
        false
    }
}

/// Each key that xdo names has the name listed for it: keys with different
/// names, such as `Backspace` and `Delete`, are spelled differently
#[verifier::rlimit(50)]
pub proof fn lemma_keysym_names(key: Key)
    ensures
        keysym_name(key) matches Some(name) ==> xdo_name_names_key(name, key),
{
    reveal_strlit("Alt");
    reveal_strlit("BackSpace");
    reveal_strlit("Begin");
    reveal_strlit("Break");
    reveal_strlit("Cancel");
    reveal_strlit("Caps_Lock");
    reveal_strlit("Clear");
    reveal_strlit("Control");
    reveal_strlit("Delete");
    reveal_strlit("Down");
    reveal_strlit("End");
    reveal_strlit("Escape");
    reveal_strlit("Execute");
    reveal_strlit("F1");
    reveal_strlit("F2");
    reveal_strlit("F3");
    reveal_strlit("F4");
    reveal_strlit("F5");
    reveal_strlit("F6");
    reveal_strlit("F7");
    reveal_strlit("F8");
    reveal_strlit("F9");
    reveal_strlit("F10");
    reveal_strlit("F11");
    reveal_strlit("F12");
    reveal_strlit("F13");
    reveal_strlit("F14");
    reveal_strlit("F15");
    reveal_strlit("F16");
    reveal_strlit("F17");
    reveal_strlit("F18");
    reveal_strlit("F19");
    reveal_strlit("F20");
    reveal_strlit("F21");
    reveal_strlit("F22");
    reveal_strlit("F23");
    reveal_strlit("F24");
    reveal_strlit("F25");
    reveal_strlit("F26");
    reveal_strlit("F27");
    reveal_strlit("F28");
    reveal_strlit("F29");
    reveal_strlit("F30");
    reveal_strlit("F31");
    reveal_strlit("F32");
    reveal_strlit("F33");
    reveal_strlit("F34");
    reveal_strlit("F35");
    reveal_strlit("Find");
    reveal_strlit("Hangul");
    reveal_strlit("Hangul_Hanja");
    reveal_strlit("Help");
    reveal_strlit("Home");
    reveal_strlit("Insert");
    reveal_strlit("Kanji");
    reveal_strlit("Control_L");
    reveal_strlit("Left");
    reveal_strlit("Linefeed");
    reveal_strlit("Menu");
    reveal_strlit("Shift_L");
    reveal_strlit("Mode_switch");
    reveal_strlit("Num_Lock");
    reveal_strlit("Option");
    reveal_strlit("Page_Down");
    reveal_strlit("Page_Up");
    reveal_strlit("Pause");
    reveal_strlit("Print");
    reveal_strlit("Control_R");
    reveal_strlit("Redo");
    reveal_strlit("Return");
    reveal_strlit("Right");
    reveal_strlit("Shift_R");
    reveal_strlit("Scroll_Lock");
    reveal_strlit("Select");
    reveal_strlit("script_switch");
    reveal_strlit("Shift");
    reveal_strlit("Shift_Lock");
    reveal_strlit("space");
    reveal_strlit("Sys_Req");
    reveal_strlit("Tab");
    reveal_strlit("Undo");
    reveal_strlit("Up");
    reveal_strlit("Super");
    assert("Alt"@ =~= seq!['A', 'l', 't']);
    assert("BackSpace"@ =~= seq!['B', 'a', 'c', 'k', 'S', 'p', 'a', 'c', 'e']);
    assert("Begin"@ =~= seq!['B', 'e', 'g', 'i', 'n']);
    assert("Break"@ =~= seq!['B', 'r', 'e', 'a', 'k']);
    assert("Cancel"@ =~= seq!['C', 'a', 'n', 'c', 'e', 'l']);
    assert("Caps_Lock"@ =~= seq!['C', 'a', 'p', 's', '_', 'L', 'o', 'c', 'k']);
    assert("Clear"@ =~= seq!['C', 'l', 'e', 'a', 'r']);
    assert("Control"@ =~= seq!['C', 'o', 'n', 't', 'r', 'o', 'l']);
    assert("Delete"@ =~= seq!['D', 'e', 'l', 'e', 't', 'e']);
    assert("Down"@ =~= seq!['D', 'o', 'w', 'n']);
    assert("End"@ =~= seq!['E', 'n', 'd']);
    assert("Escape"@ =~= seq!['E', 's', 'c', 'a', 'p', 'e']);
    assert("Execute"@ =~= seq!['E', 'x', 'e', 'c', 'u', 't', 'e']);
    assert("F1"@ =~= seq!['F', '1']);
    assert("F2"@ =~= seq!['F', '2']);
    assert("F3"@ =~= seq!['F', '3']);
    assert("F4"@ =~= seq!['F', '4']);
    assert("F5"@ =~= seq!['F', '5']);
    assert("F6"@ =~= seq!['F', '6']);
    assert("F7"@ =~= seq!['F', '7']);
    assert("F8"@ =~= seq!['F', '8']);
    assert("F9"@ =~= seq!['F', '9']);
    assert("F10"@ =~= seq!['F', '1', '0']);
    assert("F11"@ =~= seq!['F', '1', '1']);
    assert("F12"@ =~= seq!['F', '1', '2']);
    assert("F13"@ =~= seq!['F', '1', '3']);
    assert("F14"@ =~= seq!['F', '1', '4']);
    assert("F15"@ =~= seq!['F', '1', '5']);
    assert("F16"@ =~= seq!['F', '1', '6']);
    assert("F17"@ =~= seq!['F', '1', '7']);
    assert("F18"@ =~= seq!['F', '1', '8']);
    assert("F19"@ =~= seq!['F', '1', '9']);
    assert("F20"@ =~= seq!['F', '2', '0']);
    assert("F21"@ =~= seq!['F', '2', '1']);
    assert("F22"@ =~= seq!['F', '2', '2']);
    assert("F23"@ =~= seq!['F', '2', '3']);
    assert("F24"@ =~= seq!['F', '2', '4']);
    assert("F25"@ =~= seq!['F', '2', '5']);
    assert("F26"@ =~= seq!['F', '2', '6']);
    assert("F27"@ =~= seq!['F', '2', '7']);
    assert("F28"@ =~= seq!['F', '2', '8']);
    assert("F29"@ =~= seq!['F', '2', '9']);
    assert("F30"@ =~= seq!['F', '3', '0']);
    assert("F31"@ =~= seq!['F', '3', '1']);
    assert("F32"@ =~= seq!['F', '3', '2']);
    assert("F33"@ =~= seq!['F', '3', '3']);
    assert("F34"@ =~= seq!['F', '3', '4']);
    assert("F35"@ =~= seq!['F', '3', '5']);
    assert("Find"@ =~= seq!['F', 'i', 'n', 'd']);
    assert("Hangul"@ =~= seq!['H', 'a', 'n', 'g', 'u', 'l']);
    assert("Hangul_Hanja"@ =~= seq!['H', 'a', 'n', 'g', 'u', 'l', '_', 'H', 'a', 'n', 'j', 'a']);
    assert("Help"@ =~= seq!['H', 'e', 'l', 'p']);
    assert("Home"@ =~= seq!['H', 'o', 'm', 'e']);
    assert("Insert"@ =~= seq!['I', 'n', 's', 'e', 'r', 't']);
    assert("Kanji"@ =~= seq!['K', 'a', 'n', 'j', 'i']);
    assert("Control_L"@ =~= seq!['C', 'o', 'n', 't', 'r', 'o', 'l', '_', 'L']);
    assert("Left"@ =~= seq!['L', 'e', 'f', 't']);
    assert("Linefeed"@ =~= seq!['L', 'i', 'n', 'e', 'f', 'e', 'e', 'd']);
    assert("Menu"@ =~= seq!['M', 'e', 'n', 'u']);
    assert("Shift_L"@ =~= seq!['S', 'h', 'i', 'f', 't', '_', 'L']);
    assert("Mode_switch"@ =~= seq!['M', 'o', 'd', 'e', '_', 's', 'w', 'i', 't', 'c', 'h']);
    assert("Num_Lock"@ =~= seq!['N', 'u', 'm', '_', 'L', 'o', 'c', 'k']);
    assert("Option"@ =~= seq!['O', 'p', 't', 'i', 'o', 'n']);
    assert("Page_Down"@ =~= seq!['P', 'a', 'g', 'e', '_', 'D', 'o', 'w', 'n']);
    assert("Page_Up"@ =~= seq!['P', 'a', 'g', 'e', '_', 'U', 'p']);
    assert("Pause"@ =~= seq!['P', 'a', 'u', 's', 'e']);
    assert("Print"@ =~= seq!['P', 'r', 'i', 'n', 't']);
    assert("Control_R"@ =~= seq!['C', 'o', 'n', 't', 'r', 'o', 'l', '_', 'R']);
    assert("Redo"@ =~= seq!['R', 'e', 'd', 'o']);
    assert("Return"@ =~= seq!['R', 'e', 't', 'u', 'r', 'n']);
    assert("Right"@ =~= seq!['R', 'i', 'g', 'h', 't']);
    assert("Shift_R"@ =~= seq!['S', 'h', 'i', 'f', 't', '_', 'R']);
    assert("Scroll_Lock"@ =~= seq!['S', 'c', 'r', 'o', 'l', 'l', '_', 'L', 'o', 'c', 'k']);
    assert("Select"@ =~= seq!['S', 'e', 'l', 'e', 'c', 't']);
    assert("script_switch"@ =~= seq!['s', 'c', 'r', 'i', 'p', 't', '_', 's', 'w', 'i', 't', 'c', 'h']);
    assert("Shift"@ =~= seq!['S', 'h', 'i', 'f', 't']);
    assert("Shift_Lock"@ =~= seq!['S', 'h', 'i', 'f', 't', '_', 'L', 'o', 'c', 'k']);
    assert("space"@ =~= seq!['s', 'p', 'a', 'c', 'e']);
    assert("Sys_Req"@ =~= seq!['S', 'y', 's', '_', 'R', 'e', 'q']);
    assert("Tab"@ =~= seq!['T', 'a', 'b']);
    assert("Undo"@ =~= seq!['U', 'n', 'd', 'o']);
    assert("Up"@ =~= seq!['U', 'p']);
    assert("Super"@ =~= seq!['S', 'u', 'p', 'e', 'r']);
    match key {
        Key::Alt => {},
        Key::Backspace => {},
        Key::Break => {},
        Key::Begin => {},
        Key::Cancel => {},
        Key::CapsLock => {},
        Key::Clear => {},
        Key::Command => {},
        Key::Control => {},
        Key::Delete => {},
        Key::DownArrow => {},
        Key::End => {},
        Key::Escape => {},
        Key::Execute => {},
        Key::F1 => {},
        Key::F2 => {},
        Key::F3 => {},
        Key::F4 => {},
        Key::F5 => {},
        Key::F6 => {},
        Key::F7 => {},
        Key::F8 => {},
        Key::F9 => {},
        Key::F10 => {},
        Key::F11 => {},
        Key::F12 => {},
        Key::F13 => {},
        Key::F14 => {},
        Key::F15 => {},
        Key::F16 => {},
        Key::F17 => {},
        Key::F18 => {},
        Key::F19 => {},
        Key::F20 => {},
        Key::F21 => {},
        Key::F22 => {},
        Key::F23 => {},
        Key::F24 => {},
        Key::F25 => {},
        Key::F26 => {},
        Key::F27 => {},
        Key::F28 => {},
        Key::F29 => {},
        Key::F30 => {},
        Key::F31 => {},
        Key::F32 => {},
        Key::F33 => {},
        Key::F34 => {},
        Key::F35 => {},
        Key::Find => {},
        Key::Hangul => {},
        Key::Hanja => {},
        Key::Help => {},
        Key::Home => {},
        Key::Insert => {},
        Key::Kanji => {},
        Key::LControl => {},
        Key::LeftArrow => {},
        Key::Linefeed => {},
        Key::LMenu => {},
        Key::LShift => {},
        Key::MediaNextTrack => {},
        Key::MediaPlayPause => {},
        Key::MediaPrevTrack => {},
        Key::MediaStop => {},
        Key::Meta => {},
        Key::ModeChange => {},
        Key::Numlock => {},
        Key::Option => {},
        Key::PageDown => {},
        Key::PageUp => {},
        Key::Pause => {},
        Key::Print => {},
        Key::PrintScr => {},
        Key::RControl => {},
        Key::Redo => {},
        Key::Return => {},
        Key::RightArrow => {},
        Key::RShift => {},
        Key::ScrollLock => {},
        Key::Select => {},
        Key::ScriptSwitch => {},
        Key::Shift => {},
        Key::ShiftLock => {},
        Key::Space => {},
        Key::Super => {},
        Key::SysReq => {},
        Key::Tab => {},
        Key::Undo => {},
        Key::UpArrow => {},
        Key::VolumeDown => {},
        Key::VolumeMute => {},
        Key::VolumeUp => {},
        Key::MicMute => {},
        Key::Windows => {},
        Key::Unicode(_) => {},
        Key::Other(_) => {},
    }
}

/// The key sequence that xdo enters for a key: `U` and the code point in
/// upper case hexadecimal for a character, the number in decimal for
/// [`Key::Other`], the keysym name for a named key
pub open spec fn spec_keysequence(key: Key) -> Option<Seq<char>> {
    match key {
        Key::Unicode(c) => Some(seq!['U'] + hex_upper(c as nat)),
        Key::Other(v) => Some(decimal(v as nat)),
        _ => keysym_name(key),
    }
}

fn keysym_name_str(key: Key) -> (r: Option<&'static str>)
    ensures
        match r {
            Some(s) => keysym_name(key) == Some(s@),
            None => keysym_name(key) is None,
        },
{
    let name = match key {
        Key::Alt => "Alt",
        Key::Backspace => "BackSpace",
        Key::Begin => "Begin",
        Key::Break => "Break",
        Key::Cancel => "Cancel",
        Key::CapsLock => "Caps_Lock",
        Key::Clear => "Clear",
        Key::Control => "Control",
        Key::Delete => "Delete",
        Key::DownArrow => "Down",
        Key::End => "End",
        Key::Escape => "Escape",
        Key::Execute => "Execute",
        Key::F1 => "F1",
        Key::F2 => "F2",
        Key::F3 => "F3",
        Key::F4 => "F4",
        Key::F5 => "F5",
        Key::F6 => "F6",
        Key::F7 => "F7",
        Key::F8 => "F8",
        Key::F9 => "F9",
        Key::F10 => "F10",
        Key::F11 => "F11",
        Key::F12 => "F12",
        Key::F13 => "F13",
        Key::F14 => "F14",
        Key::F15 => "F15",
        Key::F16 => "F16",
        Key::F17 => "F17",
        Key::F18 => "F18",
        Key::F19 => "F19",
        Key::F20 => "F20",
        Key::F21 => "F21",
        Key::F22 => "F22",
        Key::F23 => "F23",
        Key::F24 => "F24",
        Key::F25 => "F25",
        Key::F26 => "F26",
        Key::F27 => "F27",
        Key::F28 => "F28",
        Key::F29 => "F29",
        Key::F30 => "F30",
        Key::F31 => "F31",
        Key::F32 => "F32",
        Key::F33 => "F33",
        Key::F34 => "F34",
        Key::F35 => "F35",
        Key::Find => "Find",
        Key::Hangul => "Hangul",
        Key::Hanja => "Hangul_Hanja",
        Key::Help => "Help",
        Key::Home => "Home",
        Key::Insert => "Insert",
        Key::Kanji => "Kanji",
        Key::LControl => "Control_L",
        Key::LeftArrow => "Left",
        Key::Linefeed => "Linefeed",
        Key::LMenu => "Menu",
        Key::LShift => "Shift_L",
        Key::ModeChange => "Mode_switch",
        Key::Numlock => "Num_Lock",
        Key::Option => "Option",
        Key::PageDown => "Page_Down",
        Key::PageUp => "Page_Up",
        Key::Pause => "Pause",
        Key::Print => "Print",
        Key::RControl => "Control_R",
        Key::Redo => "Redo",
        Key::Return => "Return",
        Key::RightArrow => "Right",
        Key::RShift => "Shift_R",
        Key::ScrollLock => "Scroll_Lock",
        Key::Select => "Select",
        Key::ScriptSwitch => "script_switch",
        Key::Shift => "Shift",
        Key::ShiftLock => "Shift_Lock",
        Key::Space => "space",
        Key::SysReq => "Sys_Req",
        Key::Tab => "Tab",
        Key::Undo => "Undo",
        Key::UpArrow => "Up",
        Key::Command | Key::Super | Key::Windows | Key::Meta => "Super",
        _ => {
            return None;
        },
    };
    Some(name)
}

/// The key sequence that xdo is asked to enter for a key. Keys that have no
/// name in xdo's key sequence syntax give `None`.
pub fn keysequence(key: Key) -> (r: Option<String>)
    ensures
        match r {
            Some(s) => spec_keysequence(key) == Some(s@),
            None => spec_keysequence(key) is None,
        },
{
    match key {
        Key::Unicode(c) => {
            let mut s = String::new();
            push_char(&mut s, 'U');
            push_hex_upper(&mut s, c as u32);
            assert(s@ =~= seq!['U'] + hex_upper(c as nat));
            Some(s)
        },
        Key::Other(v) => {
            let mut s = String::new();
            push_decimal(&mut s, v);
            assert(s@ =~= decimal(v as nat));
            Some(s)
        },
        _ => match keysym_name_str(key) {
            Some(name) => Some(string_from(name)),
            None => None,
        },
    }
}

/// The scroll button that xdo clicks for a scroll of `length` on `axis`:
/// negative lengths scroll up or left
pub open spec fn spec_scroll_button(length: i32, axis: Axis) -> Button {
    if length < 0 {
        match axis {
            Axis::Horizontal => Button::ScrollLeft,
            Axis::Vertical => Button::ScrollUp,
        }
    } else {
        match axis {
            Axis::Horizontal => Button::ScrollRight,
            Axis::Vertical => Button::ScrollDown,
        }
    }
}

/// Scrolling clicks the button that scrolls along the axis in the
/// direction of the length: negative lengths scroll up or left, positive
/// ones down or right, so lengths of opposite signs click opposite buttons
pub proof fn lemma_scroll_direction(length: i32, axis: Axis)
    requires
        length != 0,
    ensures
        scroll_motion(spec_scroll_button(length, axis)) == Some((axis, if length < 0 { -1int } else { 1int })),
        length != i32::MIN ==> spec_scroll_button((-length) as i32, axis) != spec_scroll_button(length, axis),
{
}

/// How xdo scrolls: the button to click and how many times to click it
pub fn scroll_clicks(length: i32, axis: Axis) -> (r: (Button, u32))
    requires
        length != i32::MIN,
    ensures
        r.0 == spec_scroll_button(length, axis),
        r.1 == crate::input::abs_int(length as int),
{
    let mut length = length;
    let button = if length < 0 {
        length = -length;
        match axis {
            Axis::Horizontal => Button::ScrollLeft,
            Axis::Vertical => Button::ScrollUp,
        }
    } else {
        match axis {
            Axis::Horizontal => Button::ScrollRight,
            Axis::Vertical => Button::ScrollDown,
        }
    };
    (button, length as u32)
}

/// `s` with every occurrence of `XK_` taken out, left to right
pub open spec fn without_xk(s: Seq<char>) -> Seq<char>
    decreases s.len(),
{
    if s.len() >= 3 && s[0] == 'X' && s[1] == 'K' && s[2] == '_' {
        without_xk(s.skip(3))
    } else if s.len() == 0 {
        s
    } else {
        seq![s[0]] + without_xk(s.skip(1))
    }
}

/// The name under which xdo enters a key: the name of its keysym with
/// every `XK_` taken out. A keysym without a name cannot be entered.
pub fn key_name(key: Key) -> (r: InputResult<String>)
    ensures
        keysym_name_of(spec_key_to_keysym(key)) matches Some(n) ==> (r matches Ok(s) && s@
            == without_xk(n)),
        keysym_name_of(spec_key_to_keysym(key)) is None ==> r == Err::<String, InputError>(
            InputError::InvalidInput("the keysym does not have a name"),
        ),
{
    let name = match name_of_keysym(key_to_keysym(key)) {
        Some(n) => n,
        None => {
            return Err(InputError::InvalidInput("the keysym does not have a name"));
        },
    };
    let chars = chars_of(name);
    let mut out = String::new();
    let mut i: usize = 0;
    assert(chars@.skip(0) =~= chars@);
    assert(Seq::<char>::empty() + without_xk(chars@) =~= without_xk(chars@));
    while i < chars.len()
        invariant
            i <= chars@.len(),
            chars@ == name@,
            out@ + without_xk(chars@.skip(i as int)) == without_xk(chars@),
        decreases chars@.len() - i,
    {
        let ghost rest = chars@.skip(i as int);
        if chars.len() - i >= 3 && chars[i] == 'X' && chars[i + 1] == 'K' && chars[i + 2] == '_' {
            assert(rest.skip(3) =~= chars@.skip(i + 3));
            i = i + 3;
        } else {
            assert(rest.skip(1) =~= chars@.skip(i + 1));
            let ghost before = out@;
            push_char(&mut out, chars[i]);
            assert(out@ + without_xk(chars@.skip(i + 1)) =~= before + (seq![chars@[i as int]] + without_xk(
                chars@.skip(i + 1),
            )));
            i = i + 1;
        }
    }
    assert(chars@.skip(i as int) =~= Seq::<char>::empty());
    assert(out@ + Seq::<char>::empty() =~= out@);
    Ok(out)
}

/// A display name to connect to cannot hold the null character
pub fn check_display_name(name: &str) -> (r: Result<(), NewConError>)
    ensures
        name@.contains('\0') <==> r is Err,
        r is Err ==> r == Err::<(), NewConError>(
            NewConError::EstablishCon("the display name contained a null byte"),
        ),
{
    if contains_nul(name) {
        return Err(NewConError::EstablishCon("the display name contained a null byte"));
    }
    Ok(())
}

/// Text entered with xdo cannot hold the null character
pub fn check_text(text: &str) -> (r: InputResult<()>)
    ensures
        text@.contains('\0') <==> r is Err,
        r is Err ==> r == Err::<(), InputError>(
            InputError::InvalidInput(
                "the text to enter contained a NULL byte ('\\0\u{2019}), which is not allowed",
            ),
        ),
{
    if contains_nul(text) {
        return Err(
            InputError::InvalidInput(
                "the text to enter contained a NULL byte ('\\0\u{2019}), which is not allowed",
            ),
        );
    }
    Ok(())
}

} // verus!
