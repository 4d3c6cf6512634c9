//! The key names of the first xdo based backend, which entered a
//! character as itself and a named key by a name of its own.

use vstd::prelude::*;

use crate::keycodes::Key;
use crate::text::{push_char, string_from};

verus! {

broadcast use vstd::string::group_string_axioms;

/// The key names of the first xdo based implementation
pub open spec fn early_key_name(key: Key) -> Option<Seq<char>> {
    match key {
        Key::Alt => Some("Alt"@),
        Key::Backspace => Some("Backspace"@),
        Key::CapsLock => Some("CapsLock"@),
        Key::Command => Some("Command"@),
        Key::Control => Some("Control"@),
        Key::DownArrow => Some("DownArrow"@),
        Key::Escape => Some("Escape"@),
        Key::F1 => Some("F1"@),
        Key::F2 => Some("F2"@),
        Key::F3 => Some("F3"@),
        Key::F4 => Some("F4"@),
        Key::F5 => Some("F5"@),
        Key::F6 => Some("F6"@),
        Key::F7 => Some("F7"@),
        Key::F8 => Some("F8"@),
        Key::F9 => Some("F9"@),
        Key::F10 => Some("F10"@),
        Key::F11 => Some("F11"@),
        Key::F12 => Some("F12"@),
        Key::Home => Some("Home"@),
        Key::LeftArrow => Some("Left"@),
        Key::Option => Some("Option"@),
        Key::PageDown => Some("PageDown"@),
        Key::PageUp => Some("PageUp"@),
        Key::Return => Some("Return"@),
        Key::RightArrow => Some("Right"@),
        Key::Shift => Some("Shift"@),
        Key::Space => Some("Space"@),
        Key::Super => Some("Super"@),
        Key::Tab => Some("Tab"@),
        Key::UpArrow => Some("Up"@),
        Key::Windows => Some("Windows"@),
        _ => None,
    }
}

/// The key that a name of the first implementation stands for, listed by
/// name
pub open spec fn early_name_names_key(name: Seq<char>, key: Key) -> bool {
    if name == "Alt"@ {
        key == Key::Alt
    } else if name == "Backspace"@ {
        key == Key::Backspace
    } else if name == "CapsLock"@ {
        key == Key::CapsLock
    } else if name == "Command"@ {
        key == Key::Command
    } else if name == "Control"@ {
        key == Key::Control
    } else if name == "DownArrow"@ {
        key == Key::DownArrow
    } else if name == "Escape"@ {
        key == Key::Escape
    } else if name == "F1"@ {
        key == Key::F1
    } else if name == "F2"@ {
        key == Key::F2
    } else if name == "F3"@ {
        key == Key::F3
    } else if name == "F4"@ {
        key == Key::F4
    } else if name == "F5"@ {
        key == Key::F5
    } else if name == "F6"@ {
        key == Key::F6
    } else if name == "F7"@ {
        key == Key::F7
    } else if name == "F8"@ {
        key == Key::F8
    } else if name == "F9"@ {
        key == Key::F9
    } else if name == "F10"@ {
        key == Key::F10
    } else if name == "F11"@ {
        key == Key::F11
    } else if name == "F12"@ {
        key == Key::F12
    } else if name == "Home"@ {
        key == Key::Home
    } else if name == "Left"@ {
        key == Key::LeftArrow
    } else if name == "Option"@ {
        key == Key::Option
    } else if name == "PageDown"@ {
        key == Key::PageDown
    } else if name == "PageUp"@ {
        key == Key::PageUp
    } else if name == "Return"@ {
        key == Key::Return
    } else if name == "Right"@ {
        key == Key::RightArrow
    } else if name == "Shift"@ {
        key == Key::Shift
    } else if name == "Space"@ {
        key == Key::Space
    } else if name == "Super"@ {
        key == Key::Super
    } else if name == "Tab"@ {
        key == Key::Tab
    } else if name == "Up"@ {
        key == Key::UpArrow
    } else if name == "Windows"@ {
        key == Key::Windows
    } else {
        false
    }
}

/// Each key that the first implementation names has the name listed for
/// it: keys with different names are spelled differently
#[verifier::rlimit(50)]
pub proof fn lemma_early_key_names(key: Key)
    ensures
        early_key_name(key) matches Some(name) ==> early_name_names_key(name, key),
{
    reveal_strlit("Alt");
    reveal_strlit("Backspace");
    reveal_strlit("CapsLock");
    reveal_strlit("Command");
    reveal_strlit("Control");
    reveal_strlit("DownArrow");
    reveal_strlit("Escape");
    reveal_strlit("F1");
    reveal_strlit("F2");
    reveal_strlit("F3");
    reveal_strlit("F4");
    reveal_strlit("F5");
    reveal_strlit("F6");
    reveal_strlit("F7");
    reveal_strlit("F8");
    reveal_strlit("F9");
    reveal_strlit("F10");
    reveal_strlit("F11");
    reveal_strlit("F12");
    reveal_strlit("Home");
    reveal_strlit("Left");
    reveal_strlit("Option");
    reveal_strlit("PageDown");
    reveal_strlit("PageUp");
    reveal_strlit("Return");
    reveal_strlit("Right");
    reveal_strlit("Shift");
    reveal_strlit("Space");
    reveal_strlit("Super");
    reveal_strlit("Tab");
    reveal_strlit("Up");
    reveal_strlit("Windows");
    assert("Alt"@ =~= seq!['A', 'l', 't']);
    assert("Backspace"@ =~= seq!['B', 'a', 'c', 'k', 's', 'p', 'a', 'c', 'e']);
    assert("CapsLock"@ =~= seq!['C', 'a', 'p', 's', 'L', 'o', 'c', 'k']);
    assert("Command"@ =~= seq!['C', 'o', 'm', 'm', 'a', 'n', 'd']);
    assert("Control"@ =~= seq!['C', 'o', 'n', 't', 'r', 'o', 'l']);
    assert("DownArrow"@ =~= seq!['D', 'o', 'w', 'n', 'A', 'r', 'r', 'o', 'w']);
    assert("Escape"@ =~= seq!['E', 's', 'c', 'a', 'p', 'e']);
    assert("F1"@ =~= seq!['F', '1']);
    assert("F2"@ =~= seq!['F', '2']);
    assert("F3"@ =~= seq!['F', '3']);
    assert("F4"@ =~= seq!['F', '4']);
    assert("F5"@ =~= seq!['F', '5']);
    assert("F6"@ =~= seq!['F', '6']);
    assert("F7"@ =~= seq!['F', '7']);
    assert("F8"@ =~= seq!['F', '8']);
    assert("F9"@ =~= seq!['F', '9']);
    assert("F10"@ =~= seq!['F', '1', '0']);
    assert("F11"@ =~= seq!['F', '1', '1']);
    assert("F12"@ =~= seq!['F', '1', '2']);
    assert("Home"@ =~= seq!['H', 'o', 'm', 'e']);
    assert("Left"@ =~= seq!['L', 'e', 'f', 't']);
    assert("Option"@ =~= seq!['O', 'p', 't', 'i', 'o', 'n']);
    assert("PageDown"@ =~= seq!['P', 'a', 'g', 'e', 'D', 'o', 'w', 'n']);
    assert("PageUp"@ =~= seq!['P', 'a', 'g', 'e', 'U', 'p']);
    assert("Return"@ =~= seq!['R', 'e', 't', 'u', 'r', 'n']);
    assert("Right"@ =~= seq!['R', 'i', 'g', 'h', 't']);
    assert("Shift"@ =~= seq!['S', 'h', 'i', 'f', 't']);
    assert("Space"@ =~= seq!['S', 'p', 'a', 'c', 'e']);
    assert("Super"@ =~= seq!['S', 'u', 'p', 'e', 'r']);
    assert("Tab"@ =~= seq!['T', 'a', 'b']);
    assert("Up"@ =~= seq!['U', 'p']);
    assert("Windows"@ =~= seq!['W', 'i', 'n', 'd', 'o', 'w', 's']);
    match key {
        Key::Alt => {},
        Key::Backspace => {},
        Key::Break => {},
        Key::Begin => {},
        Key::Cancel => {},
        Key::CapsLock => {},
        Key::Clear => {},
        Key::Command => {},
        Key::Control => {},
        Key::Delete => {},
        Key::DownArrow => {},
        Key::End => {},
        Key::Escape => {},
        Key::Execute => {},
        Key::F1 => {},
        Key::F2 => {},
        Key::F3 => {},
        Key::F4 => {},
        Key::F5 => {},
        Key::F6 => {},
        Key::F7 => {},
        Key::F8 => {},
        Key::F9 => {},
        Key::F10 => {},
        Key::F11 => {},
        Key::F12 => {},
        Key::F13 => {},
        Key::F14 => {},
        Key::F15 => {},
        Key::F16 => {},
        Key::F17 => {},
        Key::F18 => {},
        Key::F19 => {},
        Key::F20 => {},
        Key::F21 => {},
        Key::F22 => {},
        Key::F23 => {},
        Key::F24 => {},
        Key::F25 => {},
        Key::F26 => {},
        Key::F27 => {},
        Key::F28 => {},
        Key::F29 => {},
        Key::F30 => {},
        Key::F31 => {},
        Key::F32 => {},
        Key::F33 => {},
        Key::F34 => {},
        Key::F35 => {},
        Key::Find => {},
        Key::Hangul => {},
        Key::Hanja => {},
        Key::Help => {},
        Key::Home => {},
        Key::Insert => {},
        Key::Kanji => {},
        Key::LControl => {},
        Key::LeftArrow => {},
        Key::Linefeed => {},
        Key::LMenu => {},
        Key::LShift => {},
        Key::MediaNextTrack => {},
        Key::MediaPlayPause => {},
        Key::MediaPrevTrack => {},
        Key::MediaStop => {},
        Key::Meta => {},
        Key::ModeChange => {},
        Key::Numlock => {},
        Key::Option => {},
        Key::PageDown => {},
        Key::PageUp => {},
        Key::Pause => {},
        Key::Print => {},
        Key::PrintScr => {},
        Key::RControl => {},
        Key::Redo => {},
        Key::Return => {},
        Key::RightArrow => {},
        Key::RShift => {},
        Key::ScrollLock => {},
        Key::Select => {},
        Key::ScriptSwitch => {},
        Key::Shift => {},
        Key::ShiftLock => {},
        Key::Space => {},
        Key::Super => {},
        Key::SysReq => {},
        Key::Tab => {},
        Key::Undo => {},
        Key::UpArrow => {},
        Key::VolumeDown => {},
        Key::VolumeMute => {},
        Key::VolumeUp => {},
        Key::MicMute => {},
        Key::Windows => {},
        Key::Unicode(_) => {},
        Key::Other(_) => {},
    }
}

/// The key sequence of the first xdo based implementation: the character
/// itself for a character, otherwise the key's name. Keys without a name
/// there give `None`.
pub open spec fn spec_keysequence(key: Key) -> Option<Seq<char>> {
    match key {
        Key::Unicode(c) => Some(seq![c]),
        _ => early_key_name(key),
    }
}

fn early_key_name_str(key: Key) -> (r: Option<&'static str>)
    ensures
        match r {
            Some(s) => early_key_name(key) == Some(s@),
            None => early_key_name(key) is None,
        },
{
    let name = match key {
        Key::Alt => "Alt",
        Key::Backspace => "Backspace",
        Key::CapsLock => "CapsLock",
        Key::Command => "Command",
        Key::Control => "Control",
        Key::DownArrow => "DownArrow",
        Key::Escape => "Escape",
        Key::F1 => "F1",
        Key::F2 => "F2",
        Key::F3 => "F3",
        Key::F4 => "F4",
        Key::F5 => "F5",
        Key::F6 => "F6",
        Key::F7 => "F7",
        Key::F8 => "F8",
        Key::F9 => "F9",
        Key::F10 => "F10",
        Key::F11 => "F11",
        Key::F12 => "F12",
        Key::Home => "Home",
        Key::LeftArrow => "Left",
        Key::Option => "Option",
        Key::PageDown => "PageDown",
        Key::PageUp => "PageUp",
        Key::Return => "Return",
        Key::RightArrow => "Right",
        Key::Shift => "Shift",
        Key::Space => "Space",
        Key::Super => "Super",
        Key::Tab => "Tab",
        Key::UpArrow => "Up",
        Key::Windows => "Windows",
        _ => {
            return None;
        },
    };
    Some(name)
}

/// The key sequence that the first xdo based implementation entered for a
/// key
pub fn keysequence(key: Key) -> (r: Option<String>)
    requires
        !(key is Other),
    ensures
        match r {
            Some(s) => spec_keysequence(key) == Some(s@),
            None => spec_keysequence(key) is None,
        },
{
    match key {
        Key::Unicode(c) => {
            let mut s = String::new();
            push_char(&mut s, c);
            assert(s@ =~= seq![c]);
            Some(s)
        },
        _ => match early_key_name_str(key) {
            Some(name) => Some(string_from(name)),
            None => None,
        },
    }
}

} // verus!
