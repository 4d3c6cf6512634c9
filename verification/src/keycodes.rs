//! The keys of the keyboard and their keysyms.

use vstd::prelude::*;

use crate::keysyms;

verus! {

/// A key on the keyboard.
/// Use [`Key::Unicode`] to enter arbitrary Unicode chars.
/// If a key is missing, you can simulate it by using [`Key::Other`]
/// or the `Keyboard::raw` function.
#[derive(Debug, Copy, Clone, PartialEq, Eq, Hash, Structural)]
pub enum Key {
    /// alt key on Linux and Windows (option key on macOS)
    Alt,
    /// backspace key
    Backspace,
    Break,
    Begin,
    Cancel,
    /// caps lock key
    CapsLock,
    Clear,
    /// command key on macOS (super key on Linux, windows key on Windows); superseded by `Meta`
    Command,
    /// control key
    Control,
    /// delete key
    Delete,
    /// down arrow key
    DownArrow,
    /// end key
    End,
    /// escape key (esc)
    Escape,
    Execute,
    /// F1 key
    F1,
    /// F2 key
    F2,
    /// F3 key
    F3,
    /// F4 key
    F4,
    /// F5 key
    F5,
    /// F6 key
    F6,
    /// F7 key
    F7,
    /// F8 key
    F8,
    /// F9 key
    F9,
    /// F10 key
    F10,
    /// F11 key
    F11,
    /// F12 key
    F12,
    /// F13 key
    F13,
    /// F14 key
    F14,
    /// F15 key
    F15,
    /// F16 key
    F16,
    /// F17 key
    F17,
    /// F18 key
    F18,
    /// F19 key
    F19,
    /// F20 key
    F20,
    /// F21 key
    F21,
    /// F22 key
    F22,
    /// F23 key
    F23,
    /// F24 key
    F24,
    F25,
    F26,
    F27,
    F28,
    F29,
    F30,
    F31,
    F32,
    F33,
    F34,
    F35,
    Find,
    Hangul,
    Hanja,
    Help,
    /// home key
    Home,
    Insert,
    Kanji,
    LControl,
    /// left arrow key
    LeftArrow,
    Linefeed,
    LMenu,
    LShift,
    MediaNextTrack,
    MediaPlayPause,
    MediaPrevTrack,
    MediaStop,
    /// meta key (also known as "windows", "super", and "command")
    Meta,
    ModeChange,
    Numlock,
    /// option key on macOS (alt key on Linux and Windows)
    Option,
    /// page down key
    PageDown,
    /// page up key
    PageUp,
    Pause,
    Print,
    /// Take a screenshot
    PrintScr,
    RControl,
    Redo,
    /// return key
    Return,
    /// right arrow key
    RightArrow,
    RShift,
    ScrollLock,
    Select,
    ScriptSwitch,
    /// shift key
    Shift,
    /// Lock shift key
    ShiftLock,
    /// space key
    Space,
    /// super key on linux (command key on macOS, windows key on Windows)
    Super,
    SysReq,
    /// tab key (tabulator)
    Tab,
    Undo,
    /// up arrow key
    UpArrow,
    VolumeDown,
    VolumeMute,
    VolumeUp,
    /// microphone mute toggle on linux
    MicMute,
    /// windows key on Windows (super key on Linux, command key on macOS); superseded by `Meta`
    Windows,
    /// Unicode character (called `Layout` in older versions)
    Unicode(char),
    /// Use this for keys that are not listed here that you know the value of.
    /// On Linux, this will result in a keysym
    Other(u32),
}

/// Name for the keysym that `xkeysym::Keysym::from_char` assigns to a
/// character
pub uninterp spec fn keysym_from_char(c: char) -> u32;

/// Calls `xkeysym::Keysym::from_char`, which follows xkb's
/// `xkb_utf32_to_keysym`: printable Latin-1 characters are their own keysym,
/// a few control characters map to the function keysyms, other characters
/// are looked up in a table and fall back to `0x0100_0000 | c`.
/// The contract claims that the result is a function of the character alone
/// and, as the source shows, that printable Latin-1 characters keep their
/// value; the table itself is not stated.
#[verifier::external_body]
fn char_to_keysym(c: char) -> (r: u32)
    ensures
        r == keysym_from_char(c),
        (0x20 <= c as u32 <= 0x7e || 0xa0 <= c as u32 <= 0xff) ==> r == c as u32,
{
    xkeysym::Keysym::from_char(c).raw()
}

/// The keysym that a key is entered as on Linux
pub open spec fn spec_key_to_keysym(key: Key) -> u32 {
    match key {
        Key::Unicode(c) => keysym_from_char(c),
        Key::Other(v) => v,
        Key::Alt | Key::Option => keysyms::XK_Alt_L,
        Key::Backspace => keysyms::XK_BackSpace,
        Key::Begin => keysyms::XK_Begin,
        Key::Break => keysyms::XK_Break,
        Key::Cancel => keysyms::XK_Cancel,
        Key::CapsLock => keysyms::XK_Caps_Lock,
        Key::Clear => keysyms::XK_Clear,
        Key::Control | Key::LControl => keysyms::XK_Control_L,
        Key::Delete => keysyms::XK_Delete,
        Key::DownArrow => keysyms::XK_Down,
        Key::End => keysyms::XK_End,
        Key::Escape => keysyms::XK_Escape,
        Key::Execute => keysyms::XK_Execute,
        Key::F1 => keysyms::XK_F1,
        Key::F2 => keysyms::XK_F2,
        Key::F3 => keysyms::XK_F3,
        Key::F4 => keysyms::XK_F4,
        Key::F5 => keysyms::XK_F5,
        Key::F6 => keysyms::XK_F6,
        Key::F7 => keysyms::XK_F7,
        Key::F8 => keysyms::XK_F8,
        Key::F9 => keysyms::XK_F9,
        Key::F10 => keysyms::XK_F10,
        Key::F11 => keysyms::XK_F11,
        Key::F12 => keysyms::XK_F12,
        Key::F13 => keysyms::XK_F13,
        Key::F14 => keysyms::XK_F14,
        Key::F15 => keysyms::XK_F15,
        Key::F16 => keysyms::XK_F16,
        Key::F17 => keysyms::XK_F17,
        Key::F18 => keysyms::XK_F18,
        Key::F19 => keysyms::XK_F19,
        Key::F20 => keysyms::XK_F20,
        Key::F21 => keysyms::XK_F21,
        Key::F22 => keysyms::XK_F22,
        Key::F23 => keysyms::XK_F23,
        Key::F24 => keysyms::XK_F24,
        Key::F25 => keysyms::XK_F25,
        Key::F26 => keysyms::XK_F26,
        Key::F27 => keysyms::XK_F27,
        Key::F28 => keysyms::XK_F28,
        Key::F29 => keysyms::XK_F29,
        Key::F30 => keysyms::XK_F30,
        Key::F31 => keysyms::XK_F31,
        Key::F32 => keysyms::XK_F32,
        Key::F33 => keysyms::XK_F33,
        Key::F34 => keysyms::XK_F34,
        Key::F35 => keysyms::XK_F35,
        Key::Find => keysyms::XK_Find,
        Key::Hangul => keysyms::XK_Hangul,
        Key::Hanja => keysyms::XK_Hangul_Hanja,
        Key::Help => keysyms::XK_Help,
        Key::Home => keysyms::XK_Home,
        Key::Insert => keysyms::XK_Insert,
        Key::Kanji => keysyms::XK_Kanji,
        Key::LeftArrow => keysyms::XK_Left,
        Key::Linefeed => keysyms::XK_Linefeed,
        Key::LMenu => keysyms::XK_Menu,
        Key::ModeChange => keysyms::XK_Mode_switch,
        Key::MediaNextTrack => keysyms::XF86XK_AudioNext,
        Key::MediaPlayPause => keysyms::XF86XK_AudioPlay,
        Key::MediaPrevTrack => keysyms::XF86XK_AudioPrev,
        Key::MediaStop => keysyms::XF86XK_AudioStop,
        Key::Numlock => keysyms::XK_Num_Lock,
        Key::PageDown => keysyms::XK_Page_Down,
        Key::PageUp => keysyms::XK_Page_Up,
        Key::Pause => keysyms::XK_Pause,
        Key::Print | Key::PrintScr => keysyms::XK_Print,
        Key::RControl => keysyms::XK_Control_R,
        Key::Redo => keysyms::XK_Redo,
        Key::Return => keysyms::XK_Return,
        Key::RightArrow => keysyms::XK_Right,
        Key::RShift => keysyms::XK_Shift_R,
        Key::ScrollLock => keysyms::XK_Scroll_Lock,
        Key::Select => keysyms::XK_Select,
        Key::ScriptSwitch => keysyms::XK_script_switch,
        Key::Shift | Key::LShift => keysyms::XK_Shift_L,
        Key::ShiftLock => keysyms::XK_Shift_Lock,
        Key::Space => keysyms::XK_space,
        Key::SysReq => keysyms::XK_Sys_Req,
        Key::Tab => keysyms::XK_Tab,
        Key::Undo => keysyms::XK_Undo,
        Key::UpArrow => keysyms::XK_Up,
        Key::VolumeDown => keysyms::XF86XK_AudioLowerVolume,
        Key::VolumeUp => keysyms::XF86XK_AudioRaiseVolume,
        Key::VolumeMute => keysyms::XF86XK_AudioMute,
        Key::MicMute => keysyms::XF86XK_AudioMicMute,
        Key::Command | Key::Super | Key::Windows | Key::Meta => keysyms::XK_Super_L,
    }
}

/// The keys that a keysym stands for, listed by keysym: each key has the
/// keysym named like it (`BackSpace` for the backspace key, `Delete` for the
/// delete key, ...); the left and the plain modifier keys share the left
/// keysym, the command keys share `Super_L`, the print keys share `Print`,
/// and the mode and script switches share the keysym that has both names
pub open spec fn keysym_names_key(sym: u32, key: Key) -> bool {
    if sym == keysyms::XK_Alt_L {
        key == Key::Alt || key == Key::Option
    } else if sym == keysyms::XK_BackSpace {
        key == Key::Backspace
    } else if sym == keysyms::XK_Begin {
        key == Key::Begin
    } else if sym == keysyms::XK_Break {
        key == Key::Break
    } else if sym == keysyms::XK_Cancel {
        key == Key::Cancel
    } else if sym == keysyms::XK_Caps_Lock {
        key == Key::CapsLock
    } else if sym == keysyms::XK_Clear {
        key == Key::Clear
    } else if sym == keysyms::XK_Control_L {
        key == Key::Control || key == Key::LControl
    } else if sym == keysyms::XK_Delete {
        key == Key::Delete
    } else if sym == keysyms::XK_Down {
        key == Key::DownArrow
    } else if sym == keysyms::XK_End {
        key == Key::End
    } else if sym == keysyms::XK_Escape {
        key == Key::Escape
    } else if sym == keysyms::XK_Execute {
        key == Key::Execute
    } else if sym == keysyms::XK_F1 {
        key == Key::F1
    } else if sym == keysyms::XK_F2 {
        key == Key::F2
    } else if sym == keysyms::XK_F3 {
        key == Key::F3
    } else if sym == keysyms::XK_F4 {
        key == Key::F4
    } else if sym == keysyms::XK_F5 {
        key == Key::F5
    } else if sym == keysyms::XK_F6 {
        key == Key::F6
    } else if sym == keysyms::XK_F7 {
        key == Key::F7
    } else if sym == keysyms::XK_F8 {
        key == Key::F8
    } else if sym == keysyms::XK_F9 {
        key == Key::F9
    } else if sym == keysyms::XK_F10 {
        key == Key::F10
    } else if sym == keysyms::XK_F11 {
        key == Key::F11
    } else if sym == keysyms::XK_F12 {
        key == Key::F12
    } else if sym == keysyms::XK_F13 {
        key == Key::F13
    } else if sym == keysyms::XK_F14 {
        key == Key::F14
    } else if sym == keysyms::XK_F15 {
        key == Key::F15
    } else if sym == keysyms::XK_F16 {
        key == Key::F16
    } else if sym == keysyms::XK_F17 {
        key == Key::F17
    } else if sym == keysyms::XK_F18 {
        key == Key::F18
    } else if sym == keysyms::XK_F19 {
        key == Key::F19
    } else if sym == keysyms::XK_F20 {
        key == Key::F20
    } else if sym == keysyms::XK_F21 {
        key == Key::F21
    } else if sym == keysyms::XK_F22 {
        key == Key::F22
    } else if sym == keysyms::XK_F23 {
        key == Key::F23
    } else if sym == keysyms::XK_F24 {
        key == Key::F24
    } else if sym == keysyms::XK_F25 {
        key == Key::F25
    } else if sym == keysyms::XK_F26 {
        key == Key::F26
    } else if sym == keysyms::XK_F27 {
        key == Key::F27
    } else if sym == keysyms::XK_F28 {
        key == Key::F28
    } else if sym == keysyms::XK_F29 {
        key == Key::F29
    } else if sym == keysyms::XK_F30 {
        key == Key::F30
    } else if sym == keysyms::XK_F31 {
        key == Key::F31
    } else if sym == keysyms::XK_F32 {
        key == Key::F32
    } else if sym == keysyms::XK_F33 {
        key == Key::F33
    } else if sym == keysyms::XK_F34 {
        key == Key::F34
    } else if sym == keysyms::XK_F35 {
        key == Key::F35
    } else if sym == keysyms::XK_Find {
        key == Key::Find
    } else if sym == keysyms::XK_Hangul {
        key == Key::Hangul
    } else if sym == keysyms::XK_Hangul_Hanja {
        key == Key::Hanja
    } else if sym == keysyms::XK_Help {
        key == Key::Help
    } else if sym == keysyms::XK_Home {
        key == Key::Home
    } else if sym == keysyms::XK_Insert {
        key == Key::Insert
    } else if sym == keysyms::XK_Kanji {
        key == Key::Kanji
    } else if sym == keysyms::XK_Left {
        key == Key::LeftArrow
    } else if sym == keysyms::XK_Linefeed {
        key == Key::Linefeed
    } else if sym == keysyms::XK_Menu {
        key == Key::LMenu
    } else if sym == keysyms::XK_Mode_switch {
        // `script_switch` is another name of the same keysym
        key == Key::ModeChange || key == Key::ScriptSwitch
    } else if sym == keysyms::XF86XK_AudioNext {
        key == Key::MediaNextTrack
    } else if sym == keysyms::XF86XK_AudioPlay {
        key == Key::MediaPlayPause
    } else if sym == keysyms::XF86XK_AudioPrev {
        key == Key::MediaPrevTrack
    } else if sym == keysyms::XF86XK_AudioStop {
        key == Key::MediaStop
    } else if sym == keysyms::XK_Num_Lock {
        key == Key::Numlock
    } else if sym == keysyms::XK_Page_Down {
        key == Key::PageDown
    } else if sym == keysyms::XK_Page_Up {
        key == Key::PageUp
    } else if sym == keysyms::XK_Pause {
        key == Key::Pause
    } else if sym == keysyms::XK_Print {
        key == Key::Print || key == Key::PrintScr
    } else if sym == keysyms::XK_Control_R {
        key == Key::RControl
    } else if sym == keysyms::XK_Redo {
        key == Key::Redo
    } else if sym == keysyms::XK_Return {
        key == Key::Return
    } else if sym == keysyms::XK_Right {
        key == Key::RightArrow
    } else if sym == keysyms::XK_Shift_R {
        key == Key::RShift
    } else if sym == keysyms::XK_Scroll_Lock {
        key == Key::ScrollLock
    } else if sym == keysyms::XK_Select {
        key == Key::Select
    } else if sym == keysyms::XK_Shift_L {
        key == Key::Shift || key == Key::LShift
    } else if sym == keysyms::XK_Shift_Lock {
        key == Key::ShiftLock
    } else if sym == keysyms::XK_space {
        key == Key::Space
    } else if sym == keysyms::XK_Sys_Req {
        key == Key::SysReq
    } else if sym == keysyms::XK_Tab {
        key == Key::Tab
    } else if sym == keysyms::XK_Undo {
        key == Key::Undo
    } else if sym == keysyms::XK_Up {
        key == Key::UpArrow
    } else if sym == keysyms::XF86XK_AudioLowerVolume {
        key == Key::VolumeDown
    } else if sym == keysyms::XF86XK_AudioRaiseVolume {
        key == Key::VolumeUp
    } else if sym == keysyms::XF86XK_AudioMute {
        key == Key::VolumeMute
    } else if sym == keysyms::XF86XK_AudioMicMute {
        key == Key::MicMute
    } else if sym == keysyms::XK_Super_L {
        key == Key::Command || key == Key::Super || key == Key::Windows || key == Key::Meta
    } else {
        false
    }
}

/// Each named key is entered as the keysym of its name: keys whose names
/// differ, such as `Backspace` and `Delete`, are entered as different
/// keysyms
#[verifier::rlimit(50)]
pub proof fn lemma_keysym_names(key: Key)
    ensures
        !(key is Unicode) && !(key is Other) ==> keysym_names_key(spec_key_to_keysym(key), key),
{
    match key {
        Key::Alt => {},
        Key::Backspace => {},
        Key::Break => {},
        Key::Begin => {},
        Key::Cancel => {},
        Key::CapsLock => {},
        Key::Clear => {},
        Key::Command => {},
        Key::Control => {},
        Key::Delete => {},
        Key::DownArrow => {},
        Key::End => {},
        Key::Escape => {},
        Key::Execute => {},
        Key::F1 => {},
        Key::F2 => {},
        Key::F3 => {},
        Key::F4 => {},
        Key::F5 => {},
        Key::F6 => {},
        Key::F7 => {},
        Key::F8 => {},
        Key::F9 => {},
        Key::F10 => {},
        Key::F11 => {},
        Key::F12 => {},
        Key::F13 => {},
        Key::F14 => {},
        Key::F15 => {},
        Key::F16 => {},
        Key::F17 => {},
        Key::F18 => {},
        Key::F19 => {},
        Key::F20 => {},
        Key::F21 => {},
        Key::F22 => {},
        Key::F23 => {},
        Key::F24 => {},
        Key::F25 => {},
        Key::F26 => {},
        Key::F27 => {},
        Key::F28 => {},
        Key::F29 => {},
        Key::F30 => {},
        Key::F31 => {},
        Key::F32 => {},
        Key::F33 => {},
        Key::F34 => {},
        Key::F35 => {},
        Key::Find => {},
        Key::Hangul => {},
        Key::Hanja => {},
        Key::Help => {},
        Key::Home => {},
        Key::Insert => {},
        Key::Kanji => {},
        Key::LControl => {},
        Key::LeftArrow => {},
        Key::Linefeed => {},
        Key::LMenu => {},
        Key::LShift => {},
        Key::MediaNextTrack => {},
        Key::MediaPlayPause => {},
        Key::MediaPrevTrack => {},
        Key::MediaStop => {},
        Key::Meta => {},
        Key::ModeChange => {},
        Key::Numlock => {},
        Key::Option => {},
        Key::PageDown => {},
        Key::PageUp => {},
        Key::Pause => {},
        Key::Print => {},
        Key::PrintScr => {},
        Key::RControl => {},
        Key::Redo => {},
        Key::Return => {},
        Key::RightArrow => {},
        Key::RShift => {},
        Key::ScrollLock => {},
        Key::Select => {},
        Key::ScriptSwitch => {},
        Key::Shift => {},
        Key::ShiftLock => {},
        Key::Space => {},
        Key::Super => {},
        Key::SysReq => {},
        Key::Tab => {},
        Key::Undo => {},
        Key::UpArrow => {},
        Key::VolumeDown => {},
        Key::VolumeMute => {},
        Key::VolumeUp => {},
        Key::MicMute => {},
        Key::Windows => {},
        Key::Unicode(_) => {},
        Key::Other(_) => {},
    }
}

/// Converts a Key to a Keysym
pub fn key_to_keysym(key: Key) -> (r: u32)
    ensures
        r == spec_key_to_keysym(key),
{
    match key {
        Key::Unicode(c) => char_to_keysym(c),
        Key::Other(v) => v,
        Key::Alt | Key::Option => keysyms::XK_Alt_L,
        Key::Backspace => keysyms::XK_BackSpace,
        Key::Begin => keysyms::XK_Begin,
        Key::Break => keysyms::XK_Break,
        Key::Cancel => keysyms::XK_Cancel,
        Key::CapsLock => keysyms::XK_Caps_Lock,
        Key::Clear => keysyms::XK_Clear,
        Key::Control | Key::LControl => keysyms::XK_Control_L,
        Key::Delete => keysyms::XK_Delete,
        Key::DownArrow => keysyms::XK_Down,
        Key::End => keysyms::XK_End,
        Key::Escape => keysyms::XK_Escape,
        Key::Execute => keysyms::XK_Execute,
        Key::F1 => keysyms::XK_F1,
        Key::F2 => keysyms::XK_F2,
        Key::F3 => keysyms::XK_F3,
        Key::F4 => keysyms::XK_F4,
        Key::F5 => keysyms::XK_F5,
        Key::F6 => keysyms::XK_F6,
        Key::F7 => keysyms::XK_F7,
        Key::F8 => keysyms::XK_F8,
        Key::F9 => keysyms::XK_F9,
        Key::F10 => keysyms::XK_F10,
        Key::F11 => keysyms::XK_F11,
        Key::F12 => keysyms::XK_F12,
        Key::F13 => keysyms::XK_F13,
        Key::F14 => keysyms::XK_F14,
        Key::F15 => keysyms::XK_F15,
        Key::F16 => keysyms::XK_F16,
        Key::F17 => keysyms::XK_F17,
        Key::F18 => keysyms::XK_F18,
        Key::F19 => keysyms::XK_F19,
        Key::F20 => keysyms::XK_F20,
        Key::F21 => keysyms::XK_F21,
        Key::F22 => keysyms::XK_F22,
        Key::F23 => keysyms::XK_F23,
        Key::F24 => keysyms::XK_F24,
        Key::F25 => keysyms::XK_F25,
        Key::F26 => keysyms::XK_F26,
        Key::F27 => keysyms::XK_F27,
        Key::F28 => keysyms::XK_F28,
        Key::F29 => keysyms::XK_F29,
        Key::F30 => keysyms::XK_F30,
        Key::F31 => keysyms::XK_F31,
        Key::F32 => keysyms::XK_F32,
        Key::F33 => keysyms::XK_F33,
        Key::F34 => keysyms::XK_F34,
        Key::F35 => keysyms::XK_F35,
        Key::Find => keysyms::XK_Find,
        Key::Hangul => keysyms::XK_Hangul,
        Key::Hanja => keysyms::XK_Hangul_Hanja,
        Key::Help => keysyms::XK_Help,
        Key::Home => keysyms::XK_Home,
        Key::Insert => keysyms::XK_Insert,
        Key::Kanji => keysyms::XK_Kanji,
        Key::LeftArrow => keysyms::XK_Left,
        Key::Linefeed => keysyms::XK_Linefeed,
        Key::LMenu => keysyms::XK_Menu,
        Key::ModeChange => keysyms::XK_Mode_switch,
        Key::MediaNextTrack => keysyms::XF86XK_AudioNext,
        Key::MediaPlayPause => keysyms::XF86XK_AudioPlay,
        Key::MediaPrevTrack => keysyms::XF86XK_AudioPrev,
        Key::MediaStop => keysyms::XF86XK_AudioStop,
        Key::Numlock => keysyms::XK_Num_Lock,
        Key::PageDown => keysyms::XK_Page_Down,
        Key::PageUp => keysyms::XK_Page_Up,
        Key::Pause => keysyms::XK_Pause,
        Key::Print | Key::PrintScr => keysyms::XK_Print,
        Key::RControl => keysyms::XK_Control_R,
        Key::Redo => keysyms::XK_Redo,
        Key::Return => keysyms::XK_Return,
        Key::RightArrow => keysyms::XK_Right,
        Key::RShift => keysyms::XK_Shift_R,
        Key::ScrollLock => keysyms::XK_Scroll_Lock,
        Key::Select => keysyms::XK_Select,
        Key::ScriptSwitch => keysyms::XK_script_switch,
        Key::Shift | Key::LShift => keysyms::XK_Shift_L,
        Key::ShiftLock => keysyms::XK_Shift_Lock,
        Key::Space => keysyms::XK_space,
        Key::SysReq => keysyms::XK_Sys_Req,
        Key::Tab => keysyms::XK_Tab,
        Key::Undo => keysyms::XK_Undo,
        Key::UpArrow => keysyms::XK_Up,
        Key::VolumeDown => keysyms::XF86XK_AudioLowerVolume,
        Key::VolumeUp => keysyms::XF86XK_AudioRaiseVolume,
        Key::VolumeMute => keysyms::XF86XK_AudioMute,
        Key::MicMute => keysyms::XF86XK_AudioMicMute,
        Key::Command | Key::Super | Key::Windows | Key::Meta => keysyms::XK_Super_L,
    }
}

/// The eight modifiers of the X keyboard model
#[derive(Debug, Clone, Copy, PartialEq, Eq, Hash, Structural)]
pub enum Modifier {
    Shift,
    Lock,
    Control,
    Mod1,
    Mod2,
    Mod3,
    Mod4,
    Mod5,
}

impl Modifier {
    /// The number of the modifier that is usually associated with it on Linux
    pub open spec fn spec_no(self) -> nat {
        match self {
            Modifier::Shift => 0,
            Modifier::Lock => 1,
            Modifier::Control => 2,
            Modifier::Mod1 => 3,
            Modifier::Mod2 => 4,
            Modifier::Mod3 => 5,
            Modifier::Mod4 => 6,
            Modifier::Mod5 => 7,
        }
    }

    /// Returns the bitflag of the modifier that is usually associated with it
    /// on Linux
    pub fn bitflag(self) -> (r: u32)
        ensures
            r == vstd::arithmetic::power2::pow2(self.spec_no()),
    {
        proof {
            vstd::arithmetic::power2::lemma2_to64();
        }
        match self {
            Modifier::Shift => 0x1,
            Modifier::Lock => 0x2,
            Modifier::Control => 0x4,
            Modifier::Mod1 => 0x8,
            Modifier::Mod2 => 0x10,
            Modifier::Mod3 => 0x20,
            Modifier::Mod4 => 0x40,
            Modifier::Mod5 => 0x80,
        }
    }

    /// Returns the number of the modifier that is usually associated with it
    /// on Linux
    pub fn no(self) -> (r: usize)
        ensures
            r == self.spec_no(),
    {
        match self {
            Modifier::Shift => 0,
            Modifier::Lock => 1,
            Modifier::Control => 2,
            Modifier::Mod1 => 3,
            Modifier::Mod2 => 4,
            Modifier::Mod3 => 5,
            Modifier::Mod4 => 6,
            Modifier::Mod5 => 7,
        }
    }

    /// The modifier that a key acts as, if any
    pub open spec fn spec_of_key(key: Key) -> Option<Modifier> {
        match key {
            Key::Shift | Key::LShift | Key::RShift => Some(Modifier::Shift),
            Key::CapsLock => Some(Modifier::Lock),
            Key::Control | Key::LControl | Key::RControl => Some(Modifier::Control),
            Key::Alt | Key::Option => Some(Modifier::Mod1),
            Key::Numlock => Some(Modifier::Mod2),
            Key::Command | Key::Super | Key::Windows | Key::Meta => Some(Modifier::Mod4),
            Key::ModeChange => Some(Modifier::Mod5),
            _ => None,
        }
    }

    /// Converts a Key to a modifier. The Mod3 modifier is usually unmapped,
    /// so no key converts to it.
    pub fn try_from(key: Key) -> (r: Result<Modifier, &'static str>)
        ensures
            r is Ok <==> Self::spec_of_key(key) is Some,
            r matches Ok(m) ==> Self::spec_of_key(key) == Some(m),
            Self::spec_of_key(key) is None ==> r == Err::<Modifier, &'static str>("not a modifier key"),
    {
        match key {
            Key::Shift | Key::LShift | Key::RShift => Ok(Modifier::Shift),
            Key::CapsLock => Ok(Modifier::Lock),
            Key::Control | Key::LControl | Key::RControl => Ok(Modifier::Control),
            Key::Alt | Key::Option => Ok(Modifier::Mod1),
            Key::Numlock => Ok(Modifier::Mod2),
            Key::Command | Key::Super | Key::Windows | Key::Meta => Ok(Modifier::Mod4),
            Key::ModeChange => Ok(Modifier::Mod5),
            _ => Err("not a modifier key"),
        }
    }
}

} // verus!
