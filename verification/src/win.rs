//! The Windows backend's virtual-key codes: the keys of a Windows keyboard
//! and the virtual-key code that each is sent as.

use vstd::prelude::*;

verus! {

/// A key of a Windows keyboard.
/// Use [`Key::Unicode`] to enter arbitrary Unicode chars.
/// If a key is missing, you can simulate it by using [`Key::Other`], which
/// holds the virtual-key code itself.
#[derive(Debug, Copy, Clone, PartialEq, Eq, Hash, Structural)]
pub enum Key {
    Num0,
    Num1,
    Num2,
    Num3,
    Num4,
    Num5,
    Num6,
    Num7,
    Num8,
    Num9,
    A,
    B,
    C,
    D,
    E,
    F,
    G,
    H,
    I,
    J,
    K,
    L,
    M,
    N,
    O,
    P,
    Q,
    R,
    S,
    T,
    U,
    V,
    W,
    X,
    Y,
    Z,
    AbntC1,
    AbntC2,
    Accept,
    Add,
    /// alt key on Linux and Windows (option key on macOS)
    Alt,
    Apps,
    Attn,
    /// backspace key
    Backspace,
    BrowserBack,
    BrowserFavorites,
    BrowserForward,
    BrowserHome,
    BrowserRefresh,
    BrowserSearch,
    BrowserStop,
    Cancel,
    /// caps lock key
    CapsLock,
    Clear,
    /// command key on macOS (super key on Linux, windows key on Windows)
    Command,
    /// control key
    Control,
    Convert,
    Crsel,
    DBEAlphanumeric,
    DBECodeinput,
    DBEDetermineString,
    DBEEnterDLGConversionMode,
    DBEEnterIMEConfigMode,
    DBEEnterWordRegisterMode,
    DBEFlushString,
    DBEHiragana,
    DBEKatakana,
    DBENoCodepoint,
    DBENoRoman,
    DBERoman,
    DBESBCSChar,
    DBESChar,
    Decimal,
    /// delete key
    Delete,
    Divide,
    /// down arrow key
    DownArrow,
    /// end key
    End,
    Ereof,
    /// escape key (esc)
    Escape,
    Execute,
    Exsel,
    /// F1 key
    F1,
    /// F2 key
    F2,
    /// F3 key
    F3,
    /// F4 key
    F4,
    /// F5 key
    F5,
    /// F6 key
    F6,
    /// F7 key
    F7,
    /// F8 key
    F8,
    /// F9 key
    F9,
    /// F10 key
    F10,
    /// F11 key
    F11,
    /// F12 key
    F12,
    /// F13 key
    F13,
    /// F14 key
    F14,
    /// F15 key
    F15,
    /// F16 key
    F16,
    /// F17 key
    F17,
    /// F18 key
    F18,
    /// F19 key
    F19,
    /// F20 key
    F20,
    /// F21 key
    F21,
    /// F22 key
    F22,
    /// F23 key
    F23,
    /// F24 key
    F24,
    Final,
    GamepadA,
    GamepadB,
    GamepadDPadDown,
    GamepadDPadLeft,
    GamepadDPadRight,
    GamepadDPadUp,
    GamepadLeftShoulder,
    GamepadLeftThumbstickButton,
    GamepadLeftThumbstickDown,
    GamepadLeftThumbstickLeft,
    GamepadLeftThumbstickRight,
    GamepadLeftThumbstickUp,
    GamepadLeftTrigger,
    GamepadMenu,
    GamepadRightShoulder,
    GamepadRightThumbstickButton,
    GamepadRightThumbstickDown,
    GamepadRightThumbstickLeft,
    GamepadRightThumbstickRight,
    GamepadRightThumbstickUp,
    GamepadRightTrigger,
    GamepadView,
    GamepadX,
    GamepadY,
    Hangeul,
    Hangul,
    Hanja,
    Help,
    /// home key
    Home,
    Ico00,
    IcoClear,
    IcoHelp,
    IMEOff,
    IMEOn,
    Insert,
    Junja,
    Kana,
    Kanji,
    LaunchApp1,
    LaunchApp2,
    LaunchMail,
    LaunchMediaSelect,
    LButton,
    LControl,
    /// left arrow key
    LeftArrow,
    LMenu,
    LShift,
    LWin,
    MButton,
    MediaNextTrack,
    MediaPlayPause,
    MediaPrevTrack,
    MediaStop,
    /// meta key (also known as "windows", "super", and "command")
    Meta,
    ModeChange,
    Multiply,
    NavigationAccept,
    NavigationCancel,
    NavigationDown,
    NavigationLeft,
    NavigationMenu,
    NavigationRight,
    NavigationUp,
    NavigationView,
    NoName,
    NonConvert,
    /// the key with the virtual-key code `VK__none_`
    NoneKey,
    Numlock,
    Numpad0,
    Numpad1,
    Numpad2,
    Numpad3,
    Numpad4,
    Numpad5,
    Numpad6,
    Numpad7,
    Numpad8,
    Numpad9,
    OEM1,
    OEM102,
    OEM2,
    OEM3,
    OEM4,
    OEM5,
    OEM6,
    OEM7,
    OEM8,
    OEMAttn,
    OEMAuto,
    OEMAx,
    OEMBacktab,
    OEMClear,
    OEMComma,
    OEMCopy,
    OEMCusel,
    OEMEnlw,
    OEMFinish,
    OEMFJJisho,
    OEMFJLoya,
    OEMFJMasshou,
    OEMFJRoya,
    OEMFJTouroku,
    OEMJump,
    OEMMinus,
    OEMNECEqual,
    OEMPA1,
    OEMPA2,
    OEMPA3,
    OEMPeriod,
    OEMPlus,
    OEMReset,
    OEMWsctrl,
    /// option key on macOS (alt key on Linux and Windows)
    Option,
    PA1,
    Packet,
    /// page down key
    PageDown,
    /// page up key
    PageUp,
    Pause,
    Play,
    Print,
    /// Take a screenshot
    PrintScr,
    Processkey,
    RButton,
    RControl,
    /// return key
    Return,
    /// right arrow key
    RightArrow,
    RMenu,
    RShift,
    RWin,
    Scroll,
    Select,
    Separator,
    /// shift key
    Shift,
    Sleep,
    Snapshot,
    /// space key
    Space,
    Subtract,
    /// super key on linux (command key on macOS, windows key on Windows)
    Super,
    /// tab key (tabulator)
    Tab,
    /// up arrow key
    UpArrow,
    VolumeDown,
    VolumeMute,
    VolumeUp,
    /// windows key on Windows (super key on Linux, command key on macOS)
    Windows,
    XButton1,
    XButton2,
    Zoom,
    /// Unicode character
    Unicode(char),
    /// Use this for keys that are not listed here that you know the
    /// value of. Let us know if you think the key should be listed so
    /// we can add it
    /// On Linux, this will result in a keysym,
    /// On Windows, this will result in a `Virtual_Key` and
    /// On macOS, this will yield a `KeyCode`
    Other(u32),
}

/// The virtual-key code that a key is sent as, or why it has none: a
/// Unicode character is entered by its scan codes, and a code given with
/// [`Key::Other`] must fit into 16 bits. The comment on each line names the
/// virtual-key constant.
pub open spec fn spec_virtual_key(key: Key) -> Result<u16, &'static str> {
    match key {
        Key::Num0 => Ok(0x30u16), // VK_0
        Key::Num1 => Ok(0x31u16), // VK_1
        Key::Num2 => Ok(0x32u16), // VK_2
        Key::Num3 => Ok(0x33u16), // VK_3
        Key::Num4 => Ok(0x34u16), // VK_4
        Key::Num5 => Ok(0x35u16), // VK_5
        Key::Num6 => Ok(0x36u16), // VK_6
        Key::Num7 => Ok(0x37u16), // VK_7
        Key::Num8 => Ok(0x38u16), // VK_8
        Key::Num9 => Ok(0x39u16), // VK_9
        Key::A => Ok(0x41u16), // VK_A
        Key::B => Ok(0x42u16), // VK_B
        Key::C => Ok(0x43u16), // VK_C
        Key::D => Ok(0x44u16), // VK_D
        Key::E => Ok(0x45u16), // VK_E
        Key::F => Ok(0x46u16), // VK_F
        Key::G => Ok(0x47u16), // VK_G
        Key::H => Ok(0x48u16), // VK_H
        Key::I => Ok(0x49u16), // VK_I
        Key::J => Ok(0x4au16), // VK_J
        Key::K => Ok(0x4bu16), // VK_K
        Key::L => Ok(0x4cu16), // VK_L
        Key::M => Ok(0x4du16), // VK_M
        Key::N => Ok(0x4eu16), // VK_N
        Key::O => Ok(0x4fu16), // VK_O
        Key::P => Ok(0x50u16), // VK_P
        Key::Q => Ok(0x51u16), // VK_Q
        Key::R => Ok(0x52u16), // VK_R
        Key::S => Ok(0x53u16), // VK_S
        Key::T => Ok(0x54u16), // VK_T
        Key::U => Ok(0x55u16), // VK_U
        Key::V => Ok(0x56u16), // VK_V
        Key::W => Ok(0x57u16), // VK_W
        Key::X => Ok(0x58u16), // VK_X
        Key::Y => Ok(0x59u16), // VK_Y
        Key::Z => Ok(0x5au16), // VK_Z
        Key::AbntC1 => Ok(0xc1u16), // VK_ABNT_C1
        Key::AbntC2 => Ok(0xc2u16), // VK_ABNT_C2
        Key::Accept => Ok(0x1eu16), // VK_ACCEPT
        Key::Add => Ok(0x6bu16), // VK_ADD
        Key::Alt | Key::Option => Ok(0x12u16), // VK_MENU
        Key::Apps => Ok(0x5du16), // VK_APPS
        Key::Attn => Ok(0xf6u16), // VK_ATTN
        Key::Backspace => Ok(0x08u16), // VK_BACK
        Key::BrowserBack => Ok(0xa6u16), // VK_BROWSER_BACK
        Key::BrowserFavorites => Ok(0xabu16), // VK_BROWSER_FAVORITES
        Key::BrowserForward => Ok(0xa7u16), // VK_BROWSER_FORWARD
        Key::BrowserHome => Ok(0xacu16), // VK_BROWSER_HOME
        Key::BrowserRefresh => Ok(0xa8u16), // VK_BROWSER_REFRESH
        Key::BrowserSearch => Ok(0xaau16), // VK_BROWSER_SEARCH
        Key::BrowserStop => Ok(0xa9u16), // VK_BROWSER_STOP
        Key::Cancel => Ok(0x03u16), // VK_CANCEL
        Key::CapsLock => Ok(0x14u16), // VK_CAPITAL
        Key::Clear => Ok(0x0cu16), // VK_CLEAR
        Key::Control => Ok(0x11u16), // VK_CONTROL
        Key::Convert => Ok(0x1cu16), // VK_CONVERT
        Key::Crsel => Ok(0xf7u16), // VK_CRSEL
        Key::DBEAlphanumeric => Ok(0xf0u16), // VK_DBE_ALPHANUMERIC
        Key::DBECodeinput => Ok(0xfau16), // VK_DBE_CODEINPUT
        Key::DBEDetermineString => Ok(0xfcu16), // VK_DBE_DETERMINESTRING
        Key::DBEEnterDLGConversionMode => Ok(0xfdu16), // VK_DBE_ENTERDLGCONVERSIONMODE
        Key::DBEEnterIMEConfigMode => Ok(0xf8u16), // VK_DBE_ENTERIMECONFIGMODE
        Key::DBEEnterWordRegisterMode => Ok(0xf7u16), // VK_DBE_ENTERWORDREGISTERMODE
        Key::DBEFlushString => Ok(0xf9u16), // VK_DBE_FLUSHSTRING
        Key::DBEHiragana => Ok(0xf2u16), // VK_DBE_HIRAGANA
        Key::DBEKatakana => Ok(0xf1u16), // VK_DBE_KATAKANA
        Key::DBENoCodepoint => Ok(0xfbu16), // VK_DBE_NOCODEINPUT
        Key::DBENoRoman => Ok(0xf6u16), // VK_DBE_NOROMAN
        Key::DBERoman => Ok(0xf5u16), // VK_DBE_ROMAN
        Key::DBESBCSChar => Ok(0xf3u16), // VK_DBE_SBCSCHAR
        Key::DBESChar => Ok(0xf4u16), // VK_DBE_DBCSCHAR
        Key::Decimal => Ok(0x6eu16), // VK_DECIMAL
        Key::Delete => Ok(0x2eu16), // VK_DELETE
        Key::Divide => Ok(0x6fu16), // VK_DIVIDE
        Key::DownArrow => Ok(0x28u16), // VK_DOWN
        Key::End => Ok(0x23u16), // VK_END
        Key::Ereof => Ok(0xf9u16), // VK_EREOF
        Key::Escape => Ok(0x1bu16), // VK_ESCAPE
        Key::Execute => Ok(0x2bu16), // VK_EXECUTE
        Key::Exsel => Ok(0xf8u16), // VK_EXSEL
        Key::F1 => Ok(0x70u16), // VK_F1
        Key::F2 => Ok(0x71u16), // VK_F2
        Key::F3 => Ok(0x72u16), // VK_F3
        Key::F4 => Ok(0x73u16), // VK_F4
        Key::F5 => Ok(0x74u16), // VK_F5
        Key::F6 => Ok(0x75u16), // VK_F6
        Key::F7 => Ok(0x76u16), // VK_F7
        Key::F8 => Ok(0x77u16), // VK_F8
        Key::F9 => Ok(0x78u16), // VK_F9
        Key::F10 => Ok(0x79u16), // VK_F10
        Key::F11 => Ok(0x7au16), // VK_F11
        Key::F12 => Ok(0x7bu16), // VK_F12
        Key::F13 => Ok(0x7cu16), // VK_F13
        Key::F14 => Ok(0x7du16), // VK_F14
        Key::F15 => Ok(0x7eu16), // VK_F15
        Key::F16 => Ok(0x7fu16), // VK_F16
        Key::F17 => Ok(0x80u16), // VK_F17
        Key::F18 => Ok(0x81u16), // VK_F18
        Key::F19 => Ok(0x82u16), // VK_F19
        Key::F20 => Ok(0x83u16), // VK_F20
        Key::F21 => Ok(0x84u16), // VK_F21
        Key::F22 => Ok(0x85u16), // VK_F22
        Key::F23 => Ok(0x86u16), // VK_F23
        Key::F24 => Ok(0x87u16), // VK_F24
        Key::Final => Ok(0x18u16), // VK_FINAL
        Key::GamepadA => Ok(0xc3u16), // VK_GAMEPAD_A
        Key::GamepadB => Ok(0xc4u16), // VK_GAMEPAD_B
        Key::GamepadDPadDown => Ok(0xccu16), // VK_GAMEPAD_DPAD_DOWN
        Key::GamepadDPadLeft => Ok(0xcdu16), // VK_GAMEPAD_DPAD_LEFT
        Key::GamepadDPadRight => Ok(0xceu16), // VK_GAMEPAD_DPAD_RIGHT
        Key::GamepadDPadUp => Ok(0xcbu16), // VK_GAMEPAD_DPAD_UP
        Key::GamepadLeftShoulder => Ok(0xc8u16), // VK_GAMEPAD_LEFT_SHOULDER
        Key::GamepadLeftThumbstickButton => Ok(0xd1u16), // VK_GAMEPAD_LEFT_THUMBSTICK_BUTTON
        Key::GamepadLeftThumbstickDown => Ok(0xd4u16), // VK_GAMEPAD_LEFT_THUMBSTICK_DOWN
        Key::GamepadLeftThumbstickLeft => Ok(0xd6u16), // VK_GAMEPAD_LEFT_THUMBSTICK_LEFT
        Key::GamepadLeftThumbstickRight => Ok(0xd5u16), // VK_GAMEPAD_LEFT_THUMBSTICK_RIGHT
        Key::GamepadLeftThumbstickUp => Ok(0xd3u16), // VK_GAMEPAD_LEFT_THUMBSTICK_UP
        Key::GamepadLeftTrigger => Ok(0xc9u16), // VK_GAMEPAD_LEFT_TRIGGER
        Key::GamepadMenu => Ok(0xcfu16), // VK_GAMEPAD_MENU
        Key::GamepadRightShoulder => Ok(0xc7u16), // VK_GAMEPAD_RIGHT_SHOULDER
        Key::GamepadRightThumbstickButton => Ok(0xd2u16), // VK_GAMEPAD_RIGHT_THUMBSTICK_BUTTON
        Key::GamepadRightThumbstickDown => Ok(0xd8u16), // VK_GAMEPAD_RIGHT_THUMBSTICK_DOWN
        Key::GamepadRightThumbstickLeft => Ok(0xdau16), // VK_GAMEPAD_RIGHT_THUMBSTICK_LEFT
        Key::GamepadRightThumbstickRight => Ok(0xd9u16), // VK_GAMEPAD_RIGHT_THUMBSTICK_RIGHT
        Key::GamepadRightThumbstickUp => Ok(0xd7u16), // VK_GAMEPAD_RIGHT_THUMBSTICK_UP
        Key::GamepadRightTrigger => Ok(0xcau16), // VK_GAMEPAD_RIGHT_TRIGGER
        Key::GamepadView => Ok(0xd0u16), // VK_GAMEPAD_VIEW
        Key::GamepadX => Ok(0xc5u16), // VK_GAMEPAD_X
        Key::GamepadY => Ok(0xc6u16), // VK_GAMEPAD_Y
        Key::Hangeul => Ok(0x15u16), // VK_HANGEUL
        Key::Hangul => Ok(0x15u16), // VK_HANGUL
        Key::Hanja => Ok(0x19u16), // VK_HANJA
        Key::Help => Ok(0x2fu16), // VK_HELP
        Key::Home => Ok(0x24u16), // VK_HOME
        Key::Ico00 => Ok(0xe4u16), // VK_ICO_00
        Key::IcoClear => Ok(0xe6u16), // VK_ICO_CLEAR
        Key::IcoHelp => Ok(0xe3u16), // VK_ICO_HELP
        Key::IMEOff => Ok(0x1au16), // VK_IME_OFF
        Key::IMEOn => Ok(0x16u16), // VK_IME_ON
        Key::Insert => Ok(0x2du16), // VK_INSERT
        Key::Junja => Ok(0x17u16), // VK_JUNJA
        Key::Kana => Ok(0x15u16), // VK_KANA
        Key::Kanji => Ok(0x19u16), // VK_KANJI
        Key::LaunchApp1 => Ok(0xb6u16), // VK_LAUNCH_APP1
        Key::LaunchApp2 => Ok(0xb7u16), // VK_LAUNCH_APP2
        Key::LaunchMail => Ok(0xb4u16), // VK_LAUNCH_MAIL
        Key::LaunchMediaSelect => Ok(0xb5u16), // VK_LAUNCH_MEDIA_SELECT
        Key::LButton => Ok(0x01u16), // VK_LBUTTON
        Key::LControl => Ok(0xa2u16), // VK_LCONTROL
        Key::LeftArrow => Ok(0x25u16), // VK_LEFT
        Key::LMenu => Ok(0xa4u16), // VK_LMENU
        Key::LShift => Ok(0xa0u16), // VK_LSHIFT
        Key::MButton => Ok(0x04u16), // VK_MBUTTON
        Key::MediaNextTrack => Ok(0xb0u16), // VK_MEDIA_NEXT_TRACK
        Key::MediaPlayPause => Ok(0xb3u16), // VK_MEDIA_PLAY_PAUSE
        Key::MediaPrevTrack => Ok(0xb1u16), // VK_MEDIA_PREV_TRACK
        Key::MediaStop => Ok(0xb2u16), // VK_MEDIA_STOP
        Key::ModeChange => Ok(0x1fu16), // VK_MODECHANGE
        Key::Multiply => Ok(0x6au16), // VK_MULTIPLY
        Key::NavigationAccept => Ok(0x8eu16), // VK_NAVIGATION_ACCEPT
        Key::NavigationCancel => Ok(0x8fu16), // VK_NAVIGATION_CANCEL
        Key::NavigationDown => Ok(0x8bu16), // VK_NAVIGATION_DOWN
        Key::NavigationLeft => Ok(0x8cu16), // VK_NAVIGATION_LEFT
        Key::NavigationMenu => Ok(0x89u16), // VK_NAVIGATION_MENU
        Key::NavigationRight => Ok(0x8du16), // VK_NAVIGATION_RIGHT
        Key::NavigationUp => Ok(0x8au16), // VK_NAVIGATION_UP
        Key::NavigationView => Ok(0x88u16), // VK_NAVIGATION_VIEW
        Key::NoName => Ok(0xfcu16), // VK_NONAME
        Key::NonConvert => Ok(0x1du16), // VK_NONCONVERT
        Key::NoneKey => Ok(0xffu16), // VK__none_
        Key::Numlock => Ok(0x90u16), // VK_NUMLOCK
        Key::Numpad0 => Ok(0x60u16), // VK_NUMPAD0
        Key::Numpad1 => Ok(0x61u16), // VK_NUMPAD1
        Key::Numpad2 => Ok(0x62u16), // VK_NUMPAD2
        Key::Numpad3 => Ok(0x63u16), // VK_NUMPAD3
        Key::Numpad4 => Ok(0x64u16), // VK_NUMPAD4
        Key::Numpad5 => Ok(0x65u16), // VK_NUMPAD5
        Key::Numpad6 => Ok(0x66u16), // VK_NUMPAD6
        Key::Numpad7 => Ok(0x67u16), // VK_NUMPAD7
        Key::Numpad8 => Ok(0x68u16), // VK_NUMPAD8
        Key::Numpad9 => Ok(0x69u16), // VK_NUMPAD9
        Key::OEM1 => Ok(0xbau16), // VK_OEM_1
        Key::OEM102 => Ok(0xe2u16), // VK_OEM_102
        Key::OEM2 => Ok(0xbfu16), // VK_OEM_2
        Key::OEM3 => Ok(0xc0u16), // VK_OEM_3
        Key::OEM4 => Ok(0xdbu16), // VK_OEM_4
        Key::OEM5 => Ok(0xdcu16), // VK_OEM_5
        Key::OEM6 => Ok(0xddu16), // VK_OEM_6
        Key::OEM7 => Ok(0xdeu16), // VK_OEM_7
        Key::OEM8 => Ok(0xdfu16), // VK_OEM_8
        Key::OEMAttn => Ok(0xf0u16), // VK_OEM_ATTN
        Key::OEMAuto => Ok(0xf3u16), // VK_OEM_AUTO
        Key::OEMAx => Ok(0xe1u16), // VK_OEM_AX
        Key::OEMBacktab => Ok(0xf5u16), // VK_OEM_BACKTAB
        Key::OEMClear => Ok(0xfeu16), // VK_OEM_CLEAR
        Key::OEMComma => Ok(0xbcu16), // VK_OEM_COMMA
        Key::OEMCopy => Ok(0xf2u16), // VK_OEM_COPY
        Key::OEMCusel => Ok(0xefu16), // VK_OEM_CUSEL
        Key::OEMEnlw => Ok(0xf4u16), // VK_OEM_ENLW
        Key::OEMFinish => Ok(0xf1u16), // VK_OEM_FINISH
        Key::OEMFJJisho => Ok(0x92u16), // VK_OEM_FJ_JISHO
        Key::OEMFJLoya => Ok(0x95u16), // VK_OEM_FJ_LOYA
        Key::OEMFJMasshou => Ok(0x93u16), // VK_OEM_FJ_MASSHOU
        Key::OEMFJRoya => Ok(0x96u16), // VK_OEM_FJ_ROYA
        Key::OEMFJTouroku => Ok(0x94u16), // VK_OEM_FJ_TOUROKU
        Key::OEMJump => Ok(0xeau16), // VK_OEM_JUMP
        Key::OEMMinus => Ok(0xbdu16), // VK_OEM_MINUS
        Key::OEMNECEqual => Ok(0x92u16), // VK_OEM_NEC_EQUAL
        Key::OEMPA1 => Ok(0xebu16), // VK_OEM_PA1
        Key::OEMPA2 => Ok(0xecu16), // VK_OEM_PA2
        Key::OEMPA3 => Ok(0xedu16), // VK_OEM_PA3
        Key::OEMPeriod => Ok(0xbeu16), // VK_OEM_PERIOD
        Key::OEMPlus => Ok(0xbbu16), // VK_OEM_PLUS
        Key::OEMReset => Ok(0xe9u16), // VK_OEM_RESET
        Key::OEMWsctrl => Ok(0xeeu16), // VK_OEM_WSCTRL
        Key::PA1 => Ok(0xfdu16), // VK_PA1
        Key::Packet => Ok(0xe7u16), // VK_PACKET
        Key::PageDown => Ok(0x22u16), // VK_NEXT
        Key::PageUp => Ok(0x21u16), // VK_PRIOR
        Key::Pause => Ok(0x13u16), // VK_PAUSE
        Key::Play => Ok(0xfau16), // VK_PLAY
        Key::Print => Ok(0x2au16), // VK_PRINT
        Key::PrintScr | Key::Snapshot => Ok(0x2cu16), // VK_SNAPSHOT
        Key::Processkey => Ok(0xe5u16), // VK_PROCESSKEY
        Key::RButton => Ok(0x02u16), // VK_RBUTTON
        Key::RControl => Ok(0xa3u16), // VK_RCONTROL
        Key::Return => Ok(0x0du16), // VK_RETURN
        Key::RightArrow => Ok(0x27u16), // VK_RIGHT
        Key::RMenu => Ok(0xa5u16), // VK_RMENU
        Key::RShift => Ok(0xa1u16), // VK_RSHIFT
        Key::RWin => Ok(0x5cu16), // VK_RWIN
        Key::Scroll => Ok(0x91u16), // VK_SCROLL
        Key::Select => Ok(0x29u16), // VK_SELECT
        Key::Separator => Ok(0x6cu16), // VK_SEPARATOR
        Key::Shift => Ok(0x10u16), // VK_SHIFT
        Key::Sleep => Ok(0x5fu16), // VK_SLEEP
        Key::Space => Ok(0x20u16), // VK_SPACE
        Key::Subtract => Ok(0x6du16), // VK_SUBTRACT
        Key::Tab => Ok(0x09u16), // VK_TAB
        Key::UpArrow => Ok(0x26u16), // VK_UP
        Key::VolumeDown => Ok(0xaeu16), // VK_VOLUME_DOWN
        Key::VolumeMute => Ok(0xadu16), // VK_VOLUME_MUTE
        Key::VolumeUp => Ok(0xafu16), // VK_VOLUME_UP
        Key::XButton1 => Ok(0x05u16), // VK_XBUTTON1
        Key::XButton2 => Ok(0x06u16), // VK_XBUTTON2
        Key::Zoom => Ok(0xfbu16), // VK_ZOOM
        Key::Super | Key::Command | Key::Windows | Key::Meta | Key::LWin => Ok(0x5bu16), // VK_LWIN
        Key::Unicode(_) => Err("Unicode must be entered via scancodes"),
        Key::Other(v) => if v <= 0xFFFF {
            Ok(v as u16)
        } else {
            Err("virtual keycodes on Windows have to fit into u16")
        },
    }
}

/// The keys that the virtual-key code stands for, listed by code: several
/// keys share a code where Windows gives one key two names (such as
/// `VK_KANA` and `VK_HANGUL`), and the IME codes reuse the OEM ones. The
/// comment on each line names the virtual-key constants.
pub open spec fn vk_names_key(code: u16, key: Key) -> bool {
    match code {
        0x01 => key == Key::LButton,  // VK_LBUTTON
        0x02 => key == Key::RButton,  // VK_RBUTTON
        0x03 => key == Key::Cancel,  // VK_CANCEL
        0x04 => key == Key::MButton,  // VK_MBUTTON
        0x05 => key == Key::XButton1,  // VK_XBUTTON1
        0x06 => key == Key::XButton2,  // VK_XBUTTON2
        0x08 => key == Key::Backspace,  // VK_BACK
        0x09 => key == Key::Tab,  // VK_TAB
        0x0c => key == Key::Clear,  // VK_CLEAR
        0x0d => key == Key::Return,  // VK_RETURN
        0x10 => key == Key::Shift,  // VK_SHIFT
        0x11 => key == Key::Control,  // VK_CONTROL
        0x12 => key == Key::Alt || key == Key::Option,  // VK_MENU
        0x13 => key == Key::Pause,  // VK_PAUSE
        0x14 => key == Key::CapsLock,  // VK_CAPITAL
        0x15 => key == Key::Hangeul || key == Key::Hangul || key == Key::Kana,  // VK_HANGEUL, VK_HANGUL, VK_KANA
        0x16 => key == Key::IMEOn,  // VK_IME_ON
        0x17 => key == Key::Junja,  // VK_JUNJA
        0x18 => key == Key::Final,  // VK_FINAL
        0x19 => key == Key::Hanja || key == Key::Kanji,  // VK_HANJA, VK_KANJI
        0x1a => key == Key::IMEOff,  // VK_IME_OFF
        0x1b => key == Key::Escape,  // VK_ESCAPE
        0x1c => key == Key::Convert,  // VK_CONVERT
        0x1d => key == Key::NonConvert,  // VK_NONCONVERT
        0x1e => key == Key::Accept,  // VK_ACCEPT
        0x1f => key == Key::ModeChange,  // VK_MODECHANGE
        0x20 => key == Key::Space,  // VK_SPACE
        0x21 => key == Key::PageUp,  // VK_PRIOR
        0x22 => key == Key::PageDown,  // VK_NEXT
        0x23 => key == Key::End,  // VK_END
        0x24 => key == Key::Home,  // VK_HOME
        0x25 => key == Key::LeftArrow,  // VK_LEFT
        0x26 => key == Key::UpArrow,  // VK_UP
        0x27 => key == Key::RightArrow,  // VK_RIGHT
        0x28 => key == Key::DownArrow,  // VK_DOWN
        0x29 => key == Key::Select,  // VK_SELECT
        0x2a => key == Key::Print,  // VK_PRINT
        0x2b => key == Key::Execute,  // VK_EXECUTE
        0x2c => key == Key::PrintScr || key == Key::Snapshot,  // VK_SNAPSHOT
        0x2d => key == Key::Insert,  // VK_INSERT
        0x2e => key == Key::Delete,  // VK_DELETE
        0x2f => key == Key::Help,  // VK_HELP
        0x30 => key == Key::Num0,  // VK_0
        0x31 => key == Key::Num1,  // VK_1
        0x32 => key == Key::Num2,  // VK_2
        0x33 => key == Key::Num3,  // VK_3
        0x34 => key == Key::Num4,  // VK_4
        0x35 => key == Key::Num5,  // VK_5
        0x36 => key == Key::Num6,  // VK_6
        0x37 => key == Key::Num7,  // VK_7
        0x38 => key == Key::Num8,  // VK_8
        0x39 => key == Key::Num9,  // VK_9
        0x41 => key == Key::A,  // VK_A
        0x42 => key == Key::B,  // VK_B
        0x43 => key == Key::C,  // VK_C
        0x44 => key == Key::D,  // VK_D
        0x45 => key == Key::E,  // VK_E
        0x46 => key == Key::F,  // VK_F
        0x47 => key == Key::G,  // VK_G
        0x48 => key == Key::H,  // VK_H
        0x49 => key == Key::I,  // VK_I
        0x4a => key == Key::J,  // VK_J
        0x4b => key == Key::K,  // VK_K
        0x4c => key == Key::L,  // VK_L
        0x4d => key == Key::M,  // VK_M
        0x4e => key == Key::N,  // VK_N
        0x4f => key == Key::O,  // VK_O
        0x50 => key == Key::P,  // VK_P
        0x51 => key == Key::Q,  // VK_Q
        0x52 => key == Key::R,  // VK_R
        0x53 => key == Key::S,  // VK_S
        0x54 => key == Key::T,  // VK_T
        0x55 => key == Key::U,  // VK_U
        0x56 => key == Key::V,  // VK_V
        0x57 => key == Key::W,  // VK_W
        0x58 => key == Key::X,  // VK_X
        0x59 => key == Key::Y,  // VK_Y
        0x5a => key == Key::Z,  // VK_Z
        0x5b => key == Key::Super || key == Key::Command || key == Key::Windows || key == Key::Meta || key == Key::LWin,  // VK_LWIN
        0x5c => key == Key::RWin,  // VK_RWIN
        0x5d => key == Key::Apps,  // VK_APPS
        0x5f => key == Key::Sleep,  // VK_SLEEP
        0x60 => key == Key::Numpad0,  // VK_NUMPAD0
        0x61 => key == Key::Numpad1,  // VK_NUMPAD1
        0x62 => key == Key::Numpad2,  // VK_NUMPAD2
        0x63 => key == Key::Numpad3,  // VK_NUMPAD3
        0x64 => key == Key::Numpad4,  // VK_NUMPAD4
        0x65 => key == Key::Numpad5,  // VK_NUMPAD5
        0x66 => key == Key::Numpad6,  // VK_NUMPAD6
        0x67 => key == Key::Numpad7,  // VK_NUMPAD7
        0x68 => key == Key::Numpad8,  // VK_NUMPAD8
        0x69 => key == Key::Numpad9,  // VK_NUMPAD9
        0x6a => key == Key::Multiply,  // VK_MULTIPLY
        0x6b => key == Key::Add,  // VK_ADD
        0x6c => key == Key::Separator,  // VK_SEPARATOR
        0x6d => key == Key::Subtract,  // VK_SUBTRACT
        0x6e => key == Key::Decimal,  // VK_DECIMAL
        0x6f => key == Key::Divide,  // VK_DIVIDE
        0x70 => key == Key::F1,  // VK_F1
        0x71 => key == Key::F2,  // VK_F2
        0x72 => key == Key::F3,  // VK_F3
        0x73 => key == Key::F4,  // VK_F4
        0x74 => key == Key::F5,  // VK_F5
        0x75 => key == Key::F6,  // VK_F6
        0x76 => key == Key::F7,  // VK_F7
        0x77 => key == Key::F8,  // VK_F8
        0x78 => key == Key::F9,  // VK_F9
        0x79 => key == Key::F10,  // VK_F10
        0x7a => key == Key::F11,  // VK_F11
        0x7b => key == Key::F12,  // VK_F12
        0x7c => key == Key::F13,  // VK_F13
        0x7d => key == Key::F14,  // VK_F14
        0x7e => key == Key::F15,  // VK_F15
        0x7f => key == Key::F16,  // VK_F16
        0x80 => key == Key::F17,  // VK_F17
        0x81 => key == Key::F18,  // VK_F18
        0x82 => key == Key::F19,  // VK_F19
        0x83 => key == Key::F20,  // VK_F20
        0x84 => key == Key::F21,  // VK_F21
        0x85 => key == Key::F22,  // VK_F22
        0x86 => key == Key::F23,  // VK_F23
        0x87 => key == Key::F24,  // VK_F24
        0x88 => key == Key::NavigationView,  // VK_NAVIGATION_VIEW
        0x89 => key == Key::NavigationMenu,  // VK_NAVIGATION_MENU
        0x8a => key == Key::NavigationUp,  // VK_NAVIGATION_UP
        0x8b => key == Key::NavigationDown,  // VK_NAVIGATION_DOWN
        0x8c => key == Key::NavigationLeft,  // VK_NAVIGATION_LEFT
        0x8d => key == Key::NavigationRight,  // VK_NAVIGATION_RIGHT
        0x8e => key == Key::NavigationAccept,  // VK_NAVIGATION_ACCEPT
        0x8f => key == Key::NavigationCancel,  // VK_NAVIGATION_CANCEL
        0x90 => key == Key::Numlock,  // VK_NUMLOCK
        0x91 => key == Key::Scroll,  // VK_SCROLL
        0x92 => key == Key::OEMFJJisho || key == Key::OEMNECEqual,  // VK_OEM_FJ_JISHO, VK_OEM_NEC_EQUAL
        0x93 => key == Key::OEMFJMasshou,  // VK_OEM_FJ_MASSHOU
        0x94 => key == Key::OEMFJTouroku,  // VK_OEM_FJ_TOUROKU
        0x95 => key == Key::OEMFJLoya,  // VK_OEM_FJ_LOYA
        0x96 => key == Key::OEMFJRoya,  // VK_OEM_FJ_ROYA
        0xa0 => key == Key::LShift,  // VK_LSHIFT
        0xa1 => key == Key::RShift,  // VK_RSHIFT
        0xa2 => key == Key::LControl,  // VK_LCONTROL
        0xa3 => key == Key::RControl,  // VK_RCONTROL
        0xa4 => key == Key::LMenu,  // VK_LMENU
        0xa5 => key == Key::RMenu,  // VK_RMENU
        0xa6 => key == Key::BrowserBack,  // VK_BROWSER_BACK
        0xa7 => key == Key::BrowserForward,  // VK_BROWSER_FORWARD
        0xa8 => key == Key::BrowserRefresh,  // VK_BROWSER_REFRESH
        0xa9 => key == Key::BrowserStop,  // VK_BROWSER_STOP
        0xaa => key == Key::BrowserSearch,  // VK_BROWSER_SEARCH
        0xab => key == Key::BrowserFavorites,  // VK_BROWSER_FAVORITES
        0xac => key == Key::BrowserHome,  // VK_BROWSER_HOME
        0xad => key == Key::VolumeMute,  // VK_VOLUME_MUTE
        0xae => key == Key::VolumeDown,  // VK_VOLUME_DOWN
        0xaf => key == Key::VolumeUp,  // VK_VOLUME_UP
        0xb0 => key == Key::MediaNextTrack,  // VK_MEDIA_NEXT_TRACK
        0xb1 => key == Key::MediaPrevTrack,  // VK_MEDIA_PREV_TRACK
        0xb2 => key == Key::MediaStop,  // VK_MEDIA_STOP
        0xb3 => key == Key::MediaPlayPause,  // VK_MEDIA_PLAY_PAUSE
        0xb4 => key == Key::LaunchMail,  // VK_LAUNCH_MAIL
        0xb5 => key == Key::LaunchMediaSelect,  // VK_LAUNCH_MEDIA_SELECT
        0xb6 => key == Key::LaunchApp1,  // VK_LAUNCH_APP1
        0xb7 => key == Key::LaunchApp2,  // VK_LAUNCH_APP2
        0xba => key == Key::OEM1,  // VK_OEM_1
        0xbb => key == Key::OEMPlus,  // VK_OEM_PLUS
        0xbc => key == Key::OEMComma,  // VK_OEM_COMMA
        0xbd => key == Key::OEMMinus,  // VK_OEM_MINUS
        0xbe => key == Key::OEMPeriod,  // VK_OEM_PERIOD
        0xbf => key == Key::OEM2,  // VK_OEM_2
        0xc0 => key == Key::OEM3,  // VK_OEM_3
        0xc1 => key == Key::AbntC1,  // VK_ABNT_C1
        0xc2 => key == Key::AbntC2,  // VK_ABNT_C2
        0xc3 => key == Key::GamepadA,  // VK_GAMEPAD_A
        0xc4 => key == Key::GamepadB,  // VK_GAMEPAD_B
        0xc5 => key == Key::GamepadX,  // VK_GAMEPAD_X
        0xc6 => key == Key::GamepadY,  // VK_GAMEPAD_Y
        0xc7 => key == Key::GamepadRightShoulder,  // VK_GAMEPAD_RIGHT_SHOULDER
        0xc8 => key == Key::GamepadLeftShoulder,  // VK_GAMEPAD_LEFT_SHOULDER
        0xc9 => key == Key::GamepadLeftTrigger,  // VK_GAMEPAD_LEFT_TRIGGER
        0xca => key == Key::GamepadRightTrigger,  // VK_GAMEPAD_RIGHT_TRIGGER
        0xcb => key == Key::GamepadDPadUp,  // VK_GAMEPAD_DPAD_UP
        0xcc => key == Key::GamepadDPadDown,  // VK_GAMEPAD_DPAD_DOWN
        0xcd => key == Key::GamepadDPadLeft,  // VK_GAMEPAD_DPAD_LEFT
        0xce => key == Key::GamepadDPadRight,  // VK_GAMEPAD_DPAD_RIGHT
        0xcf => key == Key::GamepadMenu,  // VK_GAMEPAD_MENU
        0xd0 => key == Key::GamepadView,  // VK_GAMEPAD_VIEW
        0xd1 => key == Key::GamepadLeftThumbstickButton,  // VK_GAMEPAD_LEFT_THUMBSTICK_BUTTON
        0xd2 => key == Key::GamepadRightThumbstickButton,  // VK_GAMEPAD_RIGHT_THUMBSTICK_BUTTON
        0xd3 => key == Key::GamepadLeftThumbstickUp,  // VK_GAMEPAD_LEFT_THUMBSTICK_UP
        0xd4 => key == Key::GamepadLeftThumbstickDown,  // VK_GAMEPAD_LEFT_THUMBSTICK_DOWN
        0xd5 => key == Key::GamepadLeftThumbstickRight,  // VK_GAMEPAD_LEFT_THUMBSTICK_RIGHT
        0xd6 => key == Key::GamepadLeftThumbstickLeft,  // VK_GAMEPAD_LEFT_THUMBSTICK_LEFT
        0xd7 => key == Key::GamepadRightThumbstickUp,  // VK_GAMEPAD_RIGHT_THUMBSTICK_UP
        0xd8 => key == Key::GamepadRightThumbstickDown,  // VK_GAMEPAD_RIGHT_THUMBSTICK_DOWN
        0xd9 => key == Key::GamepadRightThumbstickRight,  // VK_GAMEPAD_RIGHT_THUMBSTICK_RIGHT
        0xda => key == Key::GamepadRightThumbstickLeft,  // VK_GAMEPAD_RIGHT_THUMBSTICK_LEFT
        0xdb => key == Key::OEM4,  // VK_OEM_4
        0xdc => key == Key::OEM5,  // VK_OEM_5
        0xdd => key == Key::OEM6,  // VK_OEM_6
        0xde => key == Key::OEM7,  // VK_OEM_7
        0xdf => key == Key::OEM8,  // VK_OEM_8
        0xe1 => key == Key::OEMAx,  // VK_OEM_AX
        0xe2 => key == Key::OEM102,  // VK_OEM_102
        0xe3 => key == Key::IcoHelp,  // VK_ICO_HELP
        0xe4 => key == Key::Ico00,  // VK_ICO_00
        0xe5 => key == Key::Processkey,  // VK_PROCESSKEY
        0xe6 => key == Key::IcoClear,  // VK_ICO_CLEAR
        0xe7 => key == Key::Packet,  // VK_PACKET
        0xe9 => key == Key::OEMReset,  // VK_OEM_RESET
        0xea => key == Key::OEMJump,  // VK_OEM_JUMP
        0xeb => key == Key::OEMPA1,  // VK_OEM_PA1
        0xec => key == Key::OEMPA2,  // VK_OEM_PA2
        0xed => key == Key::OEMPA3,  // VK_OEM_PA3
        0xee => key == Key::OEMWsctrl,  // VK_OEM_WSCTRL
        0xef => key == Key::OEMCusel,  // VK_OEM_CUSEL
        0xf0 => key == Key::DBEAlphanumeric || key == Key::OEMAttn,  // VK_DBE_ALPHANUMERIC, VK_OEM_ATTN
        0xf1 => key == Key::DBEKatakana || key == Key::OEMFinish,  // VK_DBE_KATAKANA, VK_OEM_FINISH
        0xf2 => key == Key::DBEHiragana || key == Key::OEMCopy,  // VK_DBE_HIRAGANA, VK_OEM_COPY
        0xf3 => key == Key::DBESBCSChar || key == Key::OEMAuto,  // VK_DBE_SBCSCHAR, VK_OEM_AUTO
        0xf4 => key == Key::DBESChar || key == Key::OEMEnlw,  // VK_DBE_DBCSCHAR, VK_OEM_ENLW
        0xf5 => key == Key::DBERoman || key == Key::OEMBacktab,  // VK_DBE_ROMAN, VK_OEM_BACKTAB
        0xf6 => key == Key::Attn || key == Key::DBENoRoman,  // VK_ATTN, VK_DBE_NOROMAN
        0xf7 => key == Key::Crsel || key == Key::DBEEnterWordRegisterMode,  // VK_CRSEL, VK_DBE_ENTERWORDREGISTERMODE
        0xf8 => key == Key::DBEEnterIMEConfigMode || key == Key::Exsel,  // VK_DBE_ENTERIMECONFIGMODE, VK_EXSEL
        0xf9 => key == Key::DBEFlushString || key == Key::Ereof,  // VK_DBE_FLUSHSTRING, VK_EREOF
        0xfa => key == Key::DBECodeinput || key == Key::Play,  // VK_DBE_CODEINPUT, VK_PLAY
        0xfb => key == Key::DBENoCodepoint || key == Key::Zoom,  // VK_DBE_NOCODEINPUT, VK_ZOOM
        0xfc => key == Key::DBEDetermineString || key == Key::NoName,  // VK_DBE_DETERMINESTRING, VK_NONAME
        0xfd => key == Key::DBEEnterDLGConversionMode || key == Key::PA1,  // VK_DBE_ENTERDLGCONVERSIONMODE, VK_PA1
        0xfe => key == Key::OEMClear,  // VK_OEM_CLEAR
        0xff => key == Key::NoneKey,  // VK__none_
        _ => false,
    }
}

/// Each named key is sent as a virtual-key code, and that code is the one
/// of its name: keys that name different codes, such as `Delete` and
/// `Insert`, are sent as different codes
#[verifier::rlimit(50)]
pub proof fn lemma_virtual_key_names(key: Key, code: u16)
    ensures
        !(key is Unicode) && !(key is Other) ==> spec_virtual_key(key) is Ok,
        !(key is Unicode) && !(key is Other) && spec_virtual_key(key) == Ok::<u16, &'static str>(code)
            ==> vk_names_key(code, key),
{
    match key {
        Key::Num0 => {},
        Key::Num1 => {},
        Key::Num2 => {},
        Key::Num3 => {},
        Key::Num4 => {},
        Key::Num5 => {},
        Key::Num6 => {},
        Key::Num7 => {},
        Key::Num8 => {},
        Key::Num9 => {},
        Key::A => {},
        Key::B => {},
        Key::C => {},
        Key::D => {},
        Key::E => {},
        Key::F => {},
        Key::G => {},
        Key::H => {},
        Key::I => {},
        Key::J => {},
        Key::K => {},
        Key::L => {},
        Key::M => {},
        Key::N => {},
        Key::O => {},
        Key::P => {},
        Key::Q => {},
        Key::R => {},
        Key::S => {},
        Key::T => {},
        Key::U => {},
        Key::V => {},
        Key::W => {},
        Key::X => {},
        Key::Y => {},
        Key::Z => {},
        Key::AbntC1 => {},
        Key::AbntC2 => {},
        Key::Accept => {},
        Key::Add => {},
        Key::Alt => {},
        Key::Apps => {},
        Key::Attn => {},
        Key::Backspace => {},
        Key::BrowserBack => {},
        Key::BrowserFavorites => {},
        Key::BrowserForward => {},
        Key::BrowserHome => {},
        Key::BrowserRefresh => {},
        Key::BrowserSearch => {},
        Key::BrowserStop => {},
        Key::Cancel => {},
        Key::CapsLock => {},
        Key::Clear => {},
        Key::Command => {},
        Key::Control => {},
        Key::Convert => {},
        Key::Crsel => {},
        Key::DBEAlphanumeric => {},
        Key::DBECodeinput => {},
        Key::DBEDetermineString => {},
        Key::DBEEnterDLGConversionMode => {},
        Key::DBEEnterIMEConfigMode => {},
        Key::DBEEnterWordRegisterMode => {},
        Key::DBEFlushString => {},
        Key::DBEHiragana => {},
        Key::DBEKatakana => {},
        Key::DBENoCodepoint => {},
        Key::DBENoRoman => {},
        Key::DBERoman => {},
        Key::DBESBCSChar => {},
        Key::DBESChar => {},
        Key::Decimal => {},
        Key::Delete => {},
        Key::Divide => {},
        Key::DownArrow => {},
        Key::End => {},
        Key::Ereof => {},
        Key::Escape => {},
        Key::Execute => {},
        Key::Exsel => {},
        Key::F1 => {},
        Key::F2 => {},
        Key::F3 => {},
        Key::F4 => {},
        Key::F5 => {},
        Key::F6 => {},
        Key::F7 => {},
        Key::F8 => {},
        Key::F9 => {},
        Key::F10 => {},
        Key::F11 => {},
        Key::F12 => {},
        Key::F13 => {},
        Key::F14 => {},
        Key::F15 => {},
        Key::F16 => {},
        Key::F17 => {},
        Key::F18 => {},
        Key::F19 => {},
        Key::F20 => {},
        Key::F21 => {},
        Key::F22 => {},
        Key::F23 => {},
        Key::F24 => {},
        Key::Final => {},
        Key::GamepadA => {},
        Key::GamepadB => {},
        Key::GamepadDPadDown => {},
        Key::GamepadDPadLeft => {},
        Key::GamepadDPadRight => {},
        Key::GamepadDPadUp => {},
        Key::GamepadLeftShoulder => {},
        Key::GamepadLeftThumbstickButton => {},
        Key::GamepadLeftThumbstickDown => {},
        Key::GamepadLeftThumbstickLeft => {},
        Key::GamepadLeftThumbstickRight => {},
        Key::GamepadLeftThumbstickUp => {},
        Key::GamepadLeftTrigger => {},
        Key::GamepadMenu => {},
        Key::GamepadRightShoulder => {},
        Key::GamepadRightThumbstickButton => {},
        Key::GamepadRightThumbstickDown => {},
        Key::GamepadRightThumbstickLeft => {},
        Key::GamepadRightThumbstickRight => {},
        Key::GamepadRightThumbstickUp => {},
        Key::GamepadRightTrigger => {},
        Key::GamepadView => {},
        Key::GamepadX => {},
        Key::GamepadY => {},
        Key::Hangeul => {},
        Key::Hangul => {},
        Key::Hanja => {},
        Key::Help => {},
        Key::Home => {},
        Key::Ico00 => {},
        Key::IcoClear => {},
        Key::IcoHelp => {},
        Key::IMEOff => {},
        Key::IMEOn => {},
        Key::Insert => {},
        Key::Junja => {},
        Key::Kana => {},
        Key::Kanji => {},
        Key::LaunchApp1 => {},
        Key::LaunchApp2 => {},
        Key::LaunchMail => {},
        Key::LaunchMediaSelect => {},
        Key::LButton => {},
        Key::LControl => {},
        Key::LeftArrow => {},
        Key::LMenu => {},
        Key::LShift => {},
        Key::LWin => {},
        Key::MButton => {},
        Key::MediaNextTrack => {},
        Key::MediaPlayPause => {},
        Key::MediaPrevTrack => {},
        Key::MediaStop => {},
        Key::Meta => {},
        Key::ModeChange => {},
        Key::Multiply => {},
        Key::NavigationAccept => {},
        Key::NavigationCancel => {},
        Key::NavigationDown => {},
        Key::NavigationLeft => {},
        Key::NavigationMenu => {},
        Key::NavigationRight => {},
        Key::NavigationUp => {},
        Key::NavigationView => {},
        Key::NoName => {},
        Key::NonConvert => {},
        Key::NoneKey => {},
        Key::Numlock => {},
        Key::Numpad0 => {},
        Key::Numpad1 => {},
        Key::Numpad2 => {},
        Key::Numpad3 => {},
        Key::Numpad4 => {},
        Key::Numpad5 => {},
        Key::Numpad6 => {},
        Key::Numpad7 => {},
        Key::Numpad8 => {},
        Key::Numpad9 => {},
        Key::OEM1 => {},
        Key::OEM102 => {},
        Key::OEM2 => {},
        Key::OEM3 => {},
        Key::OEM4 => {},
        Key::OEM5 => {},
        Key::OEM6 => {},
        Key::OEM7 => {},
        Key::OEM8 => {},
        Key::OEMAttn => {},
        Key::OEMAuto => {},
        Key::OEMAx => {},
        Key::OEMBacktab => {},
        Key::OEMClear => {},
        Key::OEMComma => {},
        Key::OEMCopy => {},
        Key::OEMCusel => {},
        Key::OEMEnlw => {},
        Key::OEMFinish => {},
        Key::OEMFJJisho => {},
        Key::OEMFJLoya => {},
        Key::OEMFJMasshou => {},
        Key::OEMFJRoya => {},
        Key::OEMFJTouroku => {},
        Key::OEMJump => {},
        Key::OEMMinus => {},
        Key::OEMNECEqual => {},
        Key::OEMPA1 => {},
        Key::OEMPA2 => {},
        Key::OEMPA3 => {},
        Key::OEMPeriod => {},
        Key::OEMPlus => {},
        Key::OEMReset => {},
        Key::OEMWsctrl => {},
        Key::Option => {},
        Key::PA1 => {},
        Key::Packet => {},
        Key::PageDown => {},
        Key::PageUp => {},
        Key::Pause => {},
        Key::Play => {},
        Key::Print => {},
        Key::PrintScr => {},
        Key::Processkey => {},
        Key::RButton => {},
        Key::RControl => {},
        Key::Return => {},
        Key::RightArrow => {},
        Key::RMenu => {},
        Key::RShift => {},
        Key::RWin => {},
        Key::Scroll => {},
        Key::Select => {},
        Key::Separator => {},
        Key::Shift => {},
        Key::Sleep => {},
        Key::Snapshot => {},
        Key::Space => {},
        Key::Subtract => {},
        Key::Super => {},
        Key::Tab => {},
        Key::UpArrow => {},
        Key::VolumeDown => {},
        Key::VolumeMute => {},
        Key::VolumeUp => {},
        Key::Windows => {},
        Key::XButton1 => {},
        Key::XButton2 => {},
        Key::Zoom => {},
        Key::Unicode(_) => {},
        Key::Other(_) => {},
    }
}

/// Converts a key to the virtual-key code that it is sent as
pub fn virtual_key(key: Key) -> (r: Result<u16, &'static str>)
    ensures
        r == spec_virtual_key(key),
{
    let vk: u16 = match key {
        Key::Num0 => 0x30,
        Key::Num1 => 0x31,
        Key::Num2 => 0x32,
        Key::Num3 => 0x33,
        Key::Num4 => 0x34,
        Key::Num5 => 0x35,
        Key::Num6 => 0x36,
        Key::Num7 => 0x37,
        Key::Num8 => 0x38,
        Key::Num9 => 0x39,
        Key::A => 0x41,
        Key::B => 0x42,
        Key::C => 0x43,
        Key::D => 0x44,
        Key::E => 0x45,
        Key::F => 0x46,
        Key::G => 0x47,
        Key::H => 0x48,
        Key::I => 0x49,
        Key::J => 0x4a,
        Key::K => 0x4b,
        Key::L => 0x4c,
        Key::M => 0x4d,
        Key::N => 0x4e,
        Key::O => 0x4f,
        Key::P => 0x50,
        Key::Q => 0x51,
        Key::R => 0x52,
        Key::S => 0x53,
        Key::T => 0x54,
        Key::U => 0x55,
        Key::V => 0x56,
        Key::W => 0x57,
        Key::X => 0x58,
        Key::Y => 0x59,
        Key::Z => 0x5a,
        Key::AbntC1 => 0xc1,
        Key::AbntC2 => 0xc2,
        Key::Accept => 0x1e,
        Key::Add => 0x6b,
        Key::Alt | Key::Option => 0x12,
        Key::Apps => 0x5d,
        Key::Attn => 0xf6,
        Key::Backspace => 0x08,
        Key::BrowserBack => 0xa6,
        Key::BrowserFavorites => 0xab,
        Key::BrowserForward => 0xa7,
        Key::BrowserHome => 0xac,
        Key::BrowserRefresh => 0xa8,
        Key::BrowserSearch => 0xaa,
        Key::BrowserStop => 0xa9,
        Key::Cancel => 0x03,
        Key::CapsLock => 0x14,
        Key::Clear => 0x0c,
        Key::Control => 0x11,
        Key::Convert => 0x1c,
        Key::Crsel => 0xf7,
        Key::DBEAlphanumeric => 0xf0,
        Key::DBECodeinput => 0xfa,
        Key::DBEDetermineString => 0xfc,
        Key::DBEEnterDLGConversionMode => 0xfd,
        Key::DBEEnterIMEConfigMode => 0xf8,
        Key::DBEEnterWordRegisterMode => 0xf7,
        Key::DBEFlushString => 0xf9,
        Key::DBEHiragana => 0xf2,
        Key::DBEKatakana => 0xf1,
        Key::DBENoCodepoint => 0xfb,
        Key::DBENoRoman => 0xf6,
        Key::DBERoman => 0xf5,
        Key::DBESBCSChar => 0xf3,
        Key::DBESChar => 0xf4,
        Key::Decimal => 0x6e,
        Key::Delete => 0x2e,
        Key::Divide => 0x6f,
        Key::DownArrow => 0x28,
        Key::End => 0x23,
        Key::Ereof => 0xf9,
        Key::Escape => 0x1b,
        Key::Execute => 0x2b,
        Key::Exsel => 0xf8,
        Key::F1 => 0x70,
        Key::F2 => 0x71,
        Key::F3 => 0x72,
        Key::F4 => 0x73,
        Key::F5 => 0x74,
        Key::F6 => 0x75,
        Key::F7 => 0x76,
        Key::F8 => 0x77,
        Key::F9 => 0x78,
        Key::F10 => 0x79,
        Key::F11 => 0x7a,
        Key::F12 => 0x7b,
        Key::F13 => 0x7c,
        Key::F14 => 0x7d,
        Key::F15 => 0x7e,
        Key::F16 => 0x7f,
        Key::F17 => 0x80,
        Key::F18 => 0x81,
        Key::F19 => 0x82,
        Key::F20 => 0x83,
        Key::F21 => 0x84,
        Key::F22 => 0x85,
        Key::F23 => 0x86,
        Key::F24 => 0x87,
        Key::Final => 0x18,
        Key::GamepadA => 0xc3,
        Key::GamepadB => 0xc4,
        Key::GamepadDPadDown => 0xcc,
        Key::GamepadDPadLeft => 0xcd,
        Key::GamepadDPadRight => 0xce,
        Key::GamepadDPadUp => 0xcb,
        Key::GamepadLeftShoulder => 0xc8,
        Key::GamepadLeftThumbstickButton => 0xd1,
        Key::GamepadLeftThumbstickDown => 0xd4,
        Key::GamepadLeftThumbstickLeft => 0xd6,
        Key::GamepadLeftThumbstickRight => 0xd5,
        Key::GamepadLeftThumbstickUp => 0xd3,
        Key::GamepadLeftTrigger => 0xc9,
        Key::GamepadMenu => 0xcf,
        Key::GamepadRightShoulder => 0xc7,
        Key::GamepadRightThumbstickButton => 0xd2,
        Key::GamepadRightThumbstickDown => 0xd8,
        Key::GamepadRightThumbstickLeft => 0xda,
        Key::GamepadRightThumbstickRight => 0xd9,
        Key::GamepadRightThumbstickUp => 0xd7,
        Key::GamepadRightTrigger => 0xca,
        Key::GamepadView => 0xd0,
        Key::GamepadX => 0xc5,
        Key::GamepadY => 0xc6,
        Key::Hangeul => 0x15,
        Key::Hangul => 0x15,
        Key::Hanja => 0x19,
        Key::Help => 0x2f,
        Key::Home => 0x24,
        Key::Ico00 => 0xe4,
        Key::IcoClear => 0xe6,
        Key::IcoHelp => 0xe3,
        Key::IMEOff => 0x1a,
        Key::IMEOn => 0x16,
        Key::Insert => 0x2d,
        Key::Junja => 0x17,
        Key::Kana => 0x15,
        Key::Kanji => 0x19,
        Key::LaunchApp1 => 0xb6,
        Key::LaunchApp2 => 0xb7,
        Key::LaunchMail => 0xb4,
        Key::LaunchMediaSelect => 0xb5,
        Key::LButton => 0x01,
        Key::LControl => 0xa2,
        Key::LeftArrow => 0x25,
        Key::LMenu => 0xa4,
        Key::LShift => 0xa0,
        Key::MButton => 0x04,
        Key::MediaNextTrack => 0xb0,
        Key::MediaPlayPause => 0xb3,
        Key::MediaPrevTrack => 0xb1,
        Key::MediaStop => 0xb2,
        Key::ModeChange => 0x1f,
        Key::Multiply => 0x6a,
        Key::NavigationAccept => 0x8e,
        Key::NavigationCancel => 0x8f,
        Key::NavigationDown => 0x8b,
        Key::NavigationLeft => 0x8c,
        Key::NavigationMenu => 0x89,
        Key::NavigationRight => 0x8d,
        Key::NavigationUp => 0x8a,
        Key::NavigationView => 0x88,
        Key::NoName => 0xfc,
        Key::NonConvert => 0x1d,
        Key::NoneKey => 0xff,
        Key::Numlock => 0x90,
        Key::Numpad0 => 0x60,
        Key::Numpad1 => 0x61,
        Key::Numpad2 => 0x62,
        Key::Numpad3 => 0x63,
        Key::Numpad4 => 0x64,
        Key::Numpad5 => 0x65,
        Key::Numpad6 => 0x66,
        Key::Numpad7 => 0x67,
        Key::Numpad8 => 0x68,
        Key::Numpad9 => 0x69,
        Key::OEM1 => 0xba,
        Key::OEM102 => 0xe2,
        Key::OEM2 => 0xbf,
        Key::OEM3 => 0xc0,
        Key::OEM4 => 0xdb,
        Key::OEM5 => 0xdc,
        Key::OEM6 => 0xdd,
        Key::OEM7 => 0xde,
        Key::OEM8 => 0xdf,
        Key::OEMAttn => 0xf0,
        Key::OEMAuto => 0xf3,
        Key::OEMAx => 0xe1,
        Key::OEMBacktab => 0xf5,
        Key::OEMClear => 0xfe,
        Key::OEMComma => 0xbc,
        Key::OEMCopy => 0xf2,
        Key::OEMCusel => 0xef,
        Key::OEMEnlw => 0xf4,
        Key::OEMFinish => 0xf1,
        Key::OEMFJJisho => 0x92,
        Key::OEMFJLoya => 0x95,
        Key::OEMFJMasshou => 0x93,
        Key::OEMFJRoya => 0x96,
        Key::OEMFJTouroku => 0x94,
        Key::OEMJump => 0xea,
        Key::OEMMinus => 0xbd,
        Key::OEMNECEqual => 0x92,
        Key::OEMPA1 => 0xeb,
        Key::OEMPA2 => 0xec,
        Key::OEMPA3 => 0xed,
        Key::OEMPeriod => 0xbe,
        Key::OEMPlus => 0xbb,
        Key::OEMReset => 0xe9,
        Key::OEMWsctrl => 0xee,
        Key::PA1 => 0xfd,
        Key::Packet => 0xe7,
        Key::PageDown => 0x22,
        Key::PageUp => 0x21,
        Key::Pause => 0x13,
        Key::Play => 0xfa,
        Key::Print => 0x2a,
        Key::PrintScr | Key::Snapshot => 0x2c,
        Key::Processkey => 0xe5,
        Key::RButton => 0x02,
        Key::RControl => 0xa3,
        Key::Return => 0x0d,
        Key::RightArrow => 0x27,
        Key::RMenu => 0xa5,
        Key::RShift => 0xa1,
        Key::RWin => 0x5c,
        Key::Scroll => 0x91,
        Key::Select => 0x29,
        Key::Separator => 0x6c,
        Key::Shift => 0x10,
        Key::Sleep => 0x5f,
        Key::Space => 0x20,
        Key::Subtract => 0x6d,
        Key::Tab => 0x09,
        Key::UpArrow => 0x26,
        Key::VolumeDown => 0xae,
        Key::VolumeMute => 0xad,
        Key::VolumeUp => 0xaf,
        Key::XButton1 => 0x05,
        Key::XButton2 => 0x06,
        Key::Zoom => 0xfb,
        Key::Super | Key::Command | Key::Windows | Key::Meta | Key::LWin => 0x5b,
        Key::Unicode(_) => {
            return Err("Unicode must be entered via scancodes");
        },
        Key::Other(v) => {
            if v > 0xFFFF {
                return Err("virtual keycodes on Windows have to fit into u16");
            }
            v as u16
        },
    };
    Ok(vk)
}

} // verus!
