//! Keysym values of the X Window System (`keysymdef.h` and `XF86keysym.h`).

use vstd::prelude::*;

verus! {

#[allow(non_upper_case_globals)]
pub const XK_BackSpace: u32 = 0xff08;
#[allow(non_upper_case_globals)]
pub const XK_Tab: u32 = 0xff09;
#[allow(non_upper_case_globals)]
pub const XK_Linefeed: u32 = 0xff0a;
#[allow(non_upper_case_globals)]
pub const XK_Clear: u32 = 0xff0b;
#[allow(non_upper_case_globals)]
pub const XK_Return: u32 = 0xff0d;
#[allow(non_upper_case_globals)]
pub const XK_Pause: u32 = 0xff13;
#[allow(non_upper_case_globals)]
pub const XK_Scroll_Lock: u32 = 0xff14;
#[allow(non_upper_case_globals)]
pub const XK_Sys_Req: u32 = 0xff15;
#[allow(non_upper_case_globals)]
pub const XK_Escape: u32 = 0xff1b;
#[allow(non_upper_case_globals)]
pub const XK_Kanji: u32 = 0xff21;
#[allow(non_upper_case_globals)]
pub const XK_Hangul: u32 = 0xff31;
#[allow(non_upper_case_globals)]
pub const XK_Hangul_Hanja: u32 = 0xff34;
#[allow(non_upper_case_globals)]
pub const XK_Home: u32 = 0xff50;
#[allow(non_upper_case_globals)]
pub const XK_Left: u32 = 0xff51;
#[allow(non_upper_case_globals)]
pub const XK_Up: u32 = 0xff52;
#[allow(non_upper_case_globals)]
pub const XK_Right: u32 = 0xff53;
#[allow(non_upper_case_globals)]
pub const XK_Down: u32 = 0xff54;
#[allow(non_upper_case_globals)]
pub const XK_Page_Up: u32 = 0xff55;
#[allow(non_upper_case_globals)]
pub const XK_Page_Down: u32 = 0xff56;
#[allow(non_upper_case_globals)]
pub const XK_End: u32 = 0xff57;
#[allow(non_upper_case_globals)]
pub const XK_Begin: u32 = 0xff58;
#[allow(non_upper_case_globals)]
pub const XK_Select: u32 = 0xff60;
#[allow(non_upper_case_globals)]
pub const XK_Print: u32 = 0xff61;
#[allow(non_upper_case_globals)]
pub const XK_Execute: u32 = 0xff62;
#[allow(non_upper_case_globals)]
pub const XK_Insert: u32 = 0xff63;
#[allow(non_upper_case_globals)]
pub const XK_Undo: u32 = 0xff65;
#[allow(non_upper_case_globals)]
pub const XK_Redo: u32 = 0xff66;
#[allow(non_upper_case_globals)]
pub const XK_Menu: u32 = 0xff67;
#[allow(non_upper_case_globals)]
pub const XK_Find: u32 = 0xff68;
#[allow(non_upper_case_globals)]
pub const XK_Cancel: u32 = 0xff69;
#[allow(non_upper_case_globals)]
pub const XK_Help: u32 = 0xff6a;
#[allow(non_upper_case_globals)]
pub const XK_Break: u32 = 0xff6b;
#[allow(non_upper_case_globals)]
pub const XK_Mode_switch: u32 = 0xff7e;
#[allow(non_upper_case_globals)]
pub const XK_script_switch: u32 = 0xff7e;
#[allow(non_upper_case_globals)]
pub const XK_Num_Lock: u32 = 0xff7f;
#[allow(non_upper_case_globals)]
pub const XK_F1: u32 = 0xffbe;
#[allow(non_upper_case_globals)]
pub const XK_F2: u32 = 0xffbf;
#[allow(non_upper_case_globals)]
pub const XK_F3: u32 = 0xffc0;
#[allow(non_upper_case_globals)]
pub const XK_F4: u32 = 0xffc1;
#[allow(non_upper_case_globals)]
pub const XK_F5: u32 = 0xffc2;
#[allow(non_upper_case_globals)]
pub const XK_F6: u32 = 0xffc3;
#[allow(non_upper_case_globals)]
pub const XK_F7: u32 = 0xffc4;
#[allow(non_upper_case_globals)]
pub const XK_F8: u32 = 0xffc5;
#[allow(non_upper_case_globals)]
pub const XK_F9: u32 = 0xffc6;
#[allow(non_upper_case_globals)]
pub const XK_F10: u32 = 0xffc7;
#[allow(non_upper_case_globals)]
pub const XK_F11: u32 = 0xffc8;
#[allow(non_upper_case_globals)]
pub const XK_F12: u32 = 0xffc9;
#[allow(non_upper_case_globals)]
pub const XK_F13: u32 = 0xffca;
#[allow(non_upper_case_globals)]
pub const XK_F14: u32 = 0xffcb;
#[allow(non_upper_case_globals)]
pub const XK_F15: u32 = 0xffcc;
#[allow(non_upper_case_globals)]
pub const XK_F16: u32 = 0xffcd;
#[allow(non_upper_case_globals)]
pub const XK_F17: u32 = 0xffce;
#[allow(non_upper_case_globals)]
pub const XK_F18: u32 = 0xffcf;
#[allow(non_upper_case_globals)]
pub const XK_F19: u32 = 0xffd0;
#[allow(non_upper_case_globals)]
pub const XK_F20: u32 = 0xffd1;
#[allow(non_upper_case_globals)]
pub const XK_F21: u32 = 0xffd2;
#[allow(non_upper_case_globals)]
pub const XK_F22: u32 = 0xffd3;
#[allow(non_upper_case_globals)]
pub const XK_F23: u32 = 0xffd4;
#[allow(non_upper_case_globals)]
pub const XK_F24: u32 = 0xffd5;
#[allow(non_upper_case_globals)]
pub const XK_F25: u32 = 0xffd6;
#[allow(non_upper_case_globals)]
pub const XK_F26: u32 = 0xffd7;
#[allow(non_upper_case_globals)]
pub const XK_F27: u32 = 0xffd8;
#[allow(non_upper_case_globals)]
pub const XK_F28: u32 = 0xffd9;
#[allow(non_upper_case_globals)]
pub const XK_F29: u32 = 0xffda;
#[allow(non_upper_case_globals)]
pub const XK_F30: u32 = 0xffdb;
#[allow(non_upper_case_globals)]
pub const XK_F31: u32 = 0xffdc;
#[allow(non_upper_case_globals)]
pub const XK_F32: u32 = 0xffdd;
#[allow(non_upper_case_globals)]
pub const XK_F33: u32 = 0xffde;
#[allow(non_upper_case_globals)]
pub const XK_F34: u32 = 0xffdf;
#[allow(non_upper_case_globals)]
pub const XK_F35: u32 = 0xffe0;
#[allow(non_upper_case_globals)]
pub const XK_Shift_L: u32 = 0xffe1;
#[allow(non_upper_case_globals)]
pub const XK_Shift_R: u32 = 0xffe2;
#[allow(non_upper_case_globals)]
pub const XK_Control_L: u32 = 0xffe3;
#[allow(non_upper_case_globals)]
pub const XK_Control_R: u32 = 0xffe4;
#[allow(non_upper_case_globals)]
pub const XK_Caps_Lock: u32 = 0xffe5;
#[allow(non_upper_case_globals)]
pub const XK_Shift_Lock: u32 = 0xffe6;
#[allow(non_upper_case_globals)]
pub const XK_Alt_L: u32 = 0xffe9;
#[allow(non_upper_case_globals)]
pub const XK_Super_L: u32 = 0xffeb;
#[allow(non_upper_case_globals)]
pub const XK_Delete: u32 = 0xffff;
#[allow(non_upper_case_globals)]
pub const XK_space: u32 = 0x20;
#[allow(non_upper_case_globals)]
pub const XF86XK_AudioLowerVolume: u32 = 0x1008ff11;
#[allow(non_upper_case_globals)]
pub const XF86XK_AudioMute: u32 = 0x1008ff12;
#[allow(non_upper_case_globals)]
pub const XF86XK_AudioRaiseVolume: u32 = 0x1008ff13;
#[allow(non_upper_case_globals)]
pub const XF86XK_AudioPlay: u32 = 0x1008ff14;
#[allow(non_upper_case_globals)]
pub const XF86XK_AudioStop: u32 = 0x1008ff15;
#[allow(non_upper_case_globals)]
pub const XF86XK_AudioPrev: u32 = 0x1008ff16;
#[allow(non_upper_case_globals)]
pub const XF86XK_AudioNext: u32 = 0x1008ff17;
#[allow(non_upper_case_globals)]
pub const XF86XK_AudioMicMute: u32 = 0x1008ffb2;
#[allow(non_upper_case_globals)]
pub const XK_NoSymbol: u32 = 0x0;

} // verus!
