//! X11 key symbol values (see `X11/keysymdef.h` and `XF86keysym.h`) that the keymap reads.
#![allow(non_upper_case_globals)]

use vstd::prelude::*;

verus! {

pub const space: u32 = 0x20;
pub const _3270_EraseEOF: u32 = 0xfd06;
pub const _3270_Attn: u32 = 0xfd0e;
pub const _3270_Play: u32 = 0xfd16;
pub const _3270_ExSelect: u32 = 0xfd1b;
pub const _3270_CursorSelect: u32 = 0xfd1c;
pub const _3270_PrintScreen: u32 = 0xfd1d;
pub const _3270_Enter: u32 = 0xfd1e;
pub const ISO_Level3_Shift: u32 = 0xfe03;
pub const ISO_Level3_Latch: u32 = 0xfe04;
pub const ISO_Level3_Lock: u32 = 0xfe05;
pub const ISO_Next_Group: u32 = 0xfe08;
pub const ISO_Prev_Group: u32 = 0xfe0a;
pub const ISO_First_Group: u32 = 0xfe0c;
pub const ISO_Last_Group: u32 = 0xfe0e;
pub const ISO_Left_Tab: u32 = 0xfe20;
pub const ISO_Enter: u32 = 0xfe34;
pub const BackSpace: u32 = 0xff08;
pub const Tab: u32 = 0xff09;
pub const Clear: u32 = 0xff0b;
pub const Return: u32 = 0xff0d;
pub const Pause: u32 = 0xff13;
pub const Scroll_Lock: u32 = 0xff14;
pub const Sys_Req: u32 = 0xff15;
pub const Escape: u32 = 0xff1b;
pub const Multi_key: u32 = 0xff20;
pub const Kanji: u32 = 0xff21;
pub const Muhenkan: u32 = 0xff22;
pub const Henkan_Mode: u32 = 0xff23;
pub const Romaji: u32 = 0xff24;
pub const Hiragana: u32 = 0xff25;
pub const Hiragana_Katakana: u32 = 0xff27;
pub const Zenkaku: u32 = 0xff28;
pub const Hankaku: u32 = 0xff29;
pub const Zenkaku_Hankaku: u32 = 0xff2a;
pub const Kana_Lock: u32 = 0xff2d;
pub const Kana_Shift: u32 = 0xff2e;
pub const Eisu_Shift: u32 = 0xff2f;
pub const Eisu_toggle: u32 = 0xff30;
pub const Codeinput: u32 = 0xff37;
pub const SingleCandidate: u32 = 0xff3c;
pub const MultipleCandidate: u32 = 0xff3d;
pub const PreviousCandidate: u32 = 0xff3e;
pub const Home: u32 = 0xff50;
pub const Left: u32 = 0xff51;
pub const Up: u32 = 0xff52;
pub const Right: u32 = 0xff53;
pub const Down: u32 = 0xff54;
pub const Page_Up: u32 = 0xff55;
pub const Page_Down: u32 = 0xff56;
pub const End: u32 = 0xff57;
pub const Select: u32 = 0xff60;
pub const Print: u32 = 0xff61;
pub const Execute: u32 = 0xff62;
pub const Insert: u32 = 0xff63;
pub const Undo: u32 = 0xff65;
pub const Redo: u32 = 0xff66;
pub const Menu: u32 = 0xff67;
pub const Find: u32 = 0xff68;
pub const Cancel: u32 = 0xff69;
pub const Help: u32 = 0xff6a;
pub const Break: u32 = 0xff6b;
pub const Mode_switch: u32 = 0xff7e;
pub const Num_Lock: u32 = 0xff7f;
pub const KP_Space: u32 = 0xff80;
pub const KP_Tab: u32 = 0xff89;
pub const KP_Enter: u32 = 0xff8d;
pub const KP_F1: u32 = 0xff91;
pub const KP_F2: u32 = 0xff92;
pub const KP_F3: u32 = 0xff93;
pub const KP_F4: u32 = 0xff94;
pub const KP_Home: u32 = 0xff95;
pub const KP_Left: u32 = 0xff96;
pub const KP_Up: u32 = 0xff97;
pub const KP_Right: u32 = 0xff98;
pub const KP_Down: u32 = 0xff99;
pub const KP_Page_Up: u32 = 0xff9a;
pub const KP_Page_Down: u32 = 0xff9b;
pub const KP_End: u32 = 0xff9c;
pub const KP_Begin: u32 = 0xff9d;
pub const KP_Insert: u32 = 0xff9e;
pub const KP_Delete: u32 = 0xff9f;
pub const KP_Multiply: u32 = 0xffaa;
pub const KP_Add: u32 = 0xffab;
pub const KP_Separator: u32 = 0xffac;
pub const KP_Subtract: u32 = 0xffad;
pub const KP_Decimal: u32 = 0xffae;
pub const KP_Divide: u32 = 0xffaf;
pub const KP_0: u32 = 0xffb0;
pub const KP_1: u32 = 0xffb1;
pub const KP_2: u32 = 0xffb2;
pub const KP_3: u32 = 0xffb3;
pub const KP_4: u32 = 0xffb4;
pub const KP_5: u32 = 0xffb5;
pub const KP_6: u32 = 0xffb6;
pub const KP_7: u32 = 0xffb7;
pub const KP_8: u32 = 0xffb8;
pub const KP_9: u32 = 0xffb9;
pub const KP_Equal: u32 = 0xffbd;
pub const F1: u32 = 0xffbe;
pub const F2: u32 = 0xffbf;
pub const F3: u32 = 0xffc0;
pub const F4: u32 = 0xffc1;
pub const F5: u32 = 0xffc2;
pub const F6: u32 = 0xffc3;
pub const F7: u32 = 0xffc4;
pub const F8: u32 = 0xffc5;
pub const F9: u32 = 0xffc6;
pub const F10: u32 = 0xffc7;
pub const F11: u32 = 0xffc8;
pub const F12: u32 = 0xffc9;
pub const F13: u32 = 0xffca;
pub const F14: u32 = 0xffcb;
pub const F15: u32 = 0xffcc;
pub const F16: u32 = 0xffcd;
pub const F17: u32 = 0xffce;
pub const F18: u32 = 0xffcf;
pub const F19: u32 = 0xffd0;
pub const F20: u32 = 0xffd1;
pub const F21: u32 = 0xffd2;
pub const F22: u32 = 0xffd3;
pub const F23: u32 = 0xffd4;
pub const F24: u32 = 0xffd5;
pub const F25: u32 = 0xffd6;
pub const F26: u32 = 0xffd7;
pub const F27: u32 = 0xffd8;
pub const F28: u32 = 0xffd9;
pub const F29: u32 = 0xffda;
pub const F30: u32 = 0xffdb;
pub const F31: u32 = 0xffdc;
pub const F32: u32 = 0xffdd;
pub const F33: u32 = 0xffde;
pub const F34: u32 = 0xffdf;
pub const F35: u32 = 0xffe0;
pub const Shift_L: u32 = 0xffe1;
pub const Shift_R: u32 = 0xffe2;
pub const Control_L: u32 = 0xffe3;
pub const Control_R: u32 = 0xffe4;
pub const Caps_Lock: u32 = 0xffe5;
pub const Meta_L: u32 = 0xffe7;
pub const Meta_R: u32 = 0xffe8;
pub const Alt_L: u32 = 0xffe9;
pub const Alt_R: u32 = 0xffea;
pub const Super_L: u32 = 0xffeb;
pub const Super_R: u32 = 0xffec;
pub const Hyper_L: u32 = 0xffed;
pub const Hyper_R: u32 = 0xffee;
pub const Delete: u32 = 0xffff;
pub const SUN_Copy: u32 = 0x1005ff72;
pub const SUN_Open: u32 = 0x1005ff73;
pub const SUN_Paste: u32 = 0x1005ff74;
pub const SUN_Cut: u32 = 0x1005ff75;
pub const SUN_AudioLowerVolume: u32 = 0x1005ff77;
pub const SUN_AudioMute: u32 = 0x1005ff78;
pub const SUN_AudioRaiseVolume: u32 = 0x1005ff79;
pub const SUN_VideoLowerBrightness: u32 = 0x1005ff7b;
pub const SUN_VideoRaiseBrightness: u32 = 0x1005ff7c;
pub const XF86_Next_VMode: u32 = 0x1008fe22;
pub const XF86_MonBrightnessUp: u32 = 0x1008ff02;
pub const XF86_MonBrightnessDown: u32 = 0x1008ff03;
pub const XF86_Standby: u32 = 0x1008ff10;
pub const XF86_AudioLowerVolume: u32 = 0x1008ff11;
pub const XF86_AudioMute: u32 = 0x1008ff12;
pub const XF86_AudioRaiseVolume: u32 = 0x1008ff13;
pub const XF86_AudioPlay: u32 = 0x1008ff14;
pub const XF86_AudioStop: u32 = 0x1008ff15;
pub const XF86_AudioPrev: u32 = 0x1008ff16;
pub const XF86_AudioNext: u32 = 0x1008ff17;
pub const XF86_HomePage: u32 = 0x1008ff18;
pub const XF86_Mail: u32 = 0x1008ff19;
pub const XF86_Search: u32 = 0x1008ff1b;
pub const XF86_AudioRecord: u32 = 0x1008ff1c;
pub const XF86_Calculator: u32 = 0x1008ff1d;
pub const XF86_Calendar: u32 = 0x1008ff20;
pub const XF86_PowerDown: u32 = 0x1008ff21;
pub const XF86_Back: u32 = 0x1008ff26;
pub const XF86_Forward: u32 = 0x1008ff27;
pub const XF86_Refresh: u32 = 0x1008ff29;
pub const XF86_PowerOff: u32 = 0x1008ff2a;
pub const XF86_WakeUp: u32 = 0x1008ff2b;
pub const XF86_Eject: u32 = 0x1008ff2c;
pub const XF86_ScreenSaver: u32 = 0x1008ff2d;
pub const XF86_WWW: u32 = 0x1008ff2e;
pub const XF86_Sleep: u32 = 0x1008ff2f;
pub const XF86_Favorites: u32 = 0x1008ff30;
pub const XF86_AudioPause: u32 = 0x1008ff31;
pub const XF86_MyComputer: u32 = 0x1008ff33;
pub const XF86_AudioRewind: u32 = 0x1008ff3e;
pub const XF86_Calculater: u32 = 0x1008ff54;
pub const XF86_Close: u32 = 0x1008ff56;
pub const XF86_Copy: u32 = 0x1008ff57;
pub const XF86_Cut: u32 = 0x1008ff58;
pub const XF86_Excel: u32 = 0x1008ff5c;
pub const XF86_LogOff: u32 = 0x1008ff61;
pub const XF86_MySites: u32 = 0x1008ff67;
pub const XF86_New: u32 = 0x1008ff68;
pub const XF86_Open: u32 = 0x1008ff6b;
pub const XF86_Paste: u32 = 0x1008ff6d;
pub const XF86_Phone: u32 = 0x1008ff6e;
pub const XF86_Reply: u32 = 0x1008ff72;
pub const XF86_Reload: u32 = 0x1008ff73;
pub const XF86_Save: u32 = 0x1008ff77;
pub const XF86_Send: u32 = 0x1008ff7b;
pub const XF86_Spell: u32 = 0x1008ff7c;
pub const XF86_SplitScreen: u32 = 0x1008ff7d;
pub const XF86_Video: u32 = 0x1008ff87;
pub const XF86_Word: u32 = 0x1008ff89;
pub const XF86_ZoomIn: u32 = 0x1008ff8b;
pub const XF86_ZoomOut: u32 = 0x1008ff8c;
pub const XF86_WebCam: u32 = 0x1008ff8f;
pub const XF86_MailForward: u32 = 0x1008ff90;
pub const XF86_Music: u32 = 0x1008ff92;
pub const XF86_AudioForward: u32 = 0x1008ff97;
pub const XF86_AudioRandomPlay: u32 = 0x1008ff99;
pub const XF86_Subtitle: u32 = 0x1008ff9a;
pub const XF86_AudioCycleTrack: u32 = 0x1008ff9b;
pub const XF86_Suspend: u32 = 0x1008ffa7;
pub const XF86_Hibernate: u32 = 0x1008ffa8;

} // verus!
