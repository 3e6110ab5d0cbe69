//! Key symbol values, as the toolkit reports them with a key event.
//!
//! The names and numbers are those of the X11 key symbol table. A name that
//! would start with a digit has an underscore in front.
#![allow(non_upper_case_globals)]

use vstd::prelude::*;

verus! {

/// A key symbol value.
pub type Key = u32;

// Printable punctuation, which shares its value with the character's code.
pub const space: Key = 0x20;
pub const apostrophe: Key = 0x27;
pub const comma: Key = 0x2c;
pub const minus: Key = 0x2d;
pub const period: Key = 0x2e;
pub const slash: Key = 0x2f;
pub const semicolon: Key = 0x3b;
pub const equal: Key = 0x3d;
pub const bracketleft: Key = 0x5b;
pub const backslash: Key = 0x5c;
pub const bracketright: Key = 0x5d;

// Digits of the main block.
pub const _0: Key = 0x30;
pub const _1: Key = 0x31;
pub const _2: Key = 0x32;
pub const _3: Key = 0x33;
pub const _4: Key = 0x34;
pub const _5: Key = 0x35;
pub const _6: Key = 0x36;
pub const _7: Key = 0x37;
pub const _8: Key = 0x38;
pub const _9: Key = 0x39;

// Capital letters.
pub const A: Key = 0x41;
pub const B: Key = 0x42;
pub const C: Key = 0x43;
pub const D: Key = 0x44;
pub const E: Key = 0x45;
pub const F: Key = 0x46;
pub const G: Key = 0x47;
pub const H: Key = 0x48;
pub const I: Key = 0x49;
pub const J: Key = 0x4a;
pub const K: Key = 0x4b;
pub const L: Key = 0x4c;
pub const M: Key = 0x4d;
pub const N: Key = 0x4e;
pub const O: Key = 0x4f;
pub const P: Key = 0x50;
pub const Q: Key = 0x51;
pub const R: Key = 0x52;
pub const S: Key = 0x53;
pub const T: Key = 0x54;
pub const U: Key = 0x55;
pub const V: Key = 0x56;
pub const W: Key = 0x57;
pub const X: Key = 0x58;
pub const Y: Key = 0x59;
pub const Z: Key = 0x5a;

// Small letters.
pub const a: Key = 0x61;
pub const b: Key = 0x62;
pub const c: Key = 0x63;
pub const d: Key = 0x64;
pub const e: Key = 0x65;
pub const f: Key = 0x66;
pub const g: Key = 0x67;
pub const h: Key = 0x68;
pub const i: Key = 0x69;
pub const j: Key = 0x6a;
pub const k: Key = 0x6b;
pub const l: Key = 0x6c;
pub const m: Key = 0x6d;
pub const n: Key = 0x6e;
pub const o: Key = 0x6f;
pub const p: Key = 0x70;
pub const q: Key = 0x71;
pub const r: Key = 0x72;
pub const s: Key = 0x73;
pub const t: Key = 0x74;
pub const u: Key = 0x75;
pub const v: Key = 0x76;
pub const w: Key = 0x77;
pub const x: Key = 0x78;
pub const y: Key = 0x79;
pub const z: Key = 0x7a;

// Dead keys.
pub const dead_grave: Key = 0xfe50;

// Editing and control keys.
pub const BackSpace: Key = 0xff08;
pub const Tab: Key = 0xff09;
pub const Return: Key = 0xff0d;
pub const Pause: Key = 0xff13;
pub const Scroll_Lock: Key = 0xff14;
pub const Escape: Key = 0xff1b;
pub const Insert: Key = 0xff63;
pub const Menu: Key = 0xff67;
pub const Num_Lock: Key = 0xff7f;
pub const Delete: Key = 0xffff;
pub const Caps_Lock: Key = 0xffe5;
pub const _3270_PrintScreen: Key = 0xfd1d;

// Cursor movement.
pub const Home: Key = 0xff50;
pub const Left: Key = 0xff51;
pub const Up: Key = 0xff52;
pub const Right: Key = 0xff53;
pub const Down: Key = 0xff54;
pub const Page_Up: Key = 0xff55;
pub const Page_Down: Key = 0xff56;
pub const End: Key = 0xff57;

// Function keys.
pub const F1: Key = 0xffbe;
pub const F2: Key = 0xffbf;
pub const F3: Key = 0xffc0;
pub const F4: Key = 0xffc1;
pub const F5: Key = 0xffc2;
pub const F6: Key = 0xffc3;
pub const F7: Key = 0xffc4;
pub const F8: Key = 0xffc5;
pub const F9: Key = 0xffc6;
pub const F10: Key = 0xffc7;
pub const F11: Key = 0xffc8;
pub const F12: Key = 0xffc9;
pub const F13: Key = 0xffca;
pub const F14: Key = 0xffcb;
pub const F15: Key = 0xffcc;
pub const F16: Key = 0xffcd;
pub const F17: Key = 0xffce;
pub const F18: Key = 0xffcf;
pub const F19: Key = 0xffd0;
pub const F20: Key = 0xffd1;
pub const F21: Key = 0xffd2;
pub const F22: Key = 0xffd3;
pub const F23: Key = 0xffd4;
pub const F24: Key = 0xffd5;
pub const F25: Key = 0xffd6;

// Keypad.
pub const KP_Enter: Key = 0xff8d;
pub const KP_Multiply: Key = 0xffaa;
pub const KP_Add: Key = 0xffab;
pub const KP_Subtract: Key = 0xffad;
pub const KP_Decimal: Key = 0xffae;
pub const KP_Divide: Key = 0xffaf;
pub const KP_0: Key = 0xffb0;
pub const KP_1: Key = 0xffb1;
pub const KP_2: Key = 0xffb2;
pub const KP_3: Key = 0xffb3;
pub const KP_4: Key = 0xffb4;
pub const KP_5: Key = 0xffb5;
pub const KP_6: Key = 0xffb6;
pub const KP_7: Key = 0xffb7;
pub const KP_8: Key = 0xffb8;
pub const KP_9: Key = 0xffb9;
pub const KP_Equal: Key = 0xffbd;

// Modifier keys.
pub const Shift_L: Key = 0xffe1;
pub const Shift_R: Key = 0xffe2;
pub const Control_L: Key = 0xffe3;
pub const Control_R: Key = 0xffe4;
pub const Alt_L: Key = 0xffe9;
pub const Alt_R: Key = 0xffea;
pub const Super_L: Key = 0xffeb;
pub const Super_R: Key = 0xffec;

} // verus!
