use servo_gtk::convert::{control_code, key, known_mouse_button, modifiers, mouse_button, table_key};
use servo_gtk::engine::{Key, KeyModifiers, MouseButton, ALT, CONTROL, SHIFT, SUPER};
use servo_gtk::keyval;
use servo_gtk::toolkit::{
    ModifierType, BUTTON_MIDDLE, BUTTON_PRIMARY, BUTTON_SECONDARY, CONTROL_MASK, META_MASK,
    SHIFT_MASK, SUPER_MASK,
};

/// Every symbol of the table with its key, by number.
fn table() -> Vec<(u32, Key)> {
    vec![
        (0x0020, Key::Space),
        (0x0027, Key::Apostrophe),
        (0x002c, Key::Comma),
        (0x002d, Key::Minus),
        (0x002e, Key::Period),
        (0x002f, Key::Slash),
        (0x0030, Key::Num0),
        (0x0031, Key::Num1),
        (0x0032, Key::Num2),
        (0x0033, Key::Num3),
        (0x0034, Key::Num4),
        (0x0035, Key::Num5),
        (0x0036, Key::Num6),
        (0x0037, Key::Num7),
        (0x0038, Key::Num8),
        (0x0039, Key::Num9),
        (0x003b, Key::Semicolon),
        (0x003d, Key::Equal),
        (0x0041, Key::A),
        (0x0042, Key::B),
        (0x0043, Key::C),
        (0x0044, Key::D),
        (0x0045, Key::E),
        (0x0046, Key::F),
        (0x0047, Key::G),
        (0x0048, Key::H),
        (0x0049, Key::I),
        (0x004a, Key::J),
        (0x004b, Key::K),
        (0x004c, Key::L),
        (0x004d, Key::M),
        (0x004e, Key::N),
        (0x004f, Key::O),
        (0x0050, Key::P),
        (0x0051, Key::Q),
        (0x0052, Key::R),
        (0x0053, Key::S),
        (0x0054, Key::T),
        (0x0055, Key::U),
        (0x0056, Key::V),
        (0x0057, Key::W),
        (0x0058, Key::X),
        (0x0059, Key::Y),
        (0x005a, Key::Z),
        (0x005b, Key::LeftBracket),
        (0x005c, Key::Backslash),
        (0x005d, Key::RightBracket),
        (0x0061, Key::A),
        (0x0062, Key::B),
        (0x0063, Key::C),
        (0x0064, Key::D),
        (0x0065, Key::E),
        (0x0066, Key::F),
        (0x0067, Key::G),
        (0x0068, Key::H),
        (0x0069, Key::I),
        (0x006a, Key::J),
        (0x006b, Key::K),
        (0x006c, Key::L),
        (0x006d, Key::M),
        (0x006e, Key::N),
        (0x006f, Key::O),
        (0x0070, Key::P),
        (0x0071, Key::Q),
        (0x0072, Key::R),
        (0x0073, Key::S),
        (0x0074, Key::T),
        (0x0075, Key::U),
        (0x0076, Key::V),
        (0x0077, Key::W),
        (0x0078, Key::X),
        (0x0079, Key::Y),
        (0x007a, Key::Z),
        (0xfd1d, Key::PrintScreen),
        (0xfe50, Key::GraveAccent),
        (0xff08, Key::Backspace),
        (0xff09, Key::Tab),
        (0xff0d, Key::Enter),
        (0xff13, Key::Pause),
        (0xff14, Key::ScrollLock),
        (0xff1b, Key::Escape),
        (0xff50, Key::Home),
        (0xff51, Key::Left),
        (0xff52, Key::Up),
        (0xff53, Key::Right),
        (0xff54, Key::Down),
        (0xff55, Key::PageUp),
        (0xff56, Key::PageDown),
        (0xff57, Key::End),
        (0xff63, Key::Insert),
        (0xff67, Key::Menu),
        (0xff7f, Key::NumLock),
        (0xff8d, Key::KpEnter),
        (0xffaa, Key::KpMultiply),
        (0xffab, Key::KpAdd),
        (0xffad, Key::KpSubtract),
        (0xffae, Key::KpDecimal),
        (0xffaf, Key::KpDivide),
        (0xffb0, Key::Kp0),
        (0xffb1, Key::Kp1),
        (0xffb2, Key::Kp2),
        (0xffb3, Key::Kp3),
        (0xffb4, Key::Kp4),
        (0xffb5, Key::Kp5),
        (0xffb6, Key::Kp6),
        (0xffb7, Key::Kp7),
        (0xffb8, Key::Kp8),
        (0xffb9, Key::Kp9),
        (0xffbd, Key::KpEqual),
        (0xffbe, Key::F1),
        (0xffbf, Key::F2),
        (0xffc0, Key::F3),
        (0xffc1, Key::F4),
        (0xffc2, Key::F5),
        (0xffc3, Key::F6),
        (0xffc4, Key::F7),
        (0xffc5, Key::F8),
        (0xffc6, Key::F9),
        (0xffc7, Key::F10),
        (0xffc8, Key::F11),
        (0xffc9, Key::F12),
        (0xffca, Key::F13),
        (0xffcb, Key::F14),
        (0xffcc, Key::F15),
        (0xffcd, Key::F16),
        (0xffce, Key::F17),
        (0xffcf, Key::F18),
        (0xffd0, Key::F19),
        (0xffd1, Key::F20),
        (0xffd2, Key::F21),
        (0xffd3, Key::F22),
        (0xffd4, Key::F23),
        (0xffd5, Key::F24),
        (0xffd6, Key::F25),
        (0xffe1, Key::LeftShift),
        (0xffe2, Key::RightShift),
        (0xffe3, Key::LeftControl),
        (0xffe4, Key::RightControl),
        (0xffe5, Key::CapsLock),
        (0xffe9, Key::LeftAlt),
        (0xffea, Key::RightAlt),
        (0xffeb, Key::LeftSuper),
        (0xffec, Key::RightSuper),
        (0xffff, Key::Delete),
    ]
}

#[test]
fn table_key_finds_every_symbol_of_the_table() {
    let table = table();
    assert_eq!(table.len(), 144);
    for (symbol, expected) in table {
        assert_eq!(table_key(symbol), Some(expected), "symbol {:#x}", symbol);
    }
}

#[test]
fn table_key_finds_nothing_else() {
    let table = table();
    let mut known = 0;
    for symbol in 0u32..0x2_0000 {
        let expected = table.iter().find(|entry| entry.0 == symbol).map(|entry| entry.1);
        assert_eq!(table_key(symbol), expected, "symbol {:#x}", symbol);
        if expected.is_some() {
            known += 1;
        }
    }
    assert_eq!(known, 144);
    assert_eq!(table_key(0x0100_0041), None);
    assert_eq!(table_key(u32::MAX), None);
}

#[test]
fn table_key_never_gives_a_key_without_symbol() {
    for symbol in 0u32..0x2_0000 {
        let found = table_key(symbol);
        assert_ne!(found, Some(Key::World1));
        assert_ne!(found, Some(Key::World2));
        assert_ne!(found, Some(Key::NavigateBackward));
        assert_ne!(found, Some(Key::NavigateForward));
    }
}

#[test]
fn symbol_values_are_those_of_the_key_symbol_table() {
    assert_eq!(keyval::space, 0x20);
    assert_eq!(keyval::_0, 0x30);
    assert_eq!(keyval::_9, 0x39);
    assert_eq!(keyval::A, 0x41);
    assert_eq!(keyval::Z, 0x5a);
    assert_eq!(keyval::a, 0x61);
    assert_eq!(keyval::z, 0x7a);
    assert_eq!(keyval::dead_grave, 0xfe50);
    assert_eq!(keyval::_3270_PrintScreen, 0xfd1d);
    assert_eq!(keyval::BackSpace, 0xff08);
    assert_eq!(keyval::Return, 0xff0d);
    assert_eq!(keyval::Escape, 0xff1b);
    assert_eq!(keyval::Home, 0xff50);
    assert_eq!(keyval::Menu, 0xff67);
    assert_eq!(keyval::KP_Enter, 0xff8d);
    assert_eq!(keyval::KP_0, 0xffb0);
    assert_eq!(keyval::KP_Equal, 0xffbd);
    assert_eq!(keyval::F1, 0xffbe);
    assert_eq!(keyval::F25, 0xffd6);
    assert_eq!(keyval::Shift_L, 0xffe1);
    assert_eq!(keyval::Super_R, 0xffec);
    assert_eq!(keyval::Delete, 0xffff);
}

#[test]
fn a_letter_gives_the_same_key_in_both_cases() {
    for offset in 0u32..26 {
        let capital = table_key(keyval::A + offset);
        let small = table_key(keyval::a + offset);
        assert!(capital.is_some());
        assert_eq!(capital, small);
    }
    assert_eq!(table_key(keyval::Q), Some(Key::Q));
    assert_eq!(table_key(keyval::q), Some(Key::Q));
}

#[test]
fn only_the_two_cases_of_a_letter_share_a_key() {
    let table = table();
    for first in &table {
        for second in &table {
            if first.1 == second.1 && first.0 < second.0 {
                assert!(keyval::A <= first.0 && first.0 <= keyval::Z);
                assert_eq!(second.0, first.0 + 0x20);
            }
        }
    }
}

#[test]
fn key_of_a_letter_types_the_letter() {
    assert_eq!(key(keyval::a, Some('a')), (Some('a'), Some(Key::A)));
    assert_eq!(key(keyval::Z, Some('Z')), (Some('Z'), Some(Key::Z)));
    assert_eq!(key(keyval::_7, Some('7')), (Some('7'), Some(Key::Num7)));
    assert_eq!(key(keyval::space, Some(' ')), (Some(' '), Some(Key::Space)));
    assert_eq!(key(keyval::KP_5, Some('5')), (Some('5'), Some(Key::Kp5)));
    assert_eq!(key(keyval::KP_Add, Some('+')), (Some('+'), Some(Key::KpAdd)));
}

#[test]
fn key_drops_a_control_code() {
    assert_eq!(key(keyval::Return, Some('\r')), (None, Some(Key::Enter)));
    assert_eq!(key(keyval::Tab, Some('\t')), (None, Some(Key::Tab)));
    assert_eq!(key(keyval::BackSpace, Some('\u{8}')), (None, Some(Key::Backspace)));
    assert_eq!(key(keyval::Escape, Some('\u{1b}')), (None, Some(Key::Escape)));
    assert_eq!(key(keyval::Delete, Some('\u{7f}')), (None, Some(Key::Delete)));
    assert_eq!(key(keyval::a, Some('\u{1}')), (None, Some(Key::A)));
}

#[test]
fn key_without_character_keeps_the_key() {
    assert_eq!(key(keyval::F5, None), (None, Some(Key::F5)));
    assert_eq!(key(keyval::Shift_L, None), (None, Some(Key::LeftShift)));
    assert_eq!(key(keyval::Left, None), (None, Some(Key::Left)));
    assert_eq!(key(keyval::dead_grave, None), (None, Some(Key::GraveAccent)));
}

#[test]
fn key_outside_the_table_with_a_character_has_no_key() {
    // eacute, exclam and a directly encoded code point
    assert_eq!(key(0xe9, Some('\u{e9}')), (Some('\u{e9}'), None));
    assert_eq!(key(0x21, Some('!')), (Some('!'), None));
    assert_eq!(key(0x0100_20ac, Some('\u{20ac}')), (Some('\u{20ac}'), None));
}

#[test]
fn key_never_makes_up_a_key_for_a_symbol_outside_the_table() {
    for symbol in 0u32..0x2_0000 {
        for unicode in [None, Some('a'), Some('!'), Some('\u{e9}'), Some('\r')] {
            let (_, found) = key(symbol, unicode);
            assert_eq!(found, table_key(symbol), "symbol {:#x}", symbol);
        }
    }
}

#[test]
fn key_outside_the_table_without_a_character_is_not_reported() {
    // Hyper_L is a modifier key that the table does not hold
    assert_eq!(key(0xffed, None), (None, None));
    assert_eq!(key(0, None), (None, None));
    // Linefeed types a control code
    assert_eq!(key(0xff0a, Some('\n')), (None, None));
    assert_eq!(key(0x1234_5678, Some('\u{9f}')), (None, None));
}

#[test]
fn control_code_agrees_with_the_standard_library() {
    let mut controls = 0;
    for code in 0u32..=0x10_ffff {
        if let Some(c) = char::from_u32(code) {
            assert_eq!(control_code(c), c.is_control(), "code {:#x}", code);
            if control_code(c) {
                controls += 1;
            }
        }
    }
    assert_eq!(controls, 65);
}

#[test]
fn control_code_at_the_edges_of_its_ranges() {
    assert!(control_code('\u{0}'));
    assert!(control_code('\u{1f}'));
    assert!(!control_code(' '));
    assert!(!control_code('~'));
    assert!(control_code('\u{7f}'));
    assert!(control_code('\u{9f}'));
    assert!(!control_code('\u{a0}'));
    assert!(!control_code('\u{10ffff}'));
}

#[test]
fn modifiers_of_no_bit_is_empty() {
    assert_eq!(modifiers(ModifierType::from_bits(0)), KeyModifiers::empty());
    assert_eq!(modifiers(ModifierType::from_bits(0)).bits(), 0);
}

#[test]
fn modifiers_maps_each_bit() {
    assert_eq!(modifiers(ModifierType::from_bits(META_MASK)).bits(), ALT);
    assert_eq!(modifiers(ModifierType::from_bits(SUPER_MASK)).bits(), SUPER);
    assert_eq!(modifiers(ModifierType::from_bits(CONTROL_MASK)).bits(), CONTROL);
    assert_eq!(modifiers(ModifierType::from_bits(SHIFT_MASK)).bits(), SHIFT);
    assert_eq!(modifiers(ModifierType::from_bits(0x1000_0000)).bits(), 0x04);
    assert_eq!(modifiers(ModifierType::from_bits(0x0400_0000)).bits(), 0x08);
    assert_eq!(modifiers(ModifierType::from_bits(0x4)).bits(), 0x02);
    assert_eq!(modifiers(ModifierType::from_bits(0x1)).bits(), 0x01);
}

#[test]
fn modifiers_maps_every_combination() {
    for pick in 0u32..16 {
        let mut mask = 0;
        let mut expected = 0;
        if pick & 1 != 0 {
            mask |= META_MASK;
            expected |= ALT;
        }
        if pick & 2 != 0 {
            mask |= SUPER_MASK;
            expected |= SUPER;
        }
        if pick & 4 != 0 {
            mask |= CONTROL_MASK;
            expected |= CONTROL;
        }
        if pick & 8 != 0 {
            mask |= SHIFT_MASK;
            expected |= SHIFT;
        }
        let result = modifiers(ModifierType::from_bits(mask));
        assert_eq!(result.bits(), expected);
        assert_eq!(result.contains(ALT), pick & 1 != 0);
        assert_eq!(result.contains(SUPER), pick & 2 != 0);
        assert_eq!(result.contains(CONTROL), pick & 4 != 0);
        assert_eq!(result.contains(SHIFT), pick & 8 != 0);
    }
    let all = META_MASK | SUPER_MASK | CONTROL_MASK | SHIFT_MASK;
    assert_eq!(modifiers(ModifierType::from_bits(all)).bits(), 0x0f);
}

#[test]
fn modifiers_leaves_the_other_bits_out() {
    // lock, mod1 (the usual alt key), the pointer buttons, hyper, release
    let others = !(META_MASK | SUPER_MASK | CONTROL_MASK | SHIFT_MASK);
    assert_eq!(modifiers(ModifierType::from_bits(others)).bits(), 0);
    assert_eq!(modifiers(ModifierType::from_bits(0x2)).bits(), 0);
    assert_eq!(modifiers(ModifierType::from_bits(0x8)).bits(), 0);
    assert_eq!(modifiers(ModifierType::from_bits(0x100)).bits(), 0);
    assert_eq!(modifiers(ModifierType::from_bits(others | SHIFT_MASK)).bits(), SHIFT);
    assert_eq!(modifiers(ModifierType::from_bits(u32::MAX)).bits(), 0x0f);
}

#[test]
fn modifier_type_contains_every_bit_of_the_mask() {
    let state = ModifierType::from_bits(CONTROL_MASK | SHIFT_MASK);
    assert!(state.contains(CONTROL_MASK));
    assert!(state.contains(SHIFT_MASK));
    assert!(state.contains(CONTROL_MASK | SHIFT_MASK));
    assert!(!state.contains(META_MASK));
    assert!(!state.contains(CONTROL_MASK | META_MASK));
    assert!(state.contains(0));
}

#[test]
fn key_modifiers_insert_sets_bits_and_keeps_the_rest() {
    let mut set = KeyModifiers::empty();
    assert_eq!(set.bits(), 0);
    assert!(!set.contains(ALT));
    set.insert(ALT);
    assert_eq!(set.bits(), 0x04);
    set.insert(SHIFT);
    assert_eq!(set.bits(), 0x05);
    set.insert(ALT);
    assert_eq!(set.bits(), 0x05);
    assert!(set.contains(ALT));
    assert!(set.contains(ALT | SHIFT));
    assert!(!set.contains(CONTROL));
    assert!(!set.contains(ALT | CONTROL));
}

#[test]
fn mouse_button_maps_the_three_buttons() {
    assert_eq!(mouse_button(BUTTON_PRIMARY), MouseButton::Left);
    assert_eq!(mouse_button(BUTTON_MIDDLE), MouseButton::Middle);
    assert_eq!(mouse_button(BUTTON_SECONDARY), MouseButton::Right);
    assert_eq!(mouse_button(1), MouseButton::Left);
    assert_eq!(mouse_button(2), MouseButton::Middle);
    assert_eq!(mouse_button(3), MouseButton::Right);
}

#[test]
fn known_mouse_button_accepts_the_three_buttons_only() {
    assert!(!known_mouse_button(0));
    assert!(known_mouse_button(1));
    assert!(known_mouse_button(2));
    assert!(known_mouse_button(3));
    assert!(!known_mouse_button(4));
    assert!(!known_mouse_button(8));
    assert!(!known_mouse_button(u32::MAX));
}
