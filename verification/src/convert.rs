//! Conversion of toolkit input values into the engine's vocabulary.
//!
//! Three things are converted: the state mask that comes with an input event
//! becomes a set of key modifiers, a pointer button number becomes a button,
//! and a key symbol becomes a key, together with the character it types.

use vstd::prelude::*;
use crate::engine::{Key, KeyModifiers, MouseButton, ALT, CONTROL, SHIFT, SUPER};
use crate::keyval;
use crate::toolkit::{
    ModifierType, BUTTON_MIDDLE, BUTTON_PRIMARY, BUTTON_SECONDARY, CONTROL_MASK, META_MASK,
    SHIFT_MASK, SUPER_MASK,
};

verus! {

/// The bits of the engine's modifiers for a state mask, as a number: the
/// meta bit gives alt; super, control and shift give their namesakes; every
/// other bit of the mask is left out.
pub open spec fn modifier_bits(state: ModifierType) -> int {
    (if state.has(META_MASK) { ALT as int } else { 0 })
        + (if state.has(SUPER_MASK) { SUPER as int } else { 0 })
        + (if state.has(CONTROL_MASK) { CONTROL as int } else { 0 })
        + (if state.has(SHIFT_MASK) { SHIFT as int } else { 0 })
}

/// The engine's modifiers for a state mask.
pub open spec fn modifiers_of(state: ModifierType) -> KeyModifiers {
    KeyModifiers { bits: modifier_bits(state) as u8 }
}

/// Converts the state mask of an input event into the engine's modifiers.
pub fn modifiers(state: ModifierType) -> (result: KeyModifiers)
    ensures
        result == modifiers_of(state),
{
    let mut result = KeyModifiers::empty();
    if state.contains(META_MASK) {
        result.insert(ALT);
    }
    if state.contains(SUPER_MASK) {
        result.insert(SUPER);
    }
    if state.contains(CONTROL_MASK) {
        result.insert(CONTROL);
    }
    if state.contains(SHIFT_MASK) {
        result.insert(SHIFT);
    }
    proof {
        lemma_disjoint_flags();
    }
    result
}

/// Setting a modifier bit in a set that holds only bits above it adds the
/// bit's value to the set's number.
proof fn lemma_disjoint_flags()
    ensures
        0u8 | ALT == ALT,
        forall|bits: u8| bits < 8 && bits % 4 == 0 ==> #[trigger] (bits | SUPER) == bits + SUPER,
        forall|bits: u8| bits < 16 && bits % 4 == 0 ==> #[trigger] (bits | CONTROL) == bits + CONTROL,
        forall|bits: u8| bits < 16 && bits % 2 == 0 ==> #[trigger] (bits | SHIFT) == bits + SHIFT,
{
    assert(0u8 | 0x04 == 0x04) by (bit_vector);
    assert forall|bits: u8| bits < 8 && bits % 4 == 0 implies #[trigger] (bits | 0x08) == bits + 0x08 by {
        assert(bits < 8 && bits % 4 == 0 ==> (bits | 0x08) == bits + 0x08) by (bit_vector);
    }
    assert forall|bits: u8| bits < 16 && bits % 4 == 0 implies #[trigger] (bits | 0x02) == bits + 0x02 by {
        assert(bits < 16 && bits % 4 == 0 ==> (bits | 0x02) == bits + 0x02) by (bit_vector);
    }
    assert forall|bits: u8| bits < 16 && bits % 2 == 0 implies #[trigger] (bits | 0x01) == bits + 0x01 by {
        assert(bits < 16 && bits % 2 == 0 ==> (bits | 0x01) == bits + 0x01) by (bit_vector);
    }
}

/// Whether `button` is one of the three buttons that the engine knows.
pub open spec fn is_mouse_button(button: u32) -> bool {
    button == BUTTON_PRIMARY || button == BUTTON_MIDDLE || button == BUTTON_SECONDARY
}

/// The engine's button for a toolkit button number.
pub open spec fn mouse_button_of(button: u32) -> MouseButton {
    if button == BUTTON_PRIMARY {
        MouseButton::Left
    } else if button == BUTTON_MIDDLE {
        MouseButton::Middle
    } else {
        MouseButton::Right
    }
}

/// Tells whether `gtk_button` is a button that `mouse_button` accepts.
pub fn known_mouse_button(gtk_button: u32) -> (known: bool)
    ensures
        known == is_mouse_button(gtk_button),
{
    gtk_button == BUTTON_PRIMARY || gtk_button == BUTTON_MIDDLE || gtk_button == BUTTON_SECONDARY
}

/// Converts a toolkit button number into the engine's button.
pub fn mouse_button(gtk_button: u32) -> (button: MouseButton)
    requires
        is_mouse_button(gtk_button),
    ensures
        button == mouse_button_of(gtk_button),
{
    match gtk_button {
        BUTTON_MIDDLE => MouseButton::Middle,
        BUTTON_PRIMARY => MouseButton::Left,
        _ => MouseButton::Right,
    }
}

/// The key of a digit of the main block, `0` to `9`.
pub open spec fn digit_key(digit: u32) -> Key {
    match digit {
        0 => Key::Num0,
        1 => Key::Num1,
        2 => Key::Num2,
        3 => Key::Num3,
        4 => Key::Num4,
        5 => Key::Num5,
        6 => Key::Num6,
        7 => Key::Num7,
        8 => Key::Num8,
        _ => Key::Num9,
    }
}

/// The key of a letter, by its place in the alphabet, counted from 0.
pub open spec fn letter_key(place: u32) -> Key {
    match place {
        0 => Key::A,
        1 => Key::B,
        2 => Key::C,
        3 => Key::D,
        4 => Key::E,
        5 => Key::F,
        6 => Key::G,
        7 => Key::H,
        8 => Key::I,
        9 => Key::J,
        10 => Key::K,
        11 => Key::L,
        12 => Key::M,
        13 => Key::N,
        14 => Key::O,
        15 => Key::P,
        16 => Key::Q,
        17 => Key::R,
        18 => Key::S,
        19 => Key::T,
        20 => Key::U,
        21 => Key::V,
        22 => Key::W,
        23 => Key::X,
        24 => Key::Y,
        _ => Key::Z,
    }
}

/// The function key with the given number, `1` to `25`.
pub open spec fn function_key(number: u32) -> Key {
    match number {
        1 => Key::F1,
        2 => Key::F2,
        3 => Key::F3,
        4 => Key::F4,
        5 => Key::F5,
        6 => Key::F6,
        7 => Key::F7,
        8 => Key::F8,
        9 => Key::F9,
        10 => Key::F10,
        11 => Key::F11,
        12 => Key::F12,
        13 => Key::F13,
        14 => Key::F14,
        15 => Key::F15,
        16 => Key::F16,
        17 => Key::F17,
        18 => Key::F18,
        19 => Key::F19,
        20 => Key::F20,
        21 => Key::F21,
        22 => Key::F22,
        23 => Key::F23,
        24 => Key::F24,
        _ => Key::F25,
    }
}

/// The key of a digit of the keypad, `0` to `9`.
pub open spec fn keypad_digit_key(digit: u32) -> Key {
    match digit {
        0 => Key::Kp0,
        1 => Key::Kp1,
        2 => Key::Kp2,
        3 => Key::Kp3,
        4 => Key::Kp4,
        5 => Key::Kp5,
        6 => Key::Kp6,
        7 => Key::Kp7,
        8 => Key::Kp8,
        _ => Key::Kp9,
    }
}

/// The key of a symbol that stands alone in the table: punctuation, editing
/// and cursor keys, locks, keypad operators and modifier keys.
pub open spec fn named_key(symbol: keyval::Key) -> Option<Key> {
    match symbol {
        keyval::space => Some(Key::Space),
        keyval::apostrophe => Some(Key::Apostrophe),
        keyval::comma => Some(Key::Comma),
        keyval::minus => Some(Key::Minus),
        keyval::period => Some(Key::Period),
        keyval::slash => Some(Key::Slash),
        keyval::semicolon => Some(Key::Semicolon),
        keyval::equal => Some(Key::Equal),
        keyval::bracketleft => Some(Key::LeftBracket),
        keyval::backslash => Some(Key::Backslash),
        keyval::bracketright => Some(Key::RightBracket),
        keyval::dead_grave => Some(Key::GraveAccent),
        keyval::Escape => Some(Key::Escape),
        keyval::Return => Some(Key::Enter),
        keyval::Tab => Some(Key::Tab),
        keyval::BackSpace => Some(Key::Backspace),
        keyval::Insert => Some(Key::Insert),
        keyval::Delete => Some(Key::Delete),
        keyval::Right => Some(Key::Right),
        keyval::Left => Some(Key::Left),
        keyval::Down => Some(Key::Down),
        keyval::Up => Some(Key::Up),
        keyval::Page_Up => Some(Key::PageUp),
        keyval::Page_Down => Some(Key::PageDown),
        keyval::Home => Some(Key::Home),
        keyval::End => Some(Key::End),
        keyval::Caps_Lock => Some(Key::CapsLock),
        keyval::Scroll_Lock => Some(Key::ScrollLock),
        keyval::Num_Lock => Some(Key::NumLock),
        keyval::_3270_PrintScreen => Some(Key::PrintScreen),
        keyval::Pause => Some(Key::Pause),
        keyval::KP_Decimal => Some(Key::KpDecimal),
        keyval::KP_Divide => Some(Key::KpDivide),
        keyval::KP_Multiply => Some(Key::KpMultiply),
        keyval::KP_Subtract => Some(Key::KpSubtract),
        keyval::KP_Add => Some(Key::KpAdd),
        keyval::KP_Enter => Some(Key::KpEnter),
        keyval::KP_Equal => Some(Key::KpEqual),
        keyval::Shift_L => Some(Key::LeftShift),
        keyval::Control_L => Some(Key::LeftControl),
        keyval::Alt_L => Some(Key::LeftAlt),
        keyval::Super_L => Some(Key::LeftSuper),
        keyval::Shift_R => Some(Key::RightShift),
        keyval::Control_R => Some(Key::RightControl),
        keyval::Alt_R => Some(Key::RightAlt),
        keyval::Super_R => Some(Key::RightSuper),
        keyval::Menu => Some(Key::Menu),
        _ => None,
    }
}

/// The key that the table gives for a key symbol, if it has one.
///
/// Digits, letters, function keys and keypad digits lie in runs of
/// consecutive symbols and are found by their place in the run; a capital
/// letter and its small letter give the same key.
pub open spec fn key_of(symbol: keyval::Key) -> Option<Key> {
    if keyval::_0 <= symbol <= keyval::_9 {
        Some(digit_key((symbol - keyval::_0) as u32))
    } else if keyval::A <= symbol <= keyval::Z {
        Some(letter_key((symbol - keyval::A) as u32))
    } else if keyval::a <= symbol <= keyval::z {
        Some(letter_key((symbol - keyval::a) as u32))
    } else if keyval::F1 <= symbol <= keyval::F25 {
        Some(function_key((symbol - keyval::F1 + 1) as u32))
    } else if keyval::KP_0 <= symbol <= keyval::KP_9 {
        Some(keypad_digit_key((symbol - keyval::KP_0) as u32))
    } else {
        named_key(symbol)
    }
}

/// Whether `c` is a control code: U+0000 to U+001F, or U+007F to U+009F.
pub open spec fn is_control(c: char) -> bool {
    c as u32 <= 0x1f || 0x7f <= c as u32 <= 0x9f
}

/// The character that a key press types: the symbol's character, unless
/// there is none or it is a control code.
pub open spec fn typed_char(unicode: Option<char>) -> Option<char> {
    match unicode {
        Some(c) => if is_control(c) { None } else { Some(c) },
        None => None,
    }
}

/// What a key press means to the engine: the character it types and its key.
///
/// The two are found apart: the character comes from the toolkit, the key
/// from the table. A symbol outside the table has no key, whatever it types.
pub open spec fn key_press_of(symbol: keyval::Key, unicode: Option<char>) -> (Option<char>, Option<Key>) {
    (typed_char(unicode), key_of(symbol))
}

/// Tells whether `c` is a control code.
pub fn control_code(c: char) -> (control: bool)
    ensures
        control == is_control(c),
{
    let code: u32 = c as u32;
    code <= 0x1f || (0x7f <= code && code <= 0x9f)
}

/// Looks a key symbol up in the table.
pub fn table_key(gdk_key: keyval::Key) -> (found: Option<Key>)
    ensures
        found == key_of(gdk_key),
{
    match gdk_key {
        keyval::space => Some(Key::Space),
        keyval::apostrophe => Some(Key::Apostrophe),
        keyval::comma => Some(Key::Comma),
        keyval::minus => Some(Key::Minus),
        keyval::period => Some(Key::Period),
        keyval::slash => Some(Key::Slash),
        keyval::_0 => Some(Key::Num0),
        keyval::_1 => Some(Key::Num1),
        keyval::_2 => Some(Key::Num2),
        keyval::_3 => Some(Key::Num3),
        keyval::_4 => Some(Key::Num4),
        keyval::_5 => Some(Key::Num5),
        keyval::_6 => Some(Key::Num6),
        keyval::_7 => Some(Key::Num7),
        keyval::_8 => Some(Key::Num8),
        keyval::_9 => Some(Key::Num9),
        keyval::semicolon => Some(Key::Semicolon),
        keyval::equal => Some(Key::Equal),
        keyval::A | keyval::a => Some(Key::A),
        keyval::B | keyval::b => Some(Key::B),
        keyval::C | keyval::c => Some(Key::C),
        keyval::D | keyval::d => Some(Key::D),
        keyval::E | keyval::e => Some(Key::E),
        keyval::F | keyval::f => Some(Key::F),
        keyval::G | keyval::g => Some(Key::G),
        keyval::H | keyval::h => Some(Key::H),
        keyval::I | keyval::i => Some(Key::I),
        keyval::J | keyval::j => Some(Key::J),
        keyval::K | keyval::k => Some(Key::K),
        keyval::L | keyval::l => Some(Key::L),
        keyval::M | keyval::m => Some(Key::M),
        keyval::N | keyval::n => Some(Key::N),
        keyval::O | keyval::o => Some(Key::O),
        keyval::P | keyval::p => Some(Key::P),
        keyval::Q | keyval::q => Some(Key::Q),
        keyval::R | keyval::r => Some(Key::R),
        keyval::S | keyval::s => Some(Key::S),
        keyval::T | keyval::t => Some(Key::T),
        keyval::U | keyval::u => Some(Key::U),
        keyval::V | keyval::v => Some(Key::V),
        keyval::W | keyval::w => Some(Key::W),
        keyval::X | keyval::x => Some(Key::X),
        keyval::Y | keyval::y => Some(Key::Y),
        keyval::Z | keyval::z => Some(Key::Z),
        keyval::bracketleft => Some(Key::LeftBracket),
        keyval::backslash => Some(Key::Backslash),
        keyval::bracketright => Some(Key::RightBracket),
        keyval::dead_grave => Some(Key::GraveAccent),
        keyval::Escape => Some(Key::Escape),
        keyval::Return => Some(Key::Enter),
        keyval::Tab => Some(Key::Tab),
        keyval::BackSpace => Some(Key::Backspace),
        keyval::Insert => Some(Key::Insert),
        keyval::Delete => Some(Key::Delete),
        keyval::Right => Some(Key::Right),
        keyval::Left => Some(Key::Left),
        keyval::Down => Some(Key::Down),
        keyval::Up => Some(Key::Up),
        keyval::Page_Up => Some(Key::PageUp),
        keyval::Page_Down => Some(Key::PageDown),
        keyval::Home => Some(Key::Home),
        keyval::End => Some(Key::End),
        keyval::Caps_Lock => Some(Key::CapsLock),
        keyval::Scroll_Lock => Some(Key::ScrollLock),
        keyval::Num_Lock => Some(Key::NumLock),
        keyval::_3270_PrintScreen => Some(Key::PrintScreen),
        keyval::Pause => Some(Key::Pause),
        keyval::F1 => Some(Key::F1),
        keyval::F2 => Some(Key::F2),
        keyval::F3 => Some(Key::F3),
        keyval::F4 => Some(Key::F4),
        keyval::F5 => Some(Key::F5),
        keyval::F6 => Some(Key::F6),
        keyval::F7 => Some(Key::F7),
        keyval::F8 => Some(Key::F8),
        keyval::F9 => Some(Key::F9),
        keyval::F10 => Some(Key::F10),
        keyval::F11 => Some(Key::F11),
        keyval::F12 => Some(Key::F12),
        keyval::F13 => Some(Key::F13),
        keyval::F14 => Some(Key::F14),
        keyval::F15 => Some(Key::F15),
        keyval::F16 => Some(Key::F16),
        keyval::F17 => Some(Key::F17),
        keyval::F18 => Some(Key::F18),
        keyval::F19 => Some(Key::F19),
        keyval::F20 => Some(Key::F20),
        keyval::F21 => Some(Key::F21),
        keyval::F22 => Some(Key::F22),
        keyval::F23 => Some(Key::F23),
        keyval::F24 => Some(Key::F24),
        keyval::F25 => Some(Key::F25),
        keyval::KP_0 => Some(Key::Kp0),
        keyval::KP_1 => Some(Key::Kp1),
        keyval::KP_2 => Some(Key::Kp2),
        keyval::KP_3 => Some(Key::Kp3),
        keyval::KP_4 => Some(Key::Kp4),
        keyval::KP_5 => Some(Key::Kp5),
        keyval::KP_6 => Some(Key::Kp6),
        keyval::KP_7 => Some(Key::Kp7),
        keyval::KP_8 => Some(Key::Kp8),
        keyval::KP_9 => Some(Key::Kp9),
        keyval::KP_Decimal => Some(Key::KpDecimal),
        keyval::KP_Divide => Some(Key::KpDivide),
        keyval::KP_Multiply => Some(Key::KpMultiply),
        keyval::KP_Subtract => Some(Key::KpSubtract),
        keyval::KP_Add => Some(Key::KpAdd),
        keyval::KP_Enter => Some(Key::KpEnter),
        keyval::KP_Equal => Some(Key::KpEqual),
        keyval::Shift_L => Some(Key::LeftShift),
        keyval::Control_L => Some(Key::LeftControl),
        keyval::Alt_L => Some(Key::LeftAlt),
        keyval::Super_L => Some(Key::LeftSuper),
        keyval::Shift_R => Some(Key::RightShift),
        keyval::Control_R => Some(Key::RightControl),
        keyval::Alt_R => Some(Key::RightAlt),
        keyval::Super_R => Some(Key::RightSuper),
        keyval::Menu => Some(Key::Menu),
        _ => None,
    }
}

/// Converts a key symbol, and the character that the toolkit gives for it,
/// into the character typed and the engine's key.
pub fn key(gdk_key: keyval::Key, unicode: Option<char>) -> (pressed: (Option<char>, Option<Key>))
    ensures
        pressed == key_press_of(gdk_key, unicode),
{
    let typed = match unicode {
        Some(c) => if control_code(c) { None } else { Some(c) },
        None => None,
    };
    (typed, table_key(gdk_key))
}

/// A state mask gives each modifier exactly when it holds the bit that
/// stands for it, and gives no other bit.
pub proof fn lemma_modifiers_flags(state: ModifierType)
    ensures
        modifiers_of(state).has(ALT) <==> state.has(META_MASK),
        modifiers_of(state).has(SUPER) <==> state.has(SUPER_MASK),
        modifiers_of(state).has(CONTROL) <==> state.has(CONTROL_MASK),
        modifiers_of(state).has(SHIFT) <==> state.has(SHIFT_MASK),
        modifiers_of(state).bits < 16,
{
    let bits = modifiers_of(state).bits;
    assert(bits < 16 ==> (bits & 0x04 == 0x04 <==> (bits / 4) % 2 == 1)) by (bit_vector);
    assert(bits < 16 ==> (bits & 0x08 == 0x08 <==> bits / 8 == 1)) by (bit_vector);
    assert(bits < 16 ==> (bits & 0x02 == 0x02 <==> (bits / 2) % 2 == 1)) by (bit_vector);
    assert(bits < 16 ==> (bits & 0x01 == 0x01 <==> bits % 2 == 1)) by (bit_vector);
}

/// The state mask's other bits (a lock, a pointer button) do not change the
/// modifiers.
pub proof fn lemma_modifiers_ignore_other_bits(state: ModifierType, other: ModifierType)
    requires
        state.has(META_MASK) == other.has(META_MASK),
        state.has(SUPER_MASK) == other.has(SUPER_MASK),
        state.has(CONTROL_MASK) == other.has(CONTROL_MASK),
        state.has(SHIFT_MASK) == other.has(SHIFT_MASK),
    ensures
        modifiers_of(state) == modifiers_of(other),
{
}

/// A capital letter and its small letter are the same key.
pub proof fn lemma_letter_case(symbol: keyval::Key)
    requires
        keyval::A <= symbol <= keyval::Z,
    ensures
        key_of(symbol) is Some,
        key_of(symbol) == key_of((symbol + (keyval::a - keyval::A)) as u32),
        same_letter(symbol, (symbol + (keyval::a - keyval::A)) as u32),
{
}

/// Whether `capital` is a capital letter and `small` is its small letter.
pub open spec fn same_letter(capital: keyval::Key, small: keyval::Key) -> bool {
    keyval::A <= capital <= keyval::Z && small == capital + (keyval::a - keyval::A)
}

/// Two symbols share a key only if they are the same symbol or the two
/// cases of one letter.
pub proof fn lemma_key_of_shared(first: keyval::Key, second: keyval::Key)
    requires
        key_of(first) is Some,
        key_of(first) == key_of(second),
    ensures
        first == second || same_letter(first, second) || same_letter(second, first),
{
}

/// Four keys have no symbol in the table, so no key press gives them.
pub proof fn lemma_keys_without_symbol(symbol: keyval::Key, unicode: Option<char>)
    ensures
        key_of(symbol) != Some(Key::World1),
        key_of(symbol) != Some(Key::World2),
        key_of(symbol) != Some(Key::NavigateBackward),
        key_of(symbol) != Some(Key::NavigateForward),
        key_press_of(symbol, unicode).1 != Some(Key::World1),
        key_press_of(symbol, unicode).1 != Some(Key::World2),
        key_press_of(symbol, unicode).1 != Some(Key::NavigateBackward),
        key_press_of(symbol, unicode).1 != Some(Key::NavigateForward),
{
}

/// What holds of every key press: the character typed is the toolkit's and
/// is no control code, and the key is the table's, so a key press has no key
/// exactly when its symbol is outside the table.
pub proof fn lemma_key_press(symbol: keyval::Key, unicode: Option<char>)
    ensures
        key_press_of(symbol, unicode).0 == typed_char(unicode),
        key_press_of(symbol, unicode).0 matches Some(c) ==> unicode == Some(c) && !is_control(c),
        key_press_of(symbol, unicode).1 == key_of(symbol),
        key_press_of(symbol, unicode).1 is None <==> key_of(symbol) is None,
{
}

} // verus!
