//! The toolkit's vocabulary: the plain values that come with its input
//! events and with a widget's place on the screen.

use vstd::prelude::*;

verus! {

/// Number of the primary (usually left) pointer button.
pub const BUTTON_PRIMARY: u32 = 1;

/// Number of the middle pointer button.
pub const BUTTON_MIDDLE: u32 = 2;

/// Number of the secondary (usually right) pointer button.
pub const BUTTON_SECONDARY: u32 = 3;

/// Bit of the shift key in an event's state mask.
pub const SHIFT_MASK: u32 = 0x1;

/// Bit of the control key in an event's state mask.
pub const CONTROL_MASK: u32 = 0x4;

/// Bit of the super key in an event's state mask.
pub const SUPER_MASK: u32 = 0x400_0000;

/// Bit of the meta key in an event's state mask.
pub const META_MASK: u32 = 0x1000_0000;

/// Bit by which a widget asks for pointer motion events.
pub const POINTER_MOTION_MASK: u32 = 0x4;

/// Bit by which a widget asks for button press events.
pub const BUTTON_PRESS_MASK: u32 = 0x100;

/// Bit by which a widget asks for button release events.
pub const BUTTON_RELEASE_MASK: u32 = 0x200;

/// Bit by which a widget asks for scroll events.
pub const SCROLL_MASK: u32 = 0x20_0000;

/// The state mask of an input event: which modifier keys and pointer buttons
/// were held when it happened, one bit for each.
#[derive(Clone, Copy, Debug, PartialEq, Eq, Structural)]
pub struct ModifierType {
    pub bits: u32,
}

impl ModifierType {
    /// Whether every bit of `mask` is set.
    pub open spec fn has(self, mask: u32) -> bool {
        self.bits & mask == mask
    }

    /// The state mask with the given bits.
    pub fn from_bits(bits: u32) -> (state: ModifierType)
        ensures
            state.bits == bits,
    {
        ModifierType { bits }
    }

    /// Tells whether every bit of `mask` is set.
    pub fn contains(&self, mask: u32) -> (found: bool)
        ensures
            found == self.has(mask),
    {
        self.bits & mask == mask
    }
}

/// The direction of a scroll event.
#[derive(Clone, Copy, Debug, PartialEq, Eq, Structural)]
pub enum ScrollDirection {
    Up,
    Down,
    Left,
    Right,
    Smooth,
}

} // verus!
