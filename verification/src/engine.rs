//! The engine's vocabulary: the values that the embedding hands to the
//! rendering engine, and those that the engine hands back.
//!
//! These types hold what the library decides. What only passes through
//! (a pointer position, an address to load, a zoom factor) is attached by the
//! host when it delivers an event.

use vstd::prelude::*;

verus! {

/// A key of the keyboard, named by its place on a US layout.
#[derive(Clone, Copy, Debug, PartialEq, Eq, Structural)]
pub enum Key {
    Space,
    Apostrophe,
    Comma,
    Minus,
    Period,
    Slash,
    Num0,
    Num1,
    Num2,
    Num3,
    Num4,
    Num5,
    Num6,
    Num7,
    Num8,
    Num9,
    Semicolon,
    Equal,
    A,
    B,
    C,
    D,
    E,
    F,
    G,
    H,
    I,
    J,
    K,
    L,
    M,
    N,
    O,
    P,
    Q,
    R,
    S,
    T,
    U,
    V,
    W,
    X,
    Y,
    Z,
    LeftBracket,
    Backslash,
    RightBracket,
    GraveAccent,
    World1,
    World2,
    Escape,
    Enter,
    Tab,
    Backspace,
    Insert,
    Delete,
    Right,
    Left,
    Down,
    Up,
    PageUp,
    PageDown,
    Home,
    End,
    CapsLock,
    ScrollLock,
    NumLock,
    PrintScreen,
    Pause,
    F1,
    F2,
    F3,
    F4,
    F5,
    F6,
    F7,
    F8,
    F9,
    F10,
    F11,
    F12,
    F13,
    F14,
    F15,
    F16,
    F17,
    F18,
    F19,
    F20,
    F21,
    F22,
    F23,
    F24,
    F25,
    Kp0,
    Kp1,
    Kp2,
    Kp3,
    Kp4,
    Kp5,
    Kp6,
    Kp7,
    Kp8,
    Kp9,
    KpDecimal,
    KpDivide,
    KpMultiply,
    KpSubtract,
    KpAdd,
    KpEnter,
    KpEqual,
    LeftShift,
    LeftControl,
    LeftAlt,
    LeftSuper,
    RightShift,
    RightControl,
    RightAlt,
    RightSuper,
    Menu,
    NavigateBackward,
    NavigateForward,
}

/// A pointer button.
#[derive(Clone, Copy, Debug, PartialEq, Eq, Structural)]
pub enum MouseButton {
    Left,
    Middle,
    Right,
}

/// The name by which the engine knows one browser.
#[derive(Clone, Copy, Debug, PartialEq, Eq, Structural)]
pub struct BrowserId(pub u64);

/// A step through a browser's history: how many entries, and which way.
#[derive(Clone, Copy, Debug, PartialEq, Eq, Structural)]
pub enum TraversalDirection {
    Forward(usize),
    Back(usize),
}

/// The phase of a touch or scroll gesture.
#[derive(Clone, Copy, Debug, PartialEq, Eq, Structural)]
pub enum TouchEventType {
    Down,
    Up,
    Move,
    Cancel,
}

/// Whether the engine is running an animation.
#[derive(Clone, Copy, Debug, PartialEq, Eq, Structural)]
pub enum AnimationState {
    Idle,
    Animating,
}

/// The shape of the pointer that a page asks for.
#[derive(Clone, Copy, Debug, PartialEq, Eq, Structural)]
pub enum CursorKind {
    NoCursor,
    Default,
    Pointer,
    ContextMenu,
    Help,
    Progress,
    Wait,
    Cell,
    Crosshair,
    Text,
    VerticalText,
    Alias,
    Copy,
    Move,
    NoDrop,
    NotAllowed,
    Grab,
    Grabbing,
    EResize,
    NResize,
    NeResize,
    NwResize,
    SResize,
    SeResize,
    SwResize,
    WResize,
    EwResize,
    NsResize,
    NeswResize,
    NwseResize,
    ColResize,
    RowResize,
    AllScroll,
    ZoomIn,
    ZoomOut,
}

/// A key press as the engine receives it.
#[derive(Clone, Copy, Debug, PartialEq, Eq, Structural)]
pub struct KeyboardEvent {
    pub key: Key,
    pub modifiers: KeyModifiers,
}

/// What a pointer button did. The host adds the position.
#[derive(Clone, Copy, Debug, PartialEq, Eq, Structural)]
pub enum MouseWindowEvent {
    Click(MouseButton),
    MouseDown(MouseButton),
    MouseUp(MouseButton),
}

/// An event for the engine.
///
/// The host delivers the events of a list one by one, in order. To those
/// that stand for a value passing through, it adds the value: the address to
/// `NewBrowser` and `LoadUrl`, the factor to `Zoom`, the pointer's position
/// to the pointer events.
#[derive(Clone, Copy, Debug, PartialEq, Eq, Structural)]
pub enum WindowEvent {
    /// The widget has a new size.
    Resize,
    /// Load an address in the browser.
    LoadUrl(BrowserId),
    /// Walk the browser's history.
    Navigation(BrowserId, TraversalDirection),
    /// Load the current page again.
    Reload(BrowserId),
    /// Open a browser under the given name.
    NewBrowser(BrowserId),
    /// Show the browser.
    SelectBrowser(BrowserId),
    /// Close the browser.
    CloseBrowser(BrowserId),
    /// A pointer button was pressed, released or clicked.
    MouseWindowEventClass(MouseWindowEvent),
    /// The pointer moved.
    MouseWindowMoveEventClass,
    /// Scroll by `(dx, dy)` at the point `(x, y)`.
    Scroll { dx: i32, dy: i32, x: i32, y: i32, phase: TouchEventType },
    /// Multiply the zoom level.
    Zoom,
    /// Set the zoom level back to 1.
    ResetZoom,
    /// A key was pressed.
    Keyboard(KeyboardEvent),
}

/// A set of modifier keys, one bit for each.
#[derive(Clone, Copy, Debug, PartialEq, Eq, Structural)]
pub struct KeyModifiers {
    pub bits: u8,
}

/// Bit of the shift key in a `KeyModifiers`.
pub const SHIFT: u8 = 0x01;

/// Bit of the control key in a `KeyModifiers`.
pub const CONTROL: u8 = 0x02;

/// Bit of the alt key in a `KeyModifiers`.
pub const ALT: u8 = 0x04;

/// Bit of the super key in a `KeyModifiers`.
pub const SUPER: u8 = 0x08;

impl KeyModifiers {
    /// Whether every bit of `flags` is set.
    pub open spec fn has(self, flags: u8) -> bool {
        self.bits & flags == flags
    }

    /// The set with no modifier in it.
    pub fn empty() -> (set: KeyModifiers)
        ensures
            set.bits == 0,
    {
        KeyModifiers { bits: 0 }
    }

    /// The bits of the set.
    pub fn bits(&self) -> (bits: u8)
        ensures
            bits == self.bits,
    {
        self.bits
    }

    /// Tells whether every bit of `flags` is set.
    pub fn contains(&self, flags: u8) -> (found: bool)
        ensures
            found == self.has(flags),
    {
        self.bits & flags == flags
    }

    /// Sets the bits of `flags` and leaves the others as they are.
    pub fn insert(&mut self, flags: u8)
        ensures
            final(self).bits == old(self).bits | flags,
    {
        self.bits = self.bits | flags;
    }
}

} // verus!
