//! What the engine has reported of the page that a view shows, and the
//! view's place on the screen.

use vstd::prelude::*;
use crate::engine::{AnimationState, CursorKind};

verus! {

/// A widget's rectangle, in the unsigned numbers that the engine takes.
#[derive(Clone, Copy, Debug, PartialEq, Eq, Structural)]
pub struct Allocation {
    pub x: u32,
    pub y: u32,
    pub width: u32,
    pub height: u32,
}

/// A size in device pixels.
#[derive(Clone, Copy, Debug, PartialEq, Eq, Structural)]
pub struct DeviceSize {
    pub width: u32,
    pub height: u32,
}

/// A point in device pixels.
#[derive(Clone, Copy, Debug, PartialEq, Eq, Structural)]
pub struct DevicePoint {
    pub x: i32,
    pub y: i32,
}

/// A rectangle in device pixels.
#[derive(Clone, Copy, Debug, PartialEq, Eq, Structural)]
pub struct DeviceRect {
    pub origin: DevicePoint,
    pub size: DeviceSize,
}

/// What the engine is told of the places it draws to, in device pixels. The
/// host adds the scale factor.
#[derive(Clone, Copy, Debug, PartialEq, Eq, Structural)]
pub struct EmbedderCoordinates {
    /// The size of the screen.
    pub screen: DeviceSize,
    /// The part of the screen that is free for windows.
    pub screen_avail: DeviceSize,
    /// The size of the window.
    pub window_size: DeviceSize,
    /// The origin of the window.
    pub window_origin: DevicePoint,
    /// The size of the buffer that the engine draws into.
    pub framebuffer: DeviceSize,
    /// The part of the buffer that shows the page.
    pub viewport: DeviceRect,
}

/// Where the scale between the engine's pixels and the device's comes from.
#[derive(Clone, Copy, Debug, PartialEq, Eq, Structural)]
pub enum HidpiSource {
    /// The factor that the engine's options give.
    Configured,
    /// The factor 1, for output that goes to a file.
    Unit,
    /// The scale factor of the widget's display.
    Device,
}

/// The page's state as the engine last reported it.
pub struct GtkWindow {
    /// Whether the engine is animating.
    pub animation_state: AnimationState,
    /// Whether the history has an entry before the current one.
    pub can_go_back: bool,
    /// Whether the history has an entry after the current one.
    pub can_go_forward: bool,
    /// The page's title, if it has one.
    pub title: Option<String>,
    /// The page's address, once a page is loaded.
    pub url: Option<String>,
}

/// A signed 32-bit number read as an unsigned one: a negative number wraps
/// round to the top of the range.
pub open spec fn reinterpret(value: i32) -> int {
    if value >= 0 {
        value as int
    } else {
        value + 0x1_0000_0000
    }
}

/// The rectangle that the engine is given for a widget's allocation.
pub open spec fn geometry_of(x: i32, y: i32, width: i32, height: i32) -> Allocation {
    Allocation {
        x: reinterpret(x) as u32,
        y: reinterpret(y) as u32,
        width: reinterpret(width) as u32,
        height: reinterpret(height) as u32,
    }
}

/// Reads a signed number as an unsigned one.
fn unsigned(value: i32) -> (result: u32)
    ensures
        result == reinterpret(value),
{
    let result: u32 = #[verifier::truncate] (value as u32);
    assert(value >= 0 ==> value as u32 == value) by (bit_vector);
    assert(value < 0 ==> value as u32 == value + 0x1_0000_0000) by (bit_vector);
    result
}

/// The coordinates of a widget of the given size and origin: the widget
/// stands for the window and for the screen, and the page fills it.
pub open spec fn coordinates_of(size: DeviceSize, origin: DevicePoint) -> EmbedderCoordinates {
    EmbedderCoordinates {
        screen: size,
        screen_avail: size,
        window_size: size,
        window_origin: origin,
        framebuffer: size,
        viewport: DeviceRect { origin: DevicePoint { x: 0, y: 0 }, size },
    }
}

/// Which factor scales the engine's pixels: the configured one if there is
/// one; else 1 when the output goes to a file; else the display's.
pub open spec fn hidpi_source_of(configured: bool, output_file: bool) -> HidpiSource {
    if configured {
        HidpiSource::Configured
    } else if output_file {
        HidpiSource::Unit
    } else {
        HidpiSource::Device
    }
}

/// The name under which the toolkit knows a cursor.
pub open spec fn cursor_name_of(cursor: CursorKind) -> Seq<char> {
    match cursor {
        CursorKind::NoCursor => "none"@,
        CursorKind::Default => "default"@,
        CursorKind::Pointer => "pointer"@,
        CursorKind::ContextMenu => "context-menu"@,
        CursorKind::Help => "help"@,
        CursorKind::Progress => "progress"@,
        CursorKind::Wait => "wait"@,
        CursorKind::Cell => "cell"@,
        CursorKind::Crosshair => "crosshair"@,
        CursorKind::Text => "text"@,
        CursorKind::VerticalText => "vertical-text"@,
        CursorKind::Alias => "alias"@,
        CursorKind::Copy => "copy"@,
        CursorKind::Move => "move"@,
        CursorKind::NoDrop => "no-drop"@,
        CursorKind::NotAllowed => "not-allowed"@,
        CursorKind::Grab => "grab"@,
        CursorKind::Grabbing => "grabbing"@,
        CursorKind::EResize => "e-resize"@,
        CursorKind::NResize => "n-resize"@,
        CursorKind::NeResize => "ne-resize"@,
        CursorKind::NwResize => "nw-resize"@,
        CursorKind::SResize => "s-resize"@,
        CursorKind::SeResize => "se-resize"@,
        CursorKind::SwResize => "sw-resize"@,
        CursorKind::WResize => "w-resize"@,
        CursorKind::EwResize => "ew-resize"@,
        CursorKind::NsResize => "ns-resize"@,
        CursorKind::NeswResize => "nesw-resize"@,
        CursorKind::NwseResize => "nwse-resize"@,
        CursorKind::ColResize => "col-resize"@,
        CursorKind::RowResize => "row-resize"@,
        CursorKind::AllScroll => "all-scroll"@,
        CursorKind::ZoomIn => "zoom-in"@,
        CursorKind::ZoomOut => "zoom-out"@,
    }
}

/// Gives the name under which the toolkit knows a cursor.
pub fn cursor_name(cursor: CursorKind) -> (name: &'static str)
    ensures
        name@ == cursor_name_of(cursor),
{
    match cursor {
        CursorKind::NoCursor => "none",
        CursorKind::Default => "default",
        CursorKind::Pointer => "pointer",
        CursorKind::ContextMenu => "context-menu",
        CursorKind::Help => "help",
        CursorKind::Progress => "progress",
        CursorKind::Wait => "wait",
        CursorKind::Cell => "cell",
        CursorKind::Crosshair => "crosshair",
        CursorKind::Text => "text",
        CursorKind::VerticalText => "vertical-text",
        CursorKind::Alias => "alias",
        CursorKind::Copy => "copy",
        CursorKind::Move => "move",
        CursorKind::NoDrop => "no-drop",
        CursorKind::NotAllowed => "not-allowed",
        CursorKind::Grab => "grab",
        CursorKind::Grabbing => "grabbing",
        CursorKind::EResize => "e-resize",
        CursorKind::NResize => "n-resize",
        CursorKind::NeResize => "ne-resize",
        CursorKind::NwResize => "nw-resize",
        CursorKind::SResize => "s-resize",
        CursorKind::SeResize => "se-resize",
        CursorKind::SwResize => "sw-resize",
        CursorKind::WResize => "w-resize",
        CursorKind::EwResize => "ew-resize",
        CursorKind::NsResize => "ns-resize",
        CursorKind::NeswResize => "nesw-resize",
        CursorKind::NwseResize => "nwse-resize",
        CursorKind::ColResize => "col-resize",
        CursorKind::RowResize => "row-resize",
        CursorKind::AllScroll => "all-scroll",
        CursorKind::ZoomIn => "zoom-in",
        CursorKind::ZoomOut => "zoom-out",
    }
}

/// No two cursors share a name.
pub proof fn lemma_cursor_names_distinct(first: CursorKind, second: CursorKind)
    requires
        cursor_name_of(first) == cursor_name_of(second),
    ensures
        first == second,
{
    reveal_strlit("none");
    reveal_strlit("default");
    reveal_strlit("pointer");
    reveal_strlit("context-menu");
    reveal_strlit("help");
    reveal_strlit("progress");
    reveal_strlit("wait");
    reveal_strlit("cell");
    reveal_strlit("crosshair");
    reveal_strlit("text");
    reveal_strlit("vertical-text");
    reveal_strlit("alias");
    reveal_strlit("copy");
    reveal_strlit("move");
    reveal_strlit("no-drop");
    reveal_strlit("not-allowed");
    reveal_strlit("grab");
    reveal_strlit("grabbing");
    reveal_strlit("e-resize");
    reveal_strlit("n-resize");
    reveal_strlit("ne-resize");
    reveal_strlit("nw-resize");
    reveal_strlit("s-resize");
    reveal_strlit("se-resize");
    reveal_strlit("sw-resize");
    reveal_strlit("w-resize");
    reveal_strlit("ew-resize");
    reveal_strlit("ns-resize");
    reveal_strlit("nesw-resize");
    reveal_strlit("nwse-resize");
    reveal_strlit("col-resize");
    reveal_strlit("row-resize");
    reveal_strlit("all-scroll");
    reveal_strlit("zoom-in");
    reveal_strlit("zoom-out");
    assert("none"@.len() == 4 && "none"@[0] == 'n' && "none"@[1] == 'o');
    assert("default"@.len() == 7 && "default"@[0] == 'd' && "default"@[1] == 'e');
    assert("pointer"@.len() == 7 && "pointer"@[0] == 'p' && "pointer"@[1] == 'o');
    assert("context-menu"@.len() == 12 && "context-menu"@[0] == 'c' && "context-menu"@[1] == 'o');
    assert("help"@.len() == 4 && "help"@[0] == 'h' && "help"@[1] == 'e');
    assert("progress"@.len() == 8 && "progress"@[0] == 'p' && "progress"@[1] == 'r');
    assert("wait"@.len() == 4 && "wait"@[0] == 'w' && "wait"@[1] == 'a');
    assert("cell"@.len() == 4 && "cell"@[0] == 'c' && "cell"@[1] == 'e');
    assert("crosshair"@.len() == 9 && "crosshair"@[0] == 'c' && "crosshair"@[1] == 'r');
    assert("text"@.len() == 4 && "text"@[0] == 't' && "text"@[1] == 'e');
    assert("vertical-text"@.len() == 13 && "vertical-text"@[0] == 'v' && "vertical-text"@[1] == 'e');
    assert("alias"@.len() == 5 && "alias"@[0] == 'a' && "alias"@[1] == 'l');
    assert("copy"@.len() == 4 && "copy"@[0] == 'c' && "copy"@[1] == 'o');
    assert("move"@.len() == 4 && "move"@[0] == 'm' && "move"@[1] == 'o');
    assert("no-drop"@.len() == 7 && "no-drop"@[0] == 'n' && "no-drop"@[1] == 'o');
    assert("not-allowed"@.len() == 11 && "not-allowed"@[0] == 'n' && "not-allowed"@[1] == 'o');
    assert("grab"@.len() == 4 && "grab"@[0] == 'g' && "grab"@[1] == 'r');
    assert("grabbing"@.len() == 8 && "grabbing"@[0] == 'g' && "grabbing"@[1] == 'r');
    assert("e-resize"@.len() == 8 && "e-resize"@[0] == 'e' && "e-resize"@[1] == '-');
    assert("n-resize"@.len() == 8 && "n-resize"@[0] == 'n' && "n-resize"@[1] == '-');
    assert("ne-resize"@.len() == 9 && "ne-resize"@[0] == 'n' && "ne-resize"@[1] == 'e');
    assert("nw-resize"@.len() == 9 && "nw-resize"@[0] == 'n' && "nw-resize"@[1] == 'w');
    assert("s-resize"@.len() == 8 && "s-resize"@[0] == 's' && "s-resize"@[1] == '-');
    assert("se-resize"@.len() == 9 && "se-resize"@[0] == 's' && "se-resize"@[1] == 'e');
    assert("sw-resize"@.len() == 9 && "sw-resize"@[0] == 's' && "sw-resize"@[1] == 'w');
    assert("w-resize"@.len() == 8 && "w-resize"@[0] == 'w' && "w-resize"@[1] == '-');
    assert("ew-resize"@.len() == 9 && "ew-resize"@[0] == 'e' && "ew-resize"@[1] == 'w');
    assert("ns-resize"@.len() == 9 && "ns-resize"@[0] == 'n' && "ns-resize"@[1] == 's');
    assert("nesw-resize"@.len() == 11 && "nesw-resize"@[0] == 'n' && "nesw-resize"@[1] == 'e');
    assert("nwse-resize"@.len() == 11 && "nwse-resize"@[0] == 'n' && "nwse-resize"@[1] == 'w');
    assert("col-resize"@.len() == 10 && "col-resize"@[0] == 'c' && "col-resize"@[1] == 'o');
    assert("row-resize"@.len() == 10 && "row-resize"@[0] == 'r' && "row-resize"@[1] == 'o');
    assert("all-scroll"@.len() == 10 && "all-scroll"@[0] == 'a' && "all-scroll"@[1] == 'l');
    assert("zoom-in"@.len() == 7 && "zoom-in"@[0] == 'z' && "zoom-in"@[1] == 'o');
    assert("zoom-out"@.len() == 8 && "zoom-out"@[0] == 'z' && "zoom-out"@[1] == 'o');
}

impl GtkWindow {
    /// The state before the engine has reported anything: idle, no history,
    /// no title and no address.
    pub open spec fn initial() -> GtkWindow {
        GtkWindow {
            animation_state: AnimationState::Idle,
            can_go_back: false,
            can_go_forward: false,
            title: None,
            url: None,
        }
    }

    /// The state before the engine has reported anything.
    pub fn new() -> (window: GtkWindow)
        ensures
            window == GtkWindow::initial(),
    {
        GtkWindow {
            animation_state: AnimationState::Idle,
            can_go_back: false,
            can_go_forward: false,
            title: None,
            url: None,
        }
    }

    /// Chooses the factor that scales the engine's pixels. `configured` says
    /// whether the engine's options give a factor, `output_file` whether its
    /// output goes to a file.
    pub fn servo_hidpi_factor(configured: bool, output_file: bool) -> (source: HidpiSource)
        ensures
            source == hidpi_source_of(configured, output_file),
    {
        if configured {
            HidpiSource::Configured
        } else {
            if output_file {
                HidpiSource::Unit
            } else {
                HidpiSource::Device
            }
        }
    }

    /// Tells whether the history has an entry before the current one.
    pub fn can_go_back(&self) -> (possible: bool)
        ensures
            possible == self.can_go_back,
    {
        self.can_go_back
    }

    /// Tells whether the history has an entry after the current one.
    pub fn can_go_forward(&self) -> (possible: bool)
        ensures
            possible == self.can_go_forward,
    {
        self.can_go_forward
    }

    /// Gives the engine's rectangle for a widget's allocation, whose four
    /// numbers the toolkit reports signed.
    pub fn get_geometry(x: i32, y: i32, width: i32, height: i32) -> (geometry: Allocation)
        ensures
            geometry == geometry_of(x, y, width, height),
    {
        Allocation {
            x: unsigned(x),
            y: unsigned(y),
            width: unsigned(width),
            height: unsigned(height),
        }
    }

    /// Gives the coordinates of the widget whose size and origin, scaled
    /// to device pixels, are `size` and `origin`.
    pub fn get_coordinates(size: DeviceSize, origin: DevicePoint) -> (coordinates: EmbedderCoordinates)
        ensures
            coordinates == coordinates_of(size, origin),
    {
        let screen = size;
        let win_size = screen;
        let win_origin = origin;
        let inner_size = size;
        let viewport = DeviceRect { origin: DevicePoint { x: 0, y: 0 }, size: inner_size };
        EmbedderCoordinates {
            viewport,
            framebuffer: inner_size,
            window_size: win_size,
            window_origin: win_origin,
            screen,
            screen_avail: screen,
        }
    }

    /// Gives the page's title.
    pub fn get_title(&self) -> (title: Option<String>)
        ensures
            title == self.title,
    {
        match &self.title {
            Some(title) => Some(title.clone()),
            None => None,
        }
    }

    /// Gives the page's address.
    pub fn get_url(&self) -> (url: Option<String>)
        ensures
            url == self.url,
    {
        match &self.url {
            Some(url) => Some(url.clone()),
            None => None,
        }
    }

    /// Records whether the engine is animating.
    pub fn set_animation_state(&mut self, state: AnimationState)
        ensures
            *final(self) == (GtkWindow { animation_state: state, ..*old(self) }),
    {
        self.animation_state = state;
    }

    /// Records the page's new title.
    pub fn set_page_title(&mut self, title: Option<String>)
        ensures
            *final(self) == (GtkWindow { title: title, ..*old(self) }),
    {
        self.title = title;
    }

    /// Records a change of the history: `entries` are the addresses of its
    /// pages and `current` is the place of the page shown. The page's
    /// address becomes the view's, and one can go back or forward exactly
    /// when there is an entry on that side.
    pub fn history_changed(&mut self, entries: &Vec<String>, current: usize)
        requires
            current < entries.len(),
        ensures
            *final(self) == (GtkWindow {
                can_go_back: current > 0,
                can_go_forward: current + 1 < entries.len(),
                url: Some(entries[current as int]),
                ..*old(self)
            }),
    {
        self.can_go_back = current > 0;
        self.can_go_forward = current < entries.len() - 1;
        self.url = Some(entries[current].clone());
    }
}

} // verus!
