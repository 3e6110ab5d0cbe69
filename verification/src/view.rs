//! The web view: what it knows of its browser, and what it tells the engine
//! when the host asks for something or the toolkit reports input.
//!
//! Every operation returns the events that the host is to deliver to the
//! engine. Until the view is prepared there is no browser, and the host's
//! requests give no event.

use vstd::prelude::*;
use crate::convert::{
    is_mouse_button, key, key_press_of, modifiers, modifiers_of, mouse_button, mouse_button_of,
};
use crate::engine::{
    BrowserId, KeyboardEvent, MouseWindowEvent, TouchEventType, TraversalDirection, WindowEvent,
};
use crate::keyval;
use crate::toolkit::{
    ModifierType, ScrollDirection, BUTTON_PRESS_MASK, BUTTON_RELEASE_MASK, CONTROL_MASK,
    POINTER_MOTION_MASK, SCROLL_MASK,
};
use crate::window::GtkWindow;

verus! {

/// How far one notch of the scroll wheel moves the page.
pub const SCROLL_STEP: i32 = 38;

/// The events that the view's widget asks the toolkit for, besides those
/// that every widget gets: button presses and releases, pointer motion and
/// scrolling.
pub const EVENT_MASK: u32 = BUTTON_PRESS_MASK | BUTTON_RELEASE_MASK | POINTER_MOTION_MASK
    | SCROLL_MASK;

/// The least width and height that the view's widget asks for.
pub const MIN_SIZE: i32 = 200;

/// The address that a view shows first.
pub const HOME_PAGE: &'static str = "https://servo.org";

/// The state of a web view.
pub struct WebView {
    /// The view's browser, once the view is prepared.
    pub browser_id: Option<BrowserId>,
    /// Where the pointer was when it last moved over the view.
    pub pointer: (i32, i32),
    /// What the engine has reported of the page.
    pub window: GtkWindow,
}

/// The phase that a scroll in the given direction is reported with.
pub open spec fn scroll_phase(direction: ScrollDirection) -> TouchEventType {
    match direction {
        ScrollDirection::Down => TouchEventType::Down,
        ScrollDirection::Up => TouchEventType::Up,
        _ => TouchEventType::Cancel,
    }
}

/// The vertical distance of a scroll in the given phase: one step up or
/// down, or nothing.
pub open spec fn scroll_distance(phase: TouchEventType) -> int {
    match phase {
        TouchEventType::Up => SCROLL_STEP as int,
        TouchEventType::Down => -SCROLL_STEP,
        _ => 0,
    }
}

/// The events of a key press: the key with the modifiers held, if the
/// symbol has a key. A symbol outside the table gives no event.
pub open spec fn key_press_events(symbol: keyval::Key, unicode: Option<char>, state: ModifierType) -> Seq<
    WindowEvent,
> {
    match key_press_of(symbol, unicode).1 {
        Some(key) => seq![
            WindowEvent::Keyboard(KeyboardEvent { key, modifiers: modifiers_of(state) }),
        ],
        None => Seq::empty(),
    }
}

/// The events of a scroll at `pointer`: none while control is held, which
/// leaves the wheel to the host.
pub open spec fn scroll_events(pointer: (i32, i32), state: ModifierType, direction: ScrollDirection) -> Seq<
    WindowEvent,
> {
    if state.has(CONTROL_MASK) {
        Seq::empty()
    } else {
        seq![
            WindowEvent::Scroll {
                dx: 0,
                dy: scroll_distance(scroll_phase(direction)) as i32,
                x: pointer.0,
                y: pointer.1,
                phase: scroll_phase(direction),
            },
        ]
    }
}

impl WebView {
    /// A view that is not prepared yet, with the pointer at the origin.
    pub fn new() -> (view: WebView)
        ensures
            view.browser_id is None,
            view.pointer == (0i32, 0i32),
            view.window == GtkWindow::initial(),
    {
        WebView { browser_id: None, pointer: (0, 0), window: GtkWindow::new() }
    }

    /// Opens the view's browser under the name `browser_id` and selects it.
    pub fn prepare(&mut self, browser_id: BrowserId) -> (events: Vec<WindowEvent>)
        ensures
            events@ == seq![
                WindowEvent::NewBrowser(browser_id),
                WindowEvent::SelectBrowser(browser_id),
            ],
            *final(self) == (WebView { browser_id: Some(browser_id), ..*old(self) }),
    {
        self.browser_id = Some(browser_id);
        vec![WindowEvent::NewBrowser(browser_id), WindowEvent::SelectBrowser(browser_id)]
    }

    /// Selects the view's browser.
    pub fn activate(&self) -> (events: Vec<WindowEvent>)
        ensures
            events@ == match self.browser_id {
                Some(id) => seq![WindowEvent::SelectBrowser(id)],
                None => Seq::empty(),
            },
    {
        match self.browser_id {
            Some(id) => vec![WindowEvent::SelectBrowser(id)],
            None => Vec::new(),
        }
    }

    /// Selects the browser and hands it `event`, if there is a browser.
    fn with_servo(&self, event: WindowEvent) -> (events: Vec<WindowEvent>)
        ensures
            events@ == match self.browser_id {
                Some(id) => seq![WindowEvent::SelectBrowser(id), event],
                None => Seq::empty(),
            },
    {
        let mut events = self.activate();
        if self.browser_id.is_some() {
            events.push(event);
        }
        events
    }

    /// Goes one entry back in the history.
    pub fn back(&self) -> (events: Vec<WindowEvent>)
        ensures
            events@ == match self.browser_id {
                Some(id) => seq![
                    WindowEvent::SelectBrowser(id),
                    WindowEvent::Navigation(id, TraversalDirection::Back(1)),
                ],
                None => Seq::empty(),
            },
    {
        match self.browser_id {
            Some(id) => self.with_servo(WindowEvent::Navigation(id, TraversalDirection::Back(1))),
            None => Vec::new(),
        }
    }

    /// Tells whether the history has an entry before the current one.
    pub fn can_go_back(&self) -> (possible: bool)
        ensures
            possible == self.window.can_go_back,
    {
        self.window.can_go_back()
    }

    /// Tells whether the history has an entry after the current one.
    pub fn can_go_forward(&self) -> (possible: bool)
        ensures
            possible == self.window.can_go_forward,
    {
        self.window.can_go_forward()
    }

    /// Closes the browser.
    pub fn close(&self) -> (events: Vec<WindowEvent>)
        ensures
            events@ == match self.browser_id {
                Some(id) => seq![WindowEvent::SelectBrowser(id), WindowEvent::CloseBrowser(id)],
                None => Seq::empty(),
            },
    {
        match self.browser_id {
            Some(id) => self.with_servo(WindowEvent::CloseBrowser(id)),
            None => Vec::new(),
        }
    }

    /// Goes one entry forward in the history.
    pub fn forward(&self) -> (events: Vec<WindowEvent>)
        ensures
            events@ == match self.browser_id {
                Some(id) => seq![
                    WindowEvent::SelectBrowser(id),
                    WindowEvent::Navigation(id, TraversalDirection::Forward(1)),
                ],
                None => Seq::empty(),
            },
    {
        match self.browser_id {
            Some(id) => self.with_servo(WindowEvent::Navigation(id, TraversalDirection::Forward(1))),
            None => Vec::new(),
        }
    }

    /// Gives the page's title.
    pub fn get_title(&self) -> (title: Option<String>)
        ensures
            title == self.window.title,
    {
        self.window.get_title()
    }

    /// Gives the page's address.
    pub fn get_url(&self) -> (url: Option<String>)
        ensures
            url == self.window.url,
    {
        self.window.get_url()
    }

    /// Loads an address. `well_formed` says whether the address could be
    /// read as one: the browser is selected either way, and an address that
    /// could not be read is not loaded.
    pub fn load(&self, well_formed: bool) -> (events: Vec<WindowEvent>)
        ensures
            events@ == match self.browser_id {
                Some(id) => if well_formed {
                    seq![WindowEvent::SelectBrowser(id), WindowEvent::LoadUrl(id)]
                } else {
                    seq![WindowEvent::SelectBrowser(id)]
                },
                None => Seq::empty(),
            },
    {
        let mut events = self.activate();
        if let Some(id) = self.browser_id {
            if well_formed {
                events.push(WindowEvent::LoadUrl(id));
            }
        }
        events
    }

    /// Loads the current page again.
    pub fn reload(&self) -> (events: Vec<WindowEvent>)
        ensures
            events@ == match self.browser_id {
                Some(id) => seq![WindowEvent::SelectBrowser(id), WindowEvent::Reload(id)],
                None => Seq::empty(),
            },
    {
        match self.browser_id {
            Some(id) => self.with_servo(WindowEvent::Reload(id)),
            None => Vec::new(),
        }
    }

    /// Sets the zoom level back to 1.
    pub fn reset_zoom(&self) -> (events: Vec<WindowEvent>)
        ensures
            events@ == match self.browser_id {
                Some(id) => seq![WindowEvent::SelectBrowser(id), WindowEvent::ResetZoom],
                None => Seq::empty(),
            },
    {
        self.with_servo(WindowEvent::ResetZoom)
    }

    /// Multiplies the zoom level by the host's factor.
    pub fn zoom(&self) -> (events: Vec<WindowEvent>)
        ensures
            events@ == match self.browser_id {
                Some(id) => seq![WindowEvent::SelectBrowser(id), WindowEvent::Zoom],
                None => Seq::empty(),
            },
    {
        self.with_servo(WindowEvent::Zoom)
    }

    /// A key was pressed: `keyval` is its symbol, `unicode` the character
    /// that the toolkit gives for the symbol, `state` the event's state mask.
    pub fn key_press_event(&self, keyval: keyval::Key, unicode: Option<char>, state: ModifierType) -> (events:
        Vec<WindowEvent>)
        ensures
            events@ == key_press_events(keyval, unicode, state),
    {
        let (_, key) = key(keyval, unicode);
        match key {
            Some(key) => {
                let modifiers = modifiers(state);
                vec![WindowEvent::Keyboard(KeyboardEvent { key, modifiers })]
            },
            None => Vec::new(),
        }
    }

    /// A pointer button was pressed.
    pub fn button_press_event(&self, button: u32) -> (events: Vec<WindowEvent>)
        requires
            is_mouse_button(button),
        ensures
            events@ == seq![
                WindowEvent::MouseWindowEventClass(
                    MouseWindowEvent::MouseDown(mouse_button_of(button)),
                ),
            ],
    {
        vec![WindowEvent::MouseWindowEventClass(MouseWindowEvent::MouseDown(mouse_button(button)))]
    }

    /// A pointer button was released, which also completes a click.
    pub fn button_release_event(&self, button: u32) -> (events: Vec<WindowEvent>)
        requires
            is_mouse_button(button),
        ensures
            events@ == seq![
                WindowEvent::MouseWindowEventClass(MouseWindowEvent::MouseUp(mouse_button_of(button))),
                WindowEvent::MouseWindowEventClass(MouseWindowEvent::Click(mouse_button_of(button))),
            ],
    {
        let button = mouse_button(button);
        vec![
            WindowEvent::MouseWindowEventClass(MouseWindowEvent::MouseUp(button)),
            WindowEvent::MouseWindowEventClass(MouseWindowEvent::Click(button)),
        ]
    }

    /// The pointer moved to `(x, y)`, which the view remembers.
    pub fn motion_notify_event(&mut self, x: i32, y: i32) -> (events: Vec<WindowEvent>)
        ensures
            events@ == seq![WindowEvent::MouseWindowMoveEventClass],
            *final(self) == (WebView { pointer: (x, y), ..*old(self) }),
    {
        self.pointer = (x, y);
        vec![WindowEvent::MouseWindowMoveEventClass]
    }

    /// The widget has a new size.
    pub fn resize(&self) -> (events: Vec<WindowEvent>)
        ensures
            events@ == seq![WindowEvent::Resize],
    {
        vec![WindowEvent::Resize]
    }

    /// The wheel turned in `direction` while the keys and buttons of `state`
    /// were held. The page scrolls under the pointer's last place.
    pub fn scroll_event(&self, state: ModifierType, direction: ScrollDirection) -> (events: Vec<
        WindowEvent,
    >)
        ensures
            events@ == scroll_events(self.pointer, state, direction),
    {
        if !state.contains(CONTROL_MASK) {
            let phase = match direction {
                ScrollDirection::Down => TouchEventType::Down,
                ScrollDirection::Up => TouchEventType::Up,
                ScrollDirection::Left => TouchEventType::Cancel,
                ScrollDirection::Right => TouchEventType::Cancel,
                ScrollDirection::Smooth => TouchEventType::Cancel,
            };
            let dx: i32 = 0;
            let dy: i32 = match phase {
                TouchEventType::Up => 1,
                TouchEventType::Down => -1,
                _ => 0,
            };
            let dy: i32 = dy * SCROLL_STEP;
            vec![WindowEvent::Scroll { dx, dy, x: self.pointer.0, y: self.pointer.1, phase }]
        } else {
            Vec::new()
        }
    }
}

} // verus!
