//! A handle on one browser, for a host that only needs to reload it.

use vstd::prelude::*;
use crate::engine::{BrowserId, WindowEvent};

verus! {

/// A handle on one browser.
#[derive(Clone, Copy, Debug, PartialEq, Eq, Structural)]
pub struct WebViewController {
    /// The browser that the handle speaks for.
    pub browser_id: BrowserId,
}

impl WebViewController {
    /// A handle on the browser `browser_id`.
    pub fn new(browser_id: BrowserId) -> (controller: WebViewController)
        ensures
            controller.browser_id == browser_id,
    {
        WebViewController { browser_id }
    }

    /// Loads the browser's page again, without selecting the browser first.
    pub fn reload(&self) -> (events: Vec<WindowEvent>)
        ensures
            events@ == seq![WindowEvent::Reload(self.browser_id)],
    {
        let event = WindowEvent::Reload(self.browser_id);
        vec![event]
    }
}

} // verus!
