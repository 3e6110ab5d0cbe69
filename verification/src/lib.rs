//! Input handling and window state for a web view embedded in a toolkit
//! widget: toolkit key, button and scroll events become engine events, and
//! what the engine reports (title, history, cursor) is kept for the host.

pub mod controller;
pub mod convert;
pub mod engine;
pub mod keyval;
pub mod resources;
pub mod toolkit;
pub mod view;
pub mod window;
