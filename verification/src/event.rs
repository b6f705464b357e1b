//! The events a window delivers and the response a handler gives back.
//!
//! These mirror the event loop's own types field for field. The payloads that
//! no decision here reads (key, mouse and IME details, paths, modifiers, the
//! pointer icon) are carried through untouched.

use vstd::prelude::*;

verus! {

#[verifier::external_type_specification]
#[verifier::external_body]
pub struct ExKeyEvent(madori::KeyEvent);

#[verifier::external_type_specification]
#[verifier::external_body]
pub struct ExMouseEvent(madori::MouseEvent);

#[verifier::external_type_specification]
#[verifier::external_body]
pub struct ExImeEvent(madori::ImeEvent);

#[verifier::external_type_specification]
#[verifier::external_body]
pub struct ExModifiers(madori::Modifiers);

#[verifier::external_type_specification]
#[verifier::external_body]
pub struct ExPointerIcon(madori::PointerIcon);

#[verifier::external_type_specification]
#[verifier::external_body]
pub struct ExPathBuf(std::path::PathBuf);

/// An event delivered by the window's event loop.
pub enum AppEvent {
    /// Window resized to new physical dimensions.
    Resized { width: u32, height: u32 },
    /// Window close requested.
    CloseRequested,
    /// Window gained or lost focus.
    Focused(bool),
    /// Keyboard input.
    Key(madori::KeyEvent),
    /// Mouse input.
    Mouse(madori::MouseEvent),
    /// IME composition update.
    Ime(madori::ImeEvent),
    /// A file was dropped onto the window.
    DroppedFile(std::path::PathBuf),
    /// A file is being dragged over the window.
    HoveredFile(std::path::PathBuf),
    /// A hovered drag left the window without dropping.
    HoveredFileCancelled,
    /// The held keyboard modifiers changed.
    ModifiersChanged(madori::Modifiers),
    /// Redraw requested (vsync tick or explicit).
    RedrawRequested,
}

/// Actions an event handler asks of the event loop.
#[derive(Debug, Clone)]
pub struct EventResponse {
    /// Whether the event was consumed (prevents default handling).
    pub consumed: bool,
    /// Request the event loop to exit.
    pub exit: bool,
    /// Request a window title change.
    pub set_title: Option<String>,
    /// Request fullscreen toggle.
    pub toggle_fullscreen: bool,
    /// Request cursor visibility change (`None` = no change).
    pub set_cursor_visible: Option<bool>,
    /// Request a pointer icon change (`None` = no change).
    pub set_cursor_icon: Option<madori::PointerIcon>,
}

impl EventResponse {
    /// A response that asks nothing: not consumed, no exit, no title,
    /// fullscreen, cursor or pointer change.
    pub open spec fn is_default(&self) -> bool {
        &&& !self.consumed
        &&& !self.exit
        &&& self.set_title is None
        &&& !self.toggle_fullscreen
        &&& self.set_cursor_visible is None
        &&& self.set_cursor_icon is None
    }
}

impl Default for EventResponse {
    fn default() -> (r: Self)
        ensures
            r.is_default(),
    {
        EventResponse {
            consumed: false,
            exit: false,
            set_title: None,
            toggle_fullscreen: false,
            set_cursor_visible: None,
            set_cursor_icon: None,
        }
    }
}

} // verus!
