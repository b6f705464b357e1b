//! Shared GPU application bootstrap: typed event dispatch, window metadata
//! defaults and the error seam between an application and its event loop.
//!
//! An application implements [`AppState`] on its render and state type; its
//! window events are then routed to the typed hooks by [`app::dispatch`].

pub mod app;
pub mod error;
pub mod event;

pub use app::{dispatch, init_state, run_outcome, window_settings, RunOutcome, WindowSettings};
pub use error::{AppkitError, ErrorSource};
pub use event::{AppEvent, EventResponse};
pub use madori::KeyEvent;

use vstd::prelude::*;

verus! {

#[verifier::external_type_specification]
#[verifier::external_body]
pub struct ExAnyhowError(anyhow::Error);

/// Shared application surface: init from config, expose window metadata,
/// handle events.
///
/// The event hooks default to a response that asks nothing of the event
/// loop (not consumed, no exit); an application overrides only what it
/// cares about.
pub trait AppState: Sized + 'static {
    /// Application-specific config, loaded before `init`.
    type Config: Default + Clone + Send + Sync;

    /// Construct the application from its loaded config. Runs before the
    /// event loop; an error here is surfaced to the caller of the run.
    fn init(config: Self::Config) -> Result<Self, anyhow::Error>;

    /// Window title. Read at startup; not live-updated.
    fn window_title(&self) -> String;

    /// Initial window size. Defaults to 1280×720.
    fn window_size(&self) -> (r: (u32, u32))
        default_ensures
            r == (1280u32, 720u32),
    {
        (1280, 720)
    }

    /// Whether the window is resizable. Defaults to true.
    fn resizable(&self) -> (r: bool)
        default_ensures
            r,
    {
        true
    }

    /// Whether to enable vsync. Defaults to true.
    fn vsync(&self) -> (r: bool)
        default_ensures
            r,
    {
        true
    }

    /// Whether the window background is transparent. Defaults to false.
    fn transparent(&self) -> (r: bool)
        default_ensures
            !r,
    {
        false
    }

    /// Handle a key event. Default: not consumed, state untouched.
    #[must_use]
    fn on_key(&mut self, event: &madori::KeyEvent) -> (r: EventResponse)
        default_ensures
            r.is_default(),
            *final(self) == *old(self),
    {
        EventResponse::default()
    }

    /// Handle a per-frame redraw. Default: not consumed, state untouched.
    #[must_use]
    fn on_redraw(&mut self) -> (r: EventResponse)
        default_ensures
            r.is_default(),
            *final(self) == *old(self),
    {
        EventResponse::default()
    }

    /// Handle the window-close request. Default: not consumed, so the event
    /// loop exits; a consumed response vetoes the close.
    #[must_use]
    fn on_close(&mut self) -> (r: EventResponse)
        default_ensures
            r.is_default(),
            *final(self) == *old(self),
    {
        EventResponse::default()
    }

    /// Handle a window resize. Default: no-op.
    fn on_resize(&mut self, width: u32, height: u32)
        default_ensures
            *final(self) == *old(self),
    {
    }
}

} // verus!
