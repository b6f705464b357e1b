//! Event-loop bootstrap: routing window events to the typed hooks of an
//! [`AppState`], and the outcome of a run.

use vstd::prelude::*;

use crate::error::AppkitError;
use crate::event::{AppEvent, EventResponse};
use crate::AppState;

verus! {

/// Outcome of running a GPU application's event loop.
#[derive(Debug, Clone, Copy, PartialEq, Eq, Structural)]
#[non_exhaustive]
pub enum RunOutcome {
    /// The event loop returned normally (window closed, user quit).
    Exited,
}

/// The window an application asks for at startup.
#[derive(Debug)]
pub struct WindowSettings {
    /// Window title.
    pub title: String,
    /// Initial width in physical pixels.
    pub width: u32,
    /// Initial height in physical pixels.
    pub height: u32,
    /// Whether the user may resize the window.
    pub resizable: bool,
    /// Whether presentation waits for vsync.
    pub vsync: bool,
    /// Whether the window background is transparent.
    pub transparent: bool,
}

/// Build the application state from its config.
///
/// The result is one outcome of `S::init` on `config`: its state as it
/// came, or its error wrapped as [`AppkitError::AppInit`].
pub fn init_state<S: AppState>(config: S::Config) -> (r: Result<S, AppkitError>)
    ensures
        exists|out: Result<S, anyhow::Error>|
            call_ensures(S::init, (config,), out) && r == match out {
                Ok(state) => Ok(state),
                Err(e) => Err(AppkitError::AppInit(e)),
            },
{
    match S::init(config) {
        Ok(state) => Ok(state),
        Err(e) => Err(AppkitError::AppInit(e)),
    }
}

/// Read the window metadata of `state`: its title, size, resizability,
/// vsync and transparency, each as the state's accessor gives it.
pub fn window_settings<S: AppState>(state: &S) -> (w: WindowSettings)
    ensures
        call_ensures(S::window_title, (state,), w.title),
        call_ensures(S::window_size, (state,), (w.width, w.height)),
        call_ensures(S::resizable, (state,), w.resizable),
        call_ensures(S::vsync, (state,), w.vsync),
        call_ensures(S::transparent, (state,), w.transparent),
{
    let title = state.window_title();
    let (width, height) = state.window_size();
    let resizable = state.resizable();
    let vsync = state.vsync();
    let transparent = state.transparent();
    WindowSettings { title, width, height, resizable, vsync, transparent }
}

/// The outcome of a run from what the event loop returned: a normal return
/// is [`RunOutcome::Exited`], an error is wrapped as [`AppkitError::Madori`].
pub fn run_outcome(looped: Result<(), madori::MadoriError>) -> (r: Result<RunOutcome, AppkitError>)
    ensures
        r == match looped {
            Ok(()) => Ok(RunOutcome::Exited),
            Err(e) => Err(AppkitError::Madori(e)),
        },
{
    match looped {
        Ok(()) => Ok(RunOutcome::Exited),
        Err(e) => Err(AppkitError::Madori(e)),
    }
}

/// Hand a window event to the hook of `state` that handles it.
///
/// A key, redraw or close event is one call of `on_key`, `on_redraw` or
/// `on_close` on the state, and that call's response is the answer. A
/// resize is one call of `on_resize` with the new width and height,
/// answered with a response that asks nothing. Every other event (focus,
/// mouse, IME, file drag and drop, modifier changes) leaves the state as it
/// was and asks nothing.
pub fn dispatch<S: AppState>(event: &AppEvent, state: &mut S) -> (resp: EventResponse)
    ensures
        match *event {
            AppEvent::Key(key) => exists|m: &mut S|
                *m == *old(state) && *final(m) == *final(state)
                    && call_ensures(S::on_key, (m, &key), resp),
            AppEvent::RedrawRequested => exists|m: &mut S|
                *m == *old(state) && *final(m) == *final(state)
                    && call_ensures(S::on_redraw, (m,), resp),
            AppEvent::CloseRequested => exists|m: &mut S|
                *m == *old(state) && *final(m) == *final(state)
                    && call_ensures(S::on_close, (m,), resp),
            AppEvent::Resized { width, height } => resp.is_default() && exists|m: &mut S|
                *m == *old(state) && *final(m) == *final(state)
                    && call_ensures(S::on_resize, (m, width, height), ()),
            _ => resp.is_default() && *final(state) == *old(state),
        },
{
    match event {
        AppEvent::Key(k) => state.on_key(k),
        AppEvent::RedrawRequested => state.on_redraw(),
        AppEvent::CloseRequested => state.on_close(),
        AppEvent::Resized { width, height } => {
            state.on_resize(*width, *height);
            EventResponse::default()
        },
        _ => EventResponse::default(),
    }
}

} // verus!
