use appkit::{AppState, KeyEvent};
use madori::event::{KeyCode, Modifiers};

/// Bare-bones state that overrides only the required accessors.
struct BareState;

#[derive(Default, Clone)]
struct BareConfig {}

impl AppState for BareState {
    type Config = BareConfig;

    fn init(_: Self::Config) -> anyhow::Result<Self> {
        Ok(BareState)
    }

    fn window_title(&self) -> String {
        "bare".into()
    }
}

#[test]
fn default_window_size_is_720p_landscape() {
    assert_eq!(BareState.window_size(), (1280, 720));
}

#[test]
fn default_resizable_is_true() {
    assert!(BareState.resizable());
}

#[test]
fn default_vsync_is_on() {
    assert!(BareState.vsync());
}

#[test]
fn default_transparent_is_false() {
    assert!(!BareState.transparent());
}

#[test]
fn default_on_key_returns_default_event_response() {
    let ev = KeyEvent {
        key: KeyCode::Escape,
        pressed: true,
        modifiers: Modifiers::default(),
        text: None,
    };
    let mut s = BareState;
    let resp = s.on_key(&ev);
    assert!(!resp.consumed);
    assert!(!resp.exit);
}

#[test]
fn default_on_redraw_does_not_exit() {
    let mut s = BareState;
    let resp = s.on_redraw();
    assert!(!resp.exit);
}

#[test]
fn default_on_close_does_not_veto() {
    let mut s = BareState;
    let resp = s.on_close();
    assert!(!resp.consumed, "default on_close must not veto close");
}

#[test]
fn default_on_resize_is_noop() {
    let mut s = BareState;
    s.on_resize(640, 480);
}

#[test]
fn required_window_title_is_exposed_by_override() {
    assert_eq!(BareState.window_title(), "bare");
}

#[test]
fn init_consumes_default_config() {
    let cfg = BareConfig::default();
    assert!(<BareState as AppState>::init(cfg).is_ok());
}
