use appkit::{AppkitError, ErrorSource};

fn madori_render_error(text: &str) -> madori::MadoriError {
    madori::MadoriError::Render(text.to_string())
}

#[test]
fn app_init_display_format() {
    let inner = anyhow::Error::msg("config missing");
    let err = AppkitError::AppInit(inner);
    assert_eq!(err.to_string(), "app init: config missing");
}

#[test]
fn app_init_source_preserved() {
    let inner = anyhow::Error::msg("root cause");
    let err = AppkitError::AppInit(inner);
    let source = err.source();
    assert!(source.is_some());
    assert!(source.unwrap().to_string().contains("root cause"));
}

#[test]
fn app_init_message_does_not_duplicate_source() {
    let err = AppkitError::AppInit(anyhow::Error::msg("unique-token-9a9a"));
    let rendered = err.to_string();
    let count = rendered.matches("unique-token-9a9a").count();
    assert_eq!(count, 1, "source appears {count}× in `{rendered}`");
}

#[test]
fn variants_are_distinguishable() {
    let init = AppkitError::AppInit(anyhow::Error::msg("x"));
    match init {
        AppkitError::AppInit(_) => {}
        AppkitError::Madori(_) => panic!("AppInit matched Madori"),
        _ => panic!("AppInit matched no variant"),
    }
}

#[test]
fn debug_format_includes_variant_name() {
    let err = AppkitError::AppInit(anyhow::Error::msg("x"));
    let debug = format!("{err:?}");
    assert!(debug.contains("AppInit"), "debug was `{debug}`");
}

#[test]
fn madori_display_format() {
    let err = AppkitError::Madori(madori_render_error("surface lost"));
    assert_eq!(err.to_string(), "madori: render error: surface lost");
}

#[test]
fn madori_source_preserved() {
    let err = AppkitError::Madori(madori_render_error("surface lost"));
    match err.source() {
        Some(ErrorSource::Madori(e)) => assert_eq!(e.to_string(), "render error: surface lost"),
        other => panic!("expected the event loop's error, got {other:?}"),
    }
    assert_eq!(err.source().unwrap().to_string(), "render error: surface lost");
}

#[test]
fn app_init_source_is_the_init_error() {
    let err = AppkitError::AppInit(anyhow::Error::msg("bad config"));
    match err.source() {
        Some(ErrorSource::AppInit(e)) => assert_eq!(e.to_string(), "bad config"),
        other => panic!("expected the init error, got {other:?}"),
    }
}

#[test]
fn debug_format_includes_madori_variant_name() {
    let err = AppkitError::Madori(madori_render_error("x"));
    let debug = format!("{err:?}");
    assert!(debug.contains("Madori"), "debug was `{debug}`");
}

#[test]
fn event_loop_error_converts_into_madori_variant() {
    let err: AppkitError = madori::MadoriError::Window("no display".to_string()).into();
    match &err {
        AppkitError::Madori(_) => {}
        other => panic!("expected the Madori variant, got {other:?}"),
    }
    assert_eq!(err.to_string(), "madori: window creation failed: no display");
}
