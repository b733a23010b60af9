use e_voice::app::{run, AppArgs, RunMode, DEFAULT_APP_PORT};

/// `--headless` must resolve to `RunMode::Headless`, NOT `RunMode::Desktop`.
#[test]
fn test_headless_flag_no_tauri() {
    let args = AppArgs {
        headless: true,
        port: 4242,
    };
    let mode = RunMode::from_args(&args);
    assert_eq!(
        mode,
        RunMode::Headless { port: 4242 },
        "--headless must produce RunMode::Headless, not Desktop"
    );
    // Confirm it is explicitly NOT the Desktop variant.
    assert_ne!(mode, RunMode::Desktop);
}

/// Without `--headless`, the mode must be `RunMode::Desktop`.
#[test]
fn test_default_mode_starts_tauri() {
    let args = AppArgs {
        headless: false,
        port: 4242,
    };
    let mode = RunMode::from_args(&args);
    assert_eq!(
        mode,
        RunMode::Desktop,
        "default (no --headless) must produce RunMode::Desktop"
    );
}

/// Custom port is preserved in headless mode.
#[test]
fn test_headless_custom_port() {
    let args = AppArgs {
        headless: true,
        port: 9090,
    };
    let mode = RunMode::from_args(&args);
    assert_eq!(mode, RunMode::Headless { port: 9090 });
}

/// `RunMode::Desktop` and `RunMode::Headless` are distinct variants.
#[test]
fn test_run_modes_are_distinct() {
    assert_ne!(RunMode::Desktop, RunMode::Headless { port: 4242 });
}

#[test]
fn app_starts_gui_only_without_headless() {
    let start = run(&AppArgs {
        headless: true,
        port: DEFAULT_APP_PORT,
    });
    assert!(!start.gui);
    assert_eq!(
        start.output.as_deref(),
        Some("headless mode, HTTP server on 4242")
    );
    let start = run(&AppArgs {
        headless: false,
        port: DEFAULT_APP_PORT,
    });
    assert!(start.gui);
    assert!(start.output.is_none());
}
