use bevy_doryen::engine::{DoryenPluginEngine, ResizeAction};
use bevy_doryen::input::InputSnapshot;
use bevy_doryen::settings::{AppOptions, DoryenSettings, ResizeMode};
use bevy_doryen::{DoryenAppBuilder, DoryenPlugin};
use doryen_rs::Console;

fn quiet_snapshot() -> InputSnapshot {
    InputSnapshot {
        keys_down: Vec::new(),
        keys_pressed: Vec::new(),
        keys_released: Vec::new(),
        mouse_buttons_down: Vec::new(),
        mouse_position: (0, 0),
        close_requested: false,
        fps: 60,
        average_fps: 59,
    }
}

fn engine_with_settings(settings: DoryenSettings) -> DoryenPluginEngine {
    let mut builder = DoryenAppBuilder::new();
    builder.settings = settings;
    let (engine, _options) = DoryenPluginEngine::new(builder);
    engine
}

#[test]
fn automatic_resize_scales_by_startup_ratio() {
    let options = AppOptions {
        console_width: 80,
        console_height: 60,
        screen_width: 800,
        screen_height: 600,
        ..AppOptions::default()
    };
    let settings = DoryenSettings {
        app_options: Some(options),
        mouse_button_listeners: vec![0, 1, 2],
        resize_mode: ResizeMode::Automatic,
    };
    let mut engine = engine_with_settings(settings);
    let mut host = Console::new(80, 60);
    let outcome = engine.resize(&mut host, 1600, 600);
    assert_eq!(
        outcome.action,
        ResizeAction::Rescaled { width: 160, height: 60 }
    );
    // width ratio preserved, height unchanged
    assert_eq!(host.get_width(), 160);
    assert_eq!(host.get_height(), 60);
    assert_eq!(outcome.event.previous_width, 800);
    assert_eq!(outcome.event.previous_height, 600);
    assert_eq!(outcome.event.new_width, 1600);
    assert_eq!(outcome.event.new_height, 600);
}

#[test]
fn nothing_resize_mode_leaves_console_alone() {
    let mut engine = engine_with_settings(DoryenSettings::default());
    let mut host = Console::new(80, 45);
    let outcome = engine.resize(&mut host, 1600, 600);
    assert_eq!(outcome.action, ResizeAction::Ignored);
    assert_eq!(host.get_width(), 80);
    assert_eq!(host.get_height(), 45);
}

#[test]
fn callback_resize_mode_defers_to_the_driver() {
    let settings = DoryenSettings {
        app_options: None,
        mouse_button_listeners: vec![0, 1, 2],
        resize_mode: ResizeMode::Callback,
    };
    let mut engine = engine_with_settings(settings);
    let mut host = Console::new(80, 45);
    let outcome = engine.resize(&mut host, 1024, 768);
    assert_eq!(outcome.action, ResizeAction::InvokeCallback);
    assert_eq!(host.get_width(), 80);
    // the callback runs inside a take/restore bracket the driver opens
    assert!(engine.take_root_console_ownership(&mut host).is_ok());
    assert!(engine.restore_root_console_ownership(&mut host).is_ok());
    assert_eq!(host.get_width(), 80);
}

#[test]
fn font_change_last_write_wins() {
    let mut engine = engine_with_settings(DoryenSettings::default());
    let mut host = Console::new(80, 45);
    assert!(engine.update_begin(&mut host, quiet_snapshot()).is_ok());
    let fonts = vec!["first.png".to_owned(), "second.png".to_owned()];
    let outcome = engine.update_end(&mut host, &fonts, 0).unwrap();
    assert_eq!(outcome.font_path, Some("second.png".to_owned()));
    assert!(!outcome.exit);
}

#[test]
fn no_font_request_means_no_change() {
    let mut engine = engine_with_settings(DoryenSettings::default());
    let mut host = Console::new(80, 45);
    assert!(engine.update_begin(&mut host, quiet_snapshot()).is_ok());
    let outcome = engine.update_end(&mut host, &Vec::new(), 0).unwrap();
    assert_eq!(outcome.font_path, None);
}

#[test]
fn exit_signalled_once_however_many_requests() {
    let mut engine = engine_with_settings(DoryenSettings::default());
    let mut host = Console::new(80, 45);
    assert!(engine.update_begin(&mut host, quiet_snapshot()).is_ok());
    let outcome = engine.update_end(&mut host, &Vec::new(), 3).unwrap();
    assert!(outcome.exit);

    assert!(engine.update_begin(&mut host, quiet_snapshot()).is_ok());
    let outcome = engine.update_end(&mut host, &Vec::new(), 0).unwrap();
    assert!(!outcome.exit);
}

#[test]
fn update_refreshes_fps_and_input() {
    let mut engine = engine_with_settings(DoryenSettings::default());
    let mut host = Console::new(80, 45);
    let snapshot = InputSnapshot {
        mouse_buttons_down: vec![0],
        mouse_position: (5, 6),
        ..quiet_snapshot()
    };
    assert!(engine.update_begin(&mut host, snapshot).is_ok());
    assert_eq!(engine.fps.current, 60);
    assert_eq!(engine.fps.average, 59);
    assert!(engine.input.mouse_button(0));
    assert_eq!(engine.input.mouse_position(), (5, 6));
    assert!(engine.update_end(&mut host, &Vec::new(), 0).is_ok());
}

#[test]
fn settings_are_consumed_and_reset_to_default() {
    let mut settings = DoryenSettings {
        app_options: None,
        mouse_button_listeners: vec![4, 5],
        resize_mode: ResizeMode::Automatic,
    };
    let consumed = settings.consume();
    assert_eq!(consumed.mouse_button_listeners, vec![4, 5]);
    assert_eq!(consumed.resize_mode, ResizeMode::Automatic);
    // the slot shows the default again
    assert!(settings.app_options.is_none());
    assert_eq!(settings.mouse_button_listeners, vec![0, 1, 2]);
    assert_eq!(settings.resize_mode, ResizeMode::Nothing);
}

#[test]
fn engine_construction_consumes_settings_once() {
    let mut builder = DoryenAppBuilder::new();
    builder.settings.mouse_button_listeners = vec![2];
    builder.settings.resize_mode = ResizeMode::Callback;
    let (engine, options) = DoryenPluginEngine::new(builder);
    assert_eq!(engine.mouse_button_listeners, vec![2]);
    assert_eq!(engine.resize_mode, ResizeMode::Callback);
    // defaulted window options: 80 x 45 cells at 8 x 8 pixels
    assert_eq!(options.console_width, 80);
    assert_eq!(options.console_height, 45);
    assert_eq!(engine.cell_width, 8);
    assert_eq!(engine.cell_height, 8);
    assert_eq!(engine.screen_size, (640, 360));
    // the engine's own settings slot holds the default again
    assert!(engine.settings.app_options.is_none());
    assert_eq!(engine.settings.mouse_button_listeners, vec![0, 1, 2]);
}

#[test]
fn plugin_build_installs_fresh_resources() {
    let mut builder = DoryenAppBuilder::new();
    builder.settings.mouse_button_listeners = vec![9];
    DoryenPlugin.build(&mut builder);
    // settings the user placed are untouched, resources are fresh
    assert_eq!(builder.settings.mouse_button_listeners, vec![9]);
    assert!(builder.root_console.0.is_none());
    assert!(builder.render_systems.0.is_some());
    assert!(builder.render_state.dirty);
    assert!(builder.render_state.drivers.is_empty());
    assert!(!builder.input.close_requested());
}
