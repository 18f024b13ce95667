use bevy_doryen::engine::{DoryenPluginEngine, ProtocolError};
use bevy_doryen::DoryenAppBuilder;
use doryen_rs::Console;

fn fresh_engine() -> DoryenPluginEngine {
    let builder = DoryenAppBuilder::new();
    let (engine, _options) = DoryenPluginEngine::new(builder);
    engine
}

fn console_snapshot(con: &Console) -> (u32, u32, Vec<u32>) {
    (con.get_width(), con.get_height(), con.borrow_ascii().clone())
}

#[test]
fn take_restore_round_trip_preserves_console() {
    let mut engine = fresh_engine();
    let mut host = Console::new(80, 50);
    host.ascii(3, 4, 64);
    host.ascii(10, 20, 35);
    let before = console_snapshot(&host);

    assert!(engine.take_root_console_ownership(&mut host).is_ok());
    // while held, the host loop is left with the 1 x 1 parked stand-in
    assert_eq!(host.get_width(), 1);
    assert_eq!(host.get_height(), 1);
    assert!(engine.restore_root_console_ownership(&mut host).is_ok());

    let after = console_snapshot(&host);
    assert_eq!(before, after);
}

#[test]
fn many_round_trips_preserve_console() {
    let mut engine = fresh_engine();
    let mut host = Console::new(12, 7);
    host.ascii(1, 1, 88);
    let before = console_snapshot(&host);
    for _ in 0..5 {
        assert!(engine.take_root_console_ownership(&mut host).is_ok());
        assert!(engine.restore_root_console_ownership(&mut host).is_ok());
    }
    assert_eq!(before, console_snapshot(&host));
}

#[test]
fn double_take_fails_and_changes_nothing() {
    let mut engine = fresh_engine();
    let mut host = Console::new(80, 50);
    assert!(engine.take_root_console_ownership(&mut host).is_ok());
    let width_while_held = host.get_width();
    let second = engine.take_root_console_ownership(&mut host);
    assert_eq!(second, Err(ProtocolError::ConsoleAlreadyTaken));
    // the stand-in is still with the host: nothing was duplicated or dropped
    assert_eq!(host.get_width(), width_while_held);
    assert!(engine.restore_root_console_ownership(&mut host).is_ok());
    assert_eq!(host.get_width(), 80);
    assert_eq!(host.get_height(), 50);
}

#[test]
fn restore_without_take_fails() {
    let mut engine = fresh_engine();
    let mut host = Console::new(80, 50);
    let r = engine.restore_root_console_ownership(&mut host);
    assert_eq!(r, Err(ProtocolError::ConsoleNotTaken));
    assert_eq!(host.get_width(), 80);
}

#[test]
fn schedule_checkout_blocks_reentry() {
    let mut engine = fresh_engine();
    let schedule = engine.take_doryen_render_schedule().unwrap();
    let second = engine.take_doryen_render_schedule();
    assert!(matches!(second, Err(ProtocolError::RenderScheduleTaken)));
    assert!(engine.restore_doryen_render_schedule(schedule).is_ok());
    let again = engine.take_doryen_render_schedule();
    assert!(again.is_ok());
}

#[test]
fn schedule_restore_into_full_slot_fails() {
    let mut engine = fresh_engine();
    let schedule = engine.take_doryen_render_schedule().unwrap();
    let mut engine2 = fresh_engine();
    let r = engine2.restore_doryen_render_schedule(schedule);
    assert!(matches!(r, Err(ProtocolError::RenderScheduleNotTaken)));
}

#[test]
fn render_pass_needs_the_schedule_in_its_slot() {
    let mut engine = fresh_engine();
    let mut host = Console::new(16, 16);
    let schedule = engine.take_doryen_render_schedule().unwrap();
    let r = engine.render_begin(&mut host);
    assert!(matches!(r, Err(ProtocolError::RenderScheduleTaken)));
    // the console stayed with the host loop
    assert_eq!(host.get_width(), 16);
    assert!(engine.restore_doryen_render_schedule(schedule).is_ok());
    let pass = engine.render_begin(&mut host).unwrap();
    assert!(engine.render_end(&mut host, pass.schedule).is_ok());
    assert_eq!(host.get_width(), 16);
}
