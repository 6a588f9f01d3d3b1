use std::collections::HashMap;

use age2_trainer::app::App;
use age2_trainer::errors::AccessError;
use age2_trainer::game::{
    CURRENT_POPULATION_OFFSET, FOOD_OFFSET, GOLD_OFFSET, LEAVE_POPULATION_OFFSET,
    MODULE_BASE_ADDR, RECORD_PTR_OFFSET, STONE_OFFSET, WOOD_OFFSET,
};
use age2_trainer::sim::{SimOs, SimProcess};

fn simulated_target() -> SimOs {
    // Module base pointer 0x1000, record pointer slot at 0x1000 + 0xA8,
    // record address 0x2000, six floats [99999, 99999, 99999, 99999, 60, 40].
    let mut cells = HashMap::new();
    cells.insert(MODULE_BASE_ADDR, 0x1000);
    cells.insert(0x1000 + RECORD_PTR_OFFSET, 0x2000);
    cells.insert(0x2000 + FOOD_OFFSET, 99999.0f32.to_bits());
    cells.insert(0x2000 + WOOD_OFFSET, 99999.0f32.to_bits());
    cells.insert(0x2000 + STONE_OFFSET, 99999.0f32.to_bits());
    cells.insert(0x2000 + GOLD_OFFSET, 99999.0f32.to_bits());
    cells.insert(0x2000 + LEAVE_POPULATION_OFFSET, 60.0f32.to_bits());
    cells.insert(0x2000 + CURRENT_POPULATION_OFFSET, 40.0f32.to_bits());
    let procs = vec![
        SimProcess { pid: 10, path: "C:\\Windows\\notepad.exe".to_string() },
        SimProcess { pid: 42, path: "C:\\Games\\age2x.exe".to_string() },
    ];
    SimOs::new(cells, procs)
}

#[test]
fn poll_without_target_process_is_not_found() {
    let mut sim = SimOs::new(
        HashMap::new(),
        vec![SimProcess { pid: 10, path: "C:\\Windows\\notepad.exe".to_string() }],
    );
    let mut app = App::new();
    assert_eq!(app.poll(&mut sim), Err(AccessError::NotFound));
    assert!(!app.has_target());
}

#[test]
fn poll_decodes_then_overrides_end_to_end() {
    let mut sim = simulated_target();
    let mut app = App::new();

    // First poll: discovery, decode of the values stored before any override, then the encode.
    let first = app.poll(&mut sim).unwrap();
    assert!(first.is_running);
    assert_eq!(first.pid, 42);
    assert_eq!(f32::from_bits(first.food), 99999.0);
    assert_eq!(f32::from_bits(first.wood), 99999.0);
    assert_eq!(f32::from_bits(first.stone), 99999.0);
    assert_eq!(f32::from_bits(first.gold), 99999.0);
    assert_eq!(f32::from_bits(first.leave_population), 60.0);
    assert_eq!(f32::from_bits(first.current_population), 40.0);
    assert_eq!(sim.writes, 6);
    assert!(app.has_target());

    // Second poll: the decode observes the override pattern.
    let second = app.poll(&mut sim).unwrap();
    assert!(second.is_running);
    assert_eq!(f32::from_bits(second.food), 89999.0);
    assert_eq!(f32::from_bits(second.wood), 89999.0);
    assert_eq!(f32::from_bits(second.stone), 89999.0);
    assert_eq!(f32::from_bits(second.gold), 89999.0);
    assert_eq!(f32::from_bits(second.leave_population), 180.0);
    assert_eq!(f32::from_bits(second.current_population), 80.0);
}

#[test]
fn poll_reports_not_running_before_a_match() {
    let mut sim = simulated_target();
    sim.cells.insert(MODULE_BASE_ADDR, 0);
    let mut app = App::new();
    let info = app.poll(&mut sim).unwrap();
    assert!(!info.is_running);
    assert_eq!(info.food, 0);
    assert_eq!(sim.writes, 0, "no override may be written before a match");
}

#[test]
fn poll_failure_resets_handle_and_next_poll_rediscovers() {
    let mut sim = simulated_target();
    let mut app = App::new();

    assert!(app.poll(&mut sim).is_ok());
    assert_eq!(sim.enums, 1);
    assert_eq!(sim.closes, 2, "discovery closes both probe handles");
    assert!(app.has_target());

    // The target's handle goes stale: every access fails.
    sim.fail_access = true;
    let r = app.poll(&mut sim);
    assert_eq!(r, Err(AccessError::OsError { code: 5 }));
    assert!(!app.has_target(), "the cached handle state must reset");
    assert_eq!(sim.closes, 3, "the stale elevated handle must be released");
    assert_eq!(sim.enums, 1, "a cached target is polled without discovery");

    // The next poll re-runs discovery from scratch.
    sim.fail_access = false;
    assert!(app.poll(&mut sim).is_ok());
    assert_eq!(sim.enums, 2);
    assert!(app.has_target());
}

#[test]
fn poll_discovery_fails_open_when_probes_fail() {
    let mut sim = simulated_target();
    sim.fail_access = true;
    let mut app = App::new();
    // Discovery itself fails open: with every probe failing, no process can
    // be opened, so the target is simply not found.
    assert_eq!(app.poll(&mut sim), Err(AccessError::NotFound));
}

#[test]
fn poll_elevation_failure_is_open_process_failed() {
    let mut sim = simulated_target();
    sim.deny_elevated = true;
    let mut app = App::new();
    // Discovery finds the target with query rights, but elevation is refused.
    assert_eq!(app.poll(&mut sim), Err(AccessError::OpenProcessFailed { pid: 42 }));
    assert!(!app.has_target(), "a failed elevation leaves no cached target");
}

#[test]
fn new_app_has_no_target() {
    let app = App::new();
    assert!(!app.has_target());
    assert!(!app.should_quit);
}
