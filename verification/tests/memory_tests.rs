use std::collections::HashMap;

use age2_trainer::errors::AccessError;
use age2_trainer::memory::{read_memory, write_memory};
use age2_trainer::sim::SimOs;

fn empty_sim() -> SimOs {
    SimOs::new(HashMap::new(), Vec::new())
}

fn sim_with(cells: &[(u32, u32)]) -> SimOs {
    let mut map = HashMap::new();
    for (addr, value) in cells {
        map.insert(*addr, *value);
    }
    SimOs::new(map, Vec::new())
}

#[test]
fn read_zero_size_is_invalid_argument() {
    let mut sim = sim_with(&[(0x10, 7)]);
    let r = read_memory(&mut sim, 1, 0x10, 0);
    assert_eq!(r, Err(AccessError::InvalidArgument));
    assert_eq!(sim.reads, 0, "the OS boundary must not be invoked");
}

#[test]
fn write_zero_size_is_invalid_argument() {
    let mut sim = sim_with(&[(0x10, 7)]);
    let r = write_memory(&mut sim, 1, 0x10, 99, 0);
    assert_eq!(r, Err(AccessError::InvalidArgument));
    assert_eq!(sim.writes, 0, "the OS boundary must not be invoked");
    assert_eq!(sim.cells.get(&0x10), Some(&7));
}

#[test]
fn read_short_count_is_size_mismatch() {
    let mut sim = sim_with(&[(0x10, 7)]);
    sim.short_count = true;
    let r = read_memory(&mut sim, 1, 0x10, 4);
    assert_eq!(r, Err(AccessError::SizeMismatch { expected: 4, got: 0 }));
}

#[test]
fn write_short_count_is_size_mismatch() {
    let mut sim = sim_with(&[(0x10, 7)]);
    sim.short_count = true;
    let r = write_memory(&mut sim, 1, 0x10, 99, 4);
    assert_eq!(r, Err(AccessError::SizeMismatch { expected: 4, got: 0 }));
    assert_eq!(sim.cells.get(&0x10), Some(&7), "a failed write must not change the target");
}

#[test]
fn read_unmapped_address_is_os_error() {
    let mut sim = empty_sim();
    let r = read_memory(&mut sim, 1, 0x10, 4);
    assert_eq!(r, Err(AccessError::OsError { code: 5 }));
}

#[test]
fn read_failing_boundary_is_os_error() {
    let mut sim = sim_with(&[(0x10, 7)]);
    sim.fail_access = true;
    sim.os_code = 299;
    let r = read_memory(&mut sim, 1, 0x10, 4);
    assert_eq!(r, Err(AccessError::OsError { code: 299 }));
}

#[test]
fn read_returns_stored_word() {
    let mut sim = sim_with(&[(0x2000, 0xDEAD)]);
    let r = read_memory(&mut sim, 1, 0x2000, 4);
    assert_eq!(r, Ok(0xDEAD));
    assert_eq!(sim.reads, 1);
}

#[test]
fn write_stores_word() {
    let mut sim = sim_with(&[(0x2000, 1)]);
    let r = write_memory(&mut sim, 1, 0x2000, 0xBEEF, 4);
    assert_eq!(r, Ok(()));
    assert_eq!(sim.cells.get(&0x2000), Some(&0xBEEF));
    assert_eq!(sim.writes, 1);
}

#[test]
fn error_descriptions_are_nonempty() {
    let errors = [
        AccessError::InvalidArgument,
        AccessError::SizeMismatch { expected: 4, got: 0 },
        AccessError::OsError { code: 5 },
        AccessError::OpenProcessFailed { pid: 42 },
        AccessError::NotFound,
    ];
    for e in errors {
        assert!(!e.describe().is_empty());
    }
}
