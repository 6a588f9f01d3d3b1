use std::collections::HashMap;

use age2_trainer::errors::AccessError;
use age2_trainer::port::OsPort;
use age2_trainer::process::{
    file_name_of, find_by_name, str_eq, AccessLevel, ProcessItem, ProcessManager,
};
use age2_trainer::sim::{SimOs, SimProcess};

fn sim_with_procs(procs: &[(u32, &str)]) -> SimOs {
    let mut table = Vec::new();
    for (pid, path) in procs {
        table.push(SimProcess { pid: *pid, path: path.to_string() });
    }
    SimOs::new(HashMap::new(), table)
}

fn record(pid: u32, name: &str) -> ProcessItem {
    ProcessItem { pid, name: name.to_string(), handle: 0, level: AccessLevel::NoHandle }
}

#[test]
fn file_name_strips_backslash_directories() {
    assert_eq!(file_name_of("C:\\Windows\\System32\\age2x.exe"), "age2x.exe");
}

#[test]
fn file_name_strips_slash_directories() {
    assert_eq!(file_name_of("/device/harddisk/age2x.exe"), "age2x.exe");
}

#[test]
fn file_name_of_bare_name_is_unchanged() {
    assert_eq!(file_name_of("age2x.exe"), "age2x.exe");
}

#[test]
fn file_name_of_trailing_separator_is_empty() {
    assert_eq!(file_name_of("C:\\Games\\"), "");
}

#[test]
fn str_eq_is_exact_and_case_sensitive() {
    assert!(str_eq("age2x.exe", "age2x.exe"));
    assert!(!str_eq("AGE2X.EXE", "age2x.exe"));
    assert!(!str_eq("age2x.exe", "age2x.ex"));
    assert!(str_eq("", ""));
}

#[test]
fn find_by_name_returns_matching_record() {
    let list = vec![record(10, "notepad.exe"), record(42, "age2x.exe")];
    let found = find_by_name(&list, "age2x.exe");
    assert_eq!(found.map(|p| p.pid), Some(42));
}

#[test]
fn find_by_name_returns_first_match() {
    let list = vec![record(5, "age2x.exe"), record(6, "age2x.exe")];
    let found = find_by_name(&list, "age2x.exe");
    assert_eq!(found.map(|p| p.pid), Some(5));
}

#[test]
fn find_by_name_none_when_absent() {
    let list = vec![record(10, "notepad.exe")];
    assert!(find_by_name(&list, "age2x.exe").is_none());
}

#[test]
fn from_pid_fails_for_unknown_process() {
    let mut sim = sim_with_procs(&[(10, "C:\\x\\notepad.exe")]);
    let r = ProcessItem::from_pid(&mut sim, 99);
    assert_eq!(r.err(), Some(AccessError::OpenProcessFailed { pid: 99 }));
}

#[test]
fn from_pid_resolves_and_strips_name() {
    let mut sim = sim_with_procs(&[(10, "C:\\x\\notepad.exe")]);
    let p = ProcessItem::from_pid(&mut sim, 10).unwrap();
    assert_eq!(p.pid, 10);
    assert_eq!(p.name, "notepad.exe");
    assert_ne!(p.handle, 0);
    assert_eq!(p.level, AccessLevel::QueryOnly);
}

#[test]
fn get_process_list_returns_closed_named_records() {
    let mut sim = sim_with_procs(&[(10, "C:\\x\\notepad.exe"), (42, "C:\\g\\age2x.exe")]);
    let manager = ProcessManager::default();
    let list = manager.get_process_list(&mut sim);
    assert_eq!(list.len(), 2);
    for p in &list {
        assert_eq!(p.handle, 0, "no probe handle may leak");
        assert_eq!(p.level, AccessLevel::NoHandle);
    }
    assert_eq!(list[0].name, "notepad.exe");
    assert_eq!(list[1].name, "age2x.exe");
    assert_eq!(sim.closes, 2, "every probe handle must be closed");
}

#[test]
fn find_game_process_matches_target_name() {
    let mut sim = sim_with_procs(&[(10, "C:\\x\\notepad.exe"), (42, "C:\\g\\age2x.exe")]);
    let manager = ProcessManager::default();
    let found = manager.find_game_process(&mut sim);
    assert_eq!(found.map(|p| p.pid), Some(42));
}

#[test]
fn inject_elevates_record() {
    let mut sim = sim_with_procs(&[(42, "C:\\g\\age2x.exe")]);
    let mut p = record(42, "age2x.exe");
    assert_eq!(p.inject(&mut sim), Ok(()));
    assert_eq!(p.level, AccessLevel::Elevated);
    assert_ne!(p.handle, 0);
}

#[test]
fn inject_is_idempotent_when_already_elevated() {
    let mut sim = sim_with_procs(&[]);
    let mut p = ProcessItem {
        pid: 42,
        name: "age2x.exe".to_string(),
        handle: 7,
        level: AccessLevel::Elevated,
    };
    assert_eq!(p.inject(&mut sim), Ok(()));
    assert_eq!(p.handle, 7);
    assert_eq!(p.level, AccessLevel::Elevated);
}

#[test]
fn inject_failure_leaves_record_handle_absent() {
    let mut sim = sim_with_procs(&[]);
    let mut p = record(99, "gone.exe");
    assert_eq!(p.inject(&mut sim), Err(AccessError::OpenProcessFailed { pid: 99 }));
    assert_eq!(p.handle, 0);
    assert_eq!(p.level, AccessLevel::NoHandle);
}

#[test]
fn close_is_safe_on_closed_record() {
    let mut sim = sim_with_procs(&[]);
    let mut p = record(42, "age2x.exe");
    p.close(&mut sim);
    p.close(&mut sim);
    assert_eq!(p.handle, 0);
    assert_eq!(p.level, AccessLevel::NoHandle);
    assert_eq!(sim.closes, 0, "a closed record issues no OS release");
}

#[test]
fn close_releases_live_handle_once() {
    let mut sim = sim_with_procs(&[(10, "C:\\x\\notepad.exe")]);
    let mut p = ProcessItem::from_pid(&mut sim, 10).unwrap();
    p.close(&mut sim);
    assert_eq!(sim.closes, 1, "one release for the live handle");
    p.close(&mut sim);
    assert_eq!(sim.closes, 1, "a second close issues no further release");
}

#[test]
fn inject_releases_replaced_query_handle() {
    let mut sim = sim_with_procs(&[(10, "C:\\x\\notepad.exe")]);
    let mut p = ProcessItem::from_pid(&mut sim, 10).unwrap();
    assert_eq!(p.level, AccessLevel::QueryOnly);
    assert_eq!(p.inject(&mut sim), Ok(()));
    assert_eq!(p.level, AccessLevel::Elevated);
    assert_eq!(sim.closes, 1, "the replaced query handle must be released");
}

#[test]
fn enum_pids_lists_process_table() {
    let mut sim = sim_with_procs(&[(10, "a"), (42, "b")]);
    let pids = sim.enum_pids();
    assert_eq!(pids, vec![10, 42]);
    assert_eq!(sim.enums, 1);
}
