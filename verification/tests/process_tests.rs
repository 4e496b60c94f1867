use system_extensions::error::SystemError;
use system_extensions::processes::{
    find_process_id, is_process_running, parse_process_id, ProcessEntry, ProcessRecord,
    ProcessSnapshot,
};

fn listing() -> ProcessSnapshot {
    ProcessSnapshot::Listing(vec![
        ProcessEntry { pid: 4, exe_file: "System".to_string() },
        ProcessEntry { pid: 1200, exe_file: "chrome.exe --type=gpu".to_string() },
        ProcessEntry { pid: 1300, exe_file: "chrome.exe".to_string() },
    ])
}

fn command_lines() -> ProcessSnapshot {
    ProcessSnapshot::CommandLines(vec![
        ProcessRecord { pid: 1, cmdline: b"/sbin/init".to_vec() },
        ProcessRecord { pid: 77, cmdline: b"/usr/bin/chrome --headless".to_vec() },
        ProcessRecord { pid: 78, cmdline: b"/usr/bin/chrome".to_vec() },
    ])
}

#[test]
fn unmatched_name_is_not_found() {
    assert_eq!(
        find_process_id("nonexistent-xyz", &listing()),
        Err(SystemError::NotFound)
    );
    assert_eq!(
        find_process_id("nonexistent-xyz", &command_lines()),
        Err(SystemError::NotFound)
    );
    assert_eq!(
        find_process_id("nonexistent-xyz", &ProcessSnapshot::CommandLines(vec![])),
        Err(SystemError::NotFound)
    );
}

#[test]
fn listing_matches_the_first_token_exactly() {
    assert_eq!(find_process_id("chrome.exe", &listing()), Ok(1200));
    // A bare prefix of the token is no match on the listing model.
    assert_eq!(find_process_id("chrome", &listing()), Err(SystemError::NotFound));
}

#[test]
fn command_lines_match_by_substring() {
    assert_eq!(find_process_id("chrome", &command_lines()), Ok(77));
    assert_eq!(find_process_id("headless", &command_lines()), Ok(77));
    assert_eq!(find_process_id("init", &command_lines()), Ok(1));
}

#[test]
fn first_match_wins() {
    assert_eq!(find_process_id("chrome.exe", &listing()), Ok(1200));
    assert_eq!(find_process_id("/usr/bin/chrome", &command_lines()), Ok(77));
}

#[test]
fn terminated_pid_is_not_running() {
    // Take 77 as a process that terminated before the snapshot was taken.
    let snapshot = ProcessSnapshot::CommandLines(vec![ProcessRecord {
        pid: 1,
        cmdline: b"/sbin/init".to_vec(),
    }]);
    assert!(!is_process_running(&77, &snapshot));
    assert!(is_process_running(&1, &snapshot));
    let empty = ProcessSnapshot::Listing(vec![]);
    assert!(!is_process_running(&1, &empty));
}

#[test]
fn parse_process_id_reads_decimal_names() {
    assert_eq!(parse_process_id(b"1818"), Some(1818));
    assert_eq!(parse_process_id(b"0"), Some(0));
    assert_eq!(parse_process_id(b"4294967295"), Some(u32::MAX));
}

#[test]
fn parse_process_id_rejects_non_directories() {
    assert_eq!(parse_process_id(b""), None);
    assert_eq!(parse_process_id(b"self"), None);
    assert_eq!(parse_process_id(b"12a"), None);
    assert_eq!(parse_process_id(b"4294967296"), None);
    assert_eq!(parse_process_id(b"99999999999999999999"), None);
}
