use system_extensions::notification::SimpleNotification;
use system_extensions::processes::{find_process_id, is_process_running, ProcessRecord, ProcessSnapshot};
use system_extensions::state::{FileState, PosixFile, Timestamp};
use system_extensions::time::{
    filetime_to_systime, set_accessed_date, set_changed_date, set_creation_date, FileTime,
};

fn zero_time() -> Timestamp {
    Timestamp { year: 0, month: 0, day: 0, hour: 0, minute: 0, second: 0, millisecond: 0 }
}

fn proc_snapshot() -> ProcessSnapshot {
    ProcessSnapshot::CommandLines(vec![
        ProcessRecord { pid: 1, cmdline: b"/sbin/init".to_vec() },
        ProcessRecord { pid: 1818, cmdline: b"/usr/bin/chrome --type=renderer".to_vec() },
    ])
}

#[test]
fn it_works() {
    let snapshot = proc_snapshot();
    let val = find_process_id("chrome", &snapshot).expect("An error occurred!");
    println!("{:?}", val);
    // Test a valid PID.
    let pid: u32 = 1818;
    println!("{:?}", is_process_running(&pid, &snapshot));

    let time = FileTime {
        day: 13,
        month: 3,
        year: 2022,
        hour: 2,
        minute: 46,
        second: 46,
        milliseconds: 0,
    };
    let systime = filetime_to_systime(&time);
    assert_eq!(systime, "202203130246.46");
    let path = "./test.txt";
    let mut state = FileState::Posix(PosixFile {
        exists: true,
        name: path.trim_start_matches("./").as_bytes().to_vec(),
        read_only: false,
        accessed: zero_time(),
        modified: zero_time(),
    });
    let _ = set_creation_date(&mut state, &time);
    let _ = set_changed_date(&mut state, &time);
    let _ = set_accessed_date(&mut state, &time);
}

#[test]
fn lib_it_works() {
    let _notif = SimpleNotification::new("Rust Notification".to_string())
        .set_app_id(
            "{1AC14E77-02E7-4E5D-B744-2EB1AE5198B7}\\WindowsPowerShell\\v1.0\\powershell.exe"
                .to_string(),
        )
        .add_text("This notification was sent via rust!".to_string())
        .add_text("This uses the Windows Notification Center.".to_string())
        .set_hero_image("http://picsum.photos/48?image=883".to_string());
}
