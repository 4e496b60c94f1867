use system_extensions::error::SystemError;
use system_extensions::state::{FileState, MaskFile, PosixFile, Timestamp};
use system_extensions::time::{
    creation_date, filetime_to_systime, format_touch_time, resolve, set_accessed_date_at,
    set_creation_date, set_creation_date_at, FileTime,
};

fn zero_time() -> Timestamp {
    Timestamp { year: 0, month: 0, day: 0, hour: 0, minute: 0, second: 0, millisecond: 0 }
}

fn some_clock() -> Timestamp {
    Timestamp { year: 2024, month: 7, day: 5, hour: 21, minute: 9, second: 3, millisecond: 250 }
}

fn mask_file(exists: bool) -> FileState {
    FileState::Mask(MaskFile {
        exists,
        attribute_bits: 0,
        created: zero_time(),
        accessed: zero_time(),
        modified: zero_time(),
    })
}

fn posix_file(exists: bool) -> FileState {
    FileState::Posix(PosixFile {
        exists,
        name: b"test.txt".to_vec(),
        read_only: false,
        accessed: zero_time(),
        modified: zero_time(),
    })
}

#[test]
fn touch_format_is_exact() {
    let time = FileTime {
        day: 13,
        month: 3,
        year: 2022,
        hour: 2,
        minute: 46,
        second: 46,
        milliseconds: 0,
    };
    let rendered = format_touch_time(&time, &some_clock());
    assert_eq!(rendered, "202203130246.46");
}

#[test]
fn touch_format_pads_every_field() {
    let time = FileTime {
        day: 1,
        month: 1,
        year: 33,
        hour: 0,
        minute: 4,
        second: 9,
        milliseconds: 0,
    };
    let rendered = format_touch_time(&time, &some_clock());
    assert_eq!(rendered, "003301010004.09");
}

#[test]
fn touch_format_fills_absent_fields_from_the_clock() {
    let time = FileTime::new(25, 12, 2021);
    let rendered = format_touch_time(&time, &some_clock());
    assert_eq!(rendered, "202112252109.03");
}

#[test]
fn filetime_to_systime_has_the_fixed_shape() {
    let all_absent = FileTime {
        day: -1,
        month: -1,
        year: -1,
        hour: -1,
        minute: -1,
        second: -1,
        milliseconds: -1,
    };
    let rendered = filetime_to_systime(&all_absent);
    let chars: Vec<char> = rendered.chars().collect();
    assert_eq!(chars.len(), 15);
    for (i, c) in chars.iter().enumerate() {
        if i == 12 {
            assert_eq!(*c, '.');
        } else {
            assert!(c.is_ascii_digit());
        }
    }
}

#[test]
fn resolve_overlays_only_set_fields() {
    let time = FileTime::new(25, 12, 2021);
    let resolved = resolve(&time, &some_clock());
    assert_eq!(resolved.year, 2021);
    assert_eq!(resolved.month, 12);
    assert_eq!(resolved.day, 25);
    assert_eq!(resolved.hour, 21);
    assert_eq!(resolved.minute, 9);
    assert_eq!(resolved.second, 3);
    assert_eq!(resolved.millisecond, 250);
}

#[test]
fn creation_round_trip_on_mask() {
    let mut state = mask_file(true);
    let time = FileTime::new(25, 12, 2021);
    let now = some_clock();
    set_creation_date_at(&mut state, &time, &now).unwrap();
    let read_back = creation_date(&state).unwrap();
    assert_eq!(read_back, resolve(&time, &now));
    assert_eq!(read_back.year, 2021);
    assert_eq!(read_back.hour, now.hour);
}

#[test]
fn creation_setter_is_unsupported_on_posix() {
    let mut state = posix_file(true);
    assert_eq!(set_creation_date(&mut state, &FileTime::new(25, 12, 2021)), Err(SystemError::Unsupported));
    let mut missing = posix_file(false);
    assert_eq!(
        set_creation_date(&mut missing, &FileTime::new(25, 12, 2021)),
        Err(SystemError::Unsupported)
    );
    assert_eq!(creation_date(&state), Err(SystemError::Unsupported));
}

#[test]
fn time_setters_fail_on_missing_file() {
    let mut state = mask_file(false);
    let time = FileTime::new(25, 12, 2021);
    assert_eq!(set_creation_date_at(&mut state, &time, &some_clock()), Err(SystemError::NotFound));
    let mut posix = posix_file(false);
    assert_eq!(set_accessed_date_at(&mut posix, &time, &some_clock()), Err(SystemError::NotFound));
}

#[test]
fn posix_access_time_keeps_seconds_resolution() {
    let mut state = posix_file(true);
    let time = FileTime {
        day: 13,
        month: 3,
        year: 2022,
        hour: 2,
        minute: 46,
        second: 46,
        milliseconds: 123,
    };
    set_accessed_date_at(&mut state, &time, &some_clock()).unwrap();
    match &state {
        FileState::Posix(f) => {
            assert_eq!(f.accessed.second, 46);
            assert_eq!(f.accessed.millisecond, 0);
        }
        _ => panic!("expected the POSIX model"),
    }
}
