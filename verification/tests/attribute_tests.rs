use system_extensions::attribute::{Attributes, HIDDEN_FLAG, NORMAL_FLAG, READ_ONLY_FLAG};
use system_extensions::error::SystemError;
use system_extensions::state::{FileState, MaskFile, PosixFile, Timestamp};
use system_extensions::store::{get_attributes, has_attribute, set_attribute};

fn zero_time() -> Timestamp {
    Timestamp { year: 0, month: 0, day: 0, hour: 0, minute: 0, second: 0, millisecond: 0 }
}

fn mask_file(exists: bool, bits: u32) -> FileState {
    FileState::Mask(MaskFile {
        exists,
        attribute_bits: bits,
        created: zero_time(),
        accessed: zero_time(),
        modified: zero_time(),
    })
}

fn posix_file(exists: bool, name: &[u8], read_only: bool) -> FileState {
    FileState::Posix(PosixFile {
        exists,
        name: name.to_vec(),
        read_only,
        accessed: zero_time(),
        modified: zero_time(),
    })
}

fn bits_of(list: &[Attributes]) -> Vec<u32> {
    list.iter().map(|a| a.bits).collect()
}

#[test]
fn attribute_values_and_union() {
    assert_eq!(Attributes::normal().bits, 128);
    assert_eq!(Attributes::hidden().bits, 2);
    assert_eq!(Attributes::read_only().bits, 1);
    assert_eq!(Attributes::empty().bits, 0);
    assert!(Attributes::empty().is_empty());
    let both = Attributes::hidden().union(Attributes::read_only());
    assert!(!both.is_empty());
    assert_eq!(both.bits, 3);
    assert_eq!(Attributes::from_bits(3), both);
    assert!(both.contains(Attributes::hidden()));
    assert!(both.contains(Attributes::read_only()));
    assert!(!both.contains(Attributes::normal()));
}

#[test]
fn set_then_get_is_superset_on_mask() {
    let mut state = mask_file(true, 0);
    let requested = Attributes::normal().union(Attributes::hidden());
    assert!(set_attribute(&mut state, requested));
    let listed = get_attributes(&state).unwrap();
    let bits = bits_of(&listed);
    assert!(bits.contains(&NORMAL_FLAG));
    assert!(bits.contains(&HIDDEN_FLAG));
}

#[test]
fn set_then_get_is_superset_on_posix() {
    let mut state = posix_file(true, b"file.txt", false);
    let requested = Attributes::hidden().union(Attributes::read_only());
    assert!(set_attribute(&mut state, requested));
    let listed = get_attributes(&state).unwrap();
    let bits = bits_of(&listed);
    assert!(bits.contains(&HIDDEN_FLAG));
    assert!(bits.contains(&READ_ONLY_FLAG));
    assert!(!bits.contains(&NORMAL_FLAG));
}

#[test]
fn mask_set_replaces_the_flag_word() {
    let mut state = mask_file(true, HIDDEN_FLAG | READ_ONLY_FLAG);
    assert!(set_attribute(&mut state, Attributes::read_only()));
    let bits = bits_of(&get_attributes(&state).unwrap());
    assert_eq!(bits, vec![READ_ONLY_FLAG]);
}

#[test]
fn get_lists_in_declared_order() {
    let state = mask_file(true, NORMAL_FLAG | HIDDEN_FLAG | READ_ONLY_FLAG);
    let bits = bits_of(&get_attributes(&state).unwrap());
    assert_eq!(bits, vec![NORMAL_FLAG, HIDDEN_FLAG, READ_ONLY_FLAG]);
}

#[test]
fn empty_set_is_a_successful_no_op() {
    let mut missing = posix_file(false, b"gone.txt", false);
    assert!(set_attribute(&mut missing, Attributes::empty()));
    let mut present = mask_file(true, NORMAL_FLAG);
    assert!(set_attribute(&mut present, Attributes::empty()));
    let bits = bits_of(&get_attributes(&present).unwrap());
    assert_eq!(bits, vec![NORMAL_FLAG]);
}

#[test]
fn normal_is_a_no_op_on_posix() {
    let mut state = posix_file(true, b"plain.txt", false);
    assert!(set_attribute(&mut state, Attributes::normal()));
    let listed = get_attributes(&state).unwrap();
    assert!(listed.is_empty());
}

#[test]
fn state_knows_whether_the_file_is_present() {
    assert!(mask_file(true, 0).is_present());
    assert!(!mask_file(false, 0).is_present());
    assert!(posix_file(true, b"x", false).is_present());
    assert!(!posix_file(false, b"x", false).is_present());
}

#[test]
fn set_fails_on_missing_file() {
    let mut mask = mask_file(false, 0);
    assert!(!set_attribute(&mut mask, Attributes::hidden()));
    let mut posix = posix_file(false, b"gone.txt", false);
    assert!(!set_attribute(&mut posix, Attributes::hidden()));
}

#[test]
fn has_attribute_is_false_on_missing_file() {
    let mask = mask_file(false, NORMAL_FLAG | HIDDEN_FLAG | READ_ONLY_FLAG);
    let posix = posix_file(false, b".hidden", true);
    for a in [Attributes::normal(), Attributes::hidden(), Attributes::read_only()] {
        assert!(!has_attribute(&mask, a));
        assert!(!has_attribute(&posix, a));
    }
}

#[test]
fn set_attribute_twice_changes_nothing_more() {
    let mut once = posix_file(true, b"file.txt", false);
    let requested = Attributes::hidden().union(Attributes::read_only());
    assert!(set_attribute(&mut once, requested));
    let mut twice = posix_file(true, b"file.txt", false);
    assert!(set_attribute(&mut twice, requested));
    assert!(set_attribute(&mut twice, requested));
    match (&once, &twice) {
        (FileState::Posix(a), FileState::Posix(b)) => {
            assert_eq!(a.name, b".file.txt".to_vec());
            assert_eq!(a.name, b.name);
            assert_eq!(a.read_only, b.read_only);
            assert_eq!(a.exists, b.exists);
        }
        _ => panic!("expected the POSIX model"),
    }
}

#[test]
fn posix_hide_renames_with_a_leading_dot() {
    let mut state = posix_file(true, b"notes.md", false);
    assert!(set_attribute(&mut state, Attributes::hidden()));
    match &state {
        FileState::Posix(f) => assert_eq!(f.name, b".notes.md".to_vec()),
        _ => panic!("expected the POSIX model"),
    }
    assert!(has_attribute(&state, Attributes::hidden()));
}

#[test]
fn get_attributes_fails_only_on_missing_file() {
    let missing = mask_file(false, 0);
    assert_eq!(get_attributes(&missing).unwrap_err(), SystemError::NotFound);
    let bare = posix_file(true, b"plain", false);
    assert_eq!(get_attributes(&bare).unwrap(), vec![]);
}
