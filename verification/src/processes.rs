//! The process directory: resolve a process id from a name and check
//! liveness, against an explicit snapshot of the running processes.
//!
//! Each call works on a [`ProcessSnapshot`] the caller took from the
//! operating system; nothing is cached between calls.  The two native
//! enumeration designs match differently on purpose, and the difference is
//! kept: the listing-API model compares the name for exact equality with
//! the first whitespace-delimited token of the recorded executable name,
//! while the filesystem-enumeration model looks for the name as a substring
//! of the per-process command-line record.

use vstd::prelude::*;
use vstd::utf8::encode_utf8;

use crate::error::SystemError;

verus! {

/// One process of a listing-API snapshot: its id and the executable name
/// the listing recorded for it.
#[derive(Clone, Debug)]
pub struct ProcessEntry {
    pub pid: u32,
    pub exe_file: String,
}

/// The mathematical value of a [`ProcessEntry`].
pub struct ProcessEntryView {
    pub pid: u32,
    pub exe_file: Seq<char>,
}

impl View for ProcessEntry {
    type V = ProcessEntryView;

    open spec fn view(&self) -> ProcessEntryView {
        ProcessEntryView { pid: self.pid, exe_file: self.exe_file@ }
    }
}

/// One process of a filesystem-enumeration snapshot: its id and the bytes
/// of its command-line record.
#[derive(Clone, Debug)]
pub struct ProcessRecord {
    pub pid: u32,
    pub cmdline: Vec<u8>,
}

/// The mathematical value of a [`ProcessRecord`].
pub struct ProcessRecordView {
    pub pid: u32,
    pub cmdline: Seq<u8>,
}

impl View for ProcessRecord {
    type V = ProcessRecordView;

    open spec fn view(&self) -> ProcessRecordView {
        ProcessRecordView { pid: self.pid, cmdline: self.cmdline@ }
    }
}

/// A fresh enumeration of the running processes, in the form the caller's
/// platform provides.
#[derive(Clone, Debug)]
pub enum ProcessSnapshot {
    /// A listing-API walk: executable names.
    Listing(Vec<ProcessEntry>),
    /// A filesystem walk: command-line records.
    CommandLines(Vec<ProcessRecord>),
}

/// The mathematical value of a [`ProcessSnapshot`].
pub enum ProcessSnapshotView {
    Listing(Seq<ProcessEntryView>),
    CommandLines(Seq<ProcessRecordView>),
}

impl View for ProcessSnapshot {
    type V = ProcessSnapshotView;

    open spec fn view(&self) -> ProcessSnapshotView {
        match self {
            ProcessSnapshot::Listing(v) => ProcessSnapshotView::Listing(
                v@.map_values(|e: ProcessEntry| e@),
            ),
            ProcessSnapshot::CommandLines(v) => ProcessSnapshotView::CommandLines(
                v@.map_values(|r: ProcessRecord| r@),
            ),
        }
    }
}

/// The whitespace bytes that end the first token of a recorded executable
/// name.
pub open spec fn is_space_byte(b: u8) -> bool {
    b == 32 || b == 9 || b == 10 || b == 13
}

/// How many bytes the first whitespace-delimited token of `s` has.
pub open spec fn token_len_spec(s: Seq<u8>) -> int
    decreases s.len(),
{
    if s.len() == 0 || is_space_byte(s[0]) {
        0
    } else {
        1 + token_len_spec(s.skip(1))
    }
}

/// The first whitespace-delimited token of `s`.
pub open spec fn first_token(s: Seq<u8>) -> Seq<u8> {
    s.take(token_len_spec(s))
}

/// Whether `needle` occurs in `hay` as a contiguous run of bytes.
pub open spec fn contains_seq(hay: Seq<u8>, needle: Seq<u8>) -> bool {
    exists|i: int|
        0 <= i <= hay.len() - needle.len() && #[trigger] hay.subrange(i, i + needle.len())
            == needle
}

/// The listing-API match policy: the name equals the first token of the
/// recorded executable name, byte for byte.
pub open spec fn entry_matches(exe_file: Seq<char>, name: Seq<char>) -> bool {
    first_token(encode_utf8(exe_file)) == encode_utf8(name)
}

/// The filesystem-enumeration match policy: the name occurs as a substring
/// of the command-line record.
pub open spec fn record_matches(cmdline: Seq<u8>, name: Seq<char>) -> bool {
    contains_seq(cmdline, encode_utf8(name))
}

/// The id of the first listing entry the name matches, if any.
pub open spec fn find_in_listing(entries: Seq<ProcessEntryView>, name: Seq<char>) -> Option<u32>
    decreases entries.len(),
{
    if entries.len() == 0 {
        None
    } else if entry_matches(entries[0].exe_file, name) {
        Some(entries[0].pid)
    } else {
        find_in_listing(entries.skip(1), name)
    }
}

/// The id of the first command-line record the name matches, if any.
pub open spec fn find_in_records(records: Seq<ProcessRecordView>, name: Seq<char>) -> Option<
    u32,
>
    decreases records.len(),
{
    if records.len() == 0 {
        None
    } else if record_matches(records[0].cmdline, name) {
        Some(records[0].pid)
    } else {
        find_in_records(records.skip(1), name)
    }
}

/// What resolving `name` against the snapshot `s` answers: the id of the
/// first match under the platform's policy, or the not-found error when
/// the full enumeration holds no match.
pub open spec fn find_process_id_spec(s: ProcessSnapshotView, name: Seq<char>) -> Result<
    u32,
    SystemError,
> {
    let found = match s {
        ProcessSnapshotView::Listing(entries) => find_in_listing(entries, name),
        ProcessSnapshotView::CommandLines(records) => find_in_records(records, name),
    };
    match found {
        Some(pid) => Ok(pid),
        None => Err(SystemError::NotFound),
    }
}

/// Whether the snapshot holds a process with this id.
pub open spec fn has_pid(s: ProcessSnapshotView, pid: u32) -> bool {
    match s {
        ProcessSnapshotView::Listing(entries) => exists|i: int|
            0 <= i < entries.len() && (#[trigger] entries[i]).pid == pid,
        ProcessSnapshotView::CommandLines(records) => exists|i: int|
            0 <= i < records.len() && (#[trigger] records[i]).pid == pid,
    }
}

/// Whether `hay` holds `needle` as a contiguous run starting at `at`.
fn matches_at(hay: &[u8], needle: &[u8], at: usize) -> (r: bool)
    requires
        at + needle@.len() <= hay@.len(),
    ensures
        r == (hay@.subrange(at as int, at + needle@.len()) == needle@),
{
    let n = needle.len();
    let hay_len = hay.len();
    let mut j: usize = 0;
    while j < n
        invariant
            0 <= j <= n,
            n == needle@.len(),
            hay_len == hay@.len(),
            at + n <= hay_len,
            forall|k: int| 0 <= k < j ==> hay@[at + k] == needle@[k],
        decreases n - j,
    {
        if hay[at + j] != needle[j] {
            proof {
                assert(hay@.subrange(at as int, at + needle@.len())[j as int] != needle@[j as int]);
            }
            return false;
        }
        j += 1;
    }
    proof {
        assert(hay@.subrange(at as int, at + needle@.len()) =~= needle@);
    }
    true
}

/// Whether `needle` occurs anywhere in `hay`.
fn contains_bytes(hay: &[u8], needle: &[u8]) -> (r: bool)
    ensures
        r == contains_seq(hay@, needle@),
{
    if needle.len() == 0 {
        proof {
            assert(hay@.subrange(0, 0 + needle@.len() as int) =~= needle@);
        }
        return true;
    }
    if needle.len() > hay.len() {
        return false;
    }
    let count = hay.len() - needle.len() + 1;
    let mut i: usize = 0;
    while i < count
        invariant
            0 <= i <= count,
            count == hay@.len() - needle@.len() + 1,
            needle@.len() >= 1,
            forall|k: int|
                0 <= k < i ==> #[trigger] hay@.subrange(k, k + needle@.len()) != needle@,
        decreases count - i,
    {
        if matches_at(hay, needle, i) {
            return true;
        }
        i += 1;
    }
    false
}

/// Whether `name` equals the first whitespace-delimited token of `exe`.
fn token_matches(exe: &[u8], name: &[u8]) -> (r: bool)
    ensures
        r == (first_token(exe@) == name@),
{
    let mut i: usize = 0;
    while i < exe.len() && !is_space(exe[i])
        invariant
            0 <= i <= exe@.len(),
            forall|k: int| 0 <= k < i ==> !is_space_byte(exe@[k]),
        decreases exe@.len() - i,
    {
        i += 1;
    }
    proof {
        lemma_token_len_at(exe@, i as int);
    }
    if i != name.len() {
        proof {
            assert(first_token(exe@).len() == i);
        }
        return false;
    }
    let mut j: usize = 0;
    while j < i
        invariant
            0 <= j <= i,
            i == token_len_spec(exe@),
            i == name@.len(),
            i <= exe@.len(),
            forall|k: int| 0 <= k < j ==> exe@[k] == name@[k],
        decreases i - j,
    {
        if exe[j] != name[j] {
            proof {
                assert(first_token(exe@)[j as int] != name@[j as int]);
            }
            return false;
        }
        j += 1;
    }
    proof {
        assert(first_token(exe@) =~= name@);
    }
    true
}

/// Whether this byte ends a token.
fn is_space(b: u8) -> (r: bool)
    ensures
        r == is_space_byte(b),
{
    b == 32 || b == 9 || b == 10 || b == 13
}

/// The token of a sequence whose first `i` bytes are no whitespace, and
/// which ends or holds whitespace at `i`, is exactly its first `i` bytes.
proof fn lemma_token_len_at(s: Seq<u8>, i: int)
    requires
        0 <= i <= s.len(),
        forall|k: int| 0 <= k < i ==> !is_space_byte(s[k]),
        i == s.len() || is_space_byte(s[i]),
    ensures
        token_len_spec(s) == i,
    decreases i,
{
    if i > 0 {
        lemma_token_len_at(s.skip(1), i - 1);
    }
}

/// Resolve a process id from a name.
///
/// The whole snapshot is walked in order and the id of the first process
/// the name matches is returned; the match policy is the platform's own
/// (exact first-token equality on a listing, substring of the command line
/// on a filesystem enumeration).  When no entry of the full enumeration
/// matches, the answer is exactly [`SystemError::NotFound`].  Ids are
/// assigned by the operating system and may be reused after a process
/// exits.
pub fn find_process_id(process_name: &str, snapshot: &ProcessSnapshot) -> (r: Result<
    u32,
    SystemError,
>)
    ensures
        r == find_process_id_spec(snapshot@, process_name@),
{
    let name_bytes = process_name.as_bytes();
    match snapshot {
        ProcessSnapshot::Listing(entries) => {
            let ghost all = entries@.map_values(|e: ProcessEntry| e@);
            proof {
                assert(snapshot@ == ProcessSnapshotView::Listing(all));
                assert(all.skip(0) =~= all);
            }
            let mut i: usize = 0;
            while i < entries.len()
                invariant
                    0 <= i <= entries@.len(),
                    all == entries@.map_values(|e: ProcessEntry| e@),
                    snapshot@ == ProcessSnapshotView::Listing(all),
                    name_bytes@ == encode_utf8(process_name@),
                    find_in_listing(all, process_name@) == find_in_listing(
                        all.skip(i as int),
                        process_name@,
                    ),
                decreases entries@.len() - i,
            {
                let entry = &entries[i];
                if token_matches(entry.exe_file.as_str().as_bytes(), name_bytes) {
                    proof {
                        assert(all[i as int] == entries@[i as int]@);
                        assert(all.skip(i as int)[0] == all[i as int]);
                        assert(entry_matches(all.skip(i as int)[0].exe_file, process_name@));
                        assert(find_in_listing(all.skip(i as int), process_name@) == Some(
                            all[i as int].pid,
                        ));
                    }
                    return Ok(entry.pid);
                }
                proof {
                    assert(all[i as int] == entries@[i as int]@);
                    assert(all.skip(i as int)[0] == all[i as int]);
                    assert(!entry_matches(all.skip(i as int)[0].exe_file, process_name@));
                    assert(all.skip(i as int).skip(1) =~= all.skip(i + 1));
                }
                i += 1;
            }
            proof {
                assert(all.skip(i as int) =~= Seq::<ProcessEntryView>::empty());
            }
            Err(SystemError::NotFound)
        },
        ProcessSnapshot::CommandLines(records) => {
            let ghost all = records@.map_values(|r: ProcessRecord| r@);
            proof {
                assert(snapshot@ == ProcessSnapshotView::CommandLines(all));
                assert(all.skip(0) =~= all);
            }
            let mut i: usize = 0;
            while i < records.len()
                invariant
                    0 <= i <= records@.len(),
                    all == records@.map_values(|r: ProcessRecord| r@),
                    snapshot@ == ProcessSnapshotView::CommandLines(all),
                    name_bytes@ == encode_utf8(process_name@),
                    find_in_records(all, process_name@) == find_in_records(
                        all.skip(i as int),
                        process_name@,
                    ),
                decreases records@.len() - i,
            {
                let record = &records[i];
                if contains_bytes(record.cmdline.as_slice(), name_bytes) {
                    proof {
                        assert(all[i as int] == records@[i as int]@);
                        assert(all.skip(i as int)[0] == all[i as int]);
                        assert(record_matches(all.skip(i as int)[0].cmdline, process_name@));
                        assert(find_in_records(all.skip(i as int), process_name@) == Some(
                            all[i as int].pid,
                        ));
                    }
                    return Ok(record.pid);
                }
                proof {
                    assert(all[i as int] == records@[i as int]@);
                    assert(all.skip(i as int)[0] == all[i as int]);
                    assert(!record_matches(all.skip(i as int)[0].cmdline, process_name@));
                    assert(all.skip(i as int).skip(1) =~= all.skip(i + 1));
                }
                i += 1;
            }
            proof {
                assert(all.skip(i as int) =~= Seq::<ProcessRecordView>::empty());
            }
            Err(SystemError::NotFound)
        },
    }
}

/// Check whether a process id denotes a live process in the snapshot.
///
/// The answer is a snapshot, not a guarantee: the id may be recycled to an
/// unrelated process between the query and any use of the answer.
pub fn is_process_running(process_id: &u32, snapshot: &ProcessSnapshot) -> (r: bool)
    ensures
        r == has_pid(snapshot@, *process_id),
{
    match snapshot {
        ProcessSnapshot::Listing(entries) => {
            let ghost all = entries@.map_values(|e: ProcessEntry| e@);
            proof {
                assert(snapshot@ == ProcessSnapshotView::Listing(all));
            }
            let mut i: usize = 0;
            while i < entries.len()
                invariant
                    0 <= i <= entries@.len(),
                    all == entries@.map_values(|e: ProcessEntry| e@),
                    snapshot@ == ProcessSnapshotView::Listing(all),
                    forall|k: int| 0 <= k < i ==> (#[trigger] all[k]).pid != *process_id,
                decreases entries@.len() - i,
            {
                if entries[i].pid == *process_id {
                    proof {
                        assert(all[i as int] == entries@[i as int]@);
                        assert((snapshot@->Listing_0[i as int]).pid == *process_id);
                        assert(has_pid(snapshot@, *process_id));
                    }
                    return true;
                }
                proof {
                    assert(all[i as int] == entries@[i as int]@);
                }
                i += 1;
            }
            proof {
                assert(!has_pid(snapshot@, *process_id));
            }
            false
        },
        ProcessSnapshot::CommandLines(records) => {
            let ghost all = records@.map_values(|r: ProcessRecord| r@);
            proof {
                assert(snapshot@ == ProcessSnapshotView::CommandLines(all));
            }
            let mut i: usize = 0;
            while i < records.len()
                invariant
                    0 <= i <= records@.len(),
                    all == records@.map_values(|r: ProcessRecord| r@),
                    snapshot@ == ProcessSnapshotView::CommandLines(all),
                    forall|k: int| 0 <= k < i ==> (#[trigger] all[k]).pid != *process_id,
                decreases records@.len() - i,
            {
                if records[i].pid == *process_id {
                    proof {
                        assert(all[i as int] == records@[i as int]@);
                        assert((snapshot@->CommandLines_0[i as int]).pid == *process_id);
                        assert(has_pid(snapshot@, *process_id));
                    }
                    return true;
                }
                proof {
                    assert(all[i as int] == records@[i as int]@);
                }
                i += 1;
            }
            proof {
                assert(!has_pid(snapshot@, *process_id));
            }
            false
        },
    }
}

/// A listing resolves to no id exactly when no entry of it matches.
proof fn lemma_find_in_listing_none(entries: Seq<ProcessEntryView>, name: Seq<char>)
    ensures
        find_in_listing(entries, name) is None <==> forall|i: int|
            0 <= i < entries.len() ==> !entry_matches((#[trigger] entries[i]).exe_file, name),
    decreases entries.len(),
{
    if entries.len() > 0 {
        let tail = entries.skip(1);
        lemma_find_in_listing_none(tail, name);
        assert(forall|i: int| 0 <= i < tail.len() ==> #[trigger] tail[i] == entries[i + 1]);
        if find_in_listing(entries, name) is None {
            assert forall|i: int|
                0 <= i < entries.len() implies !entry_matches(
                (#[trigger] entries[i]).exe_file,
                name,
            ) by {
                if i > 0 {
                    assert(entries[i] == tail[i - 1]);
                    assert(!entry_matches(tail[i - 1].exe_file, name));
                }
            }
        }
        if forall|i: int|
            0 <= i < entries.len() ==> !entry_matches((#[trigger] entries[i]).exe_file, name) {
            assert forall|i: int|
                0 <= i < tail.len() implies !entry_matches((#[trigger] tail[i]).exe_file, name) by {
                assert(tail[i] == entries[i + 1]);
            }
            assert(!entry_matches(entries[0].exe_file, name));
        }
    }
}

/// A record walk resolves to no id exactly when no record of it matches.
proof fn lemma_find_in_records_none(records: Seq<ProcessRecordView>, name: Seq<char>)
    ensures
        find_in_records(records, name) is None <==> forall|i: int|
            0 <= i < records.len() ==> !record_matches((#[trigger] records[i]).cmdline, name),
    decreases records.len(),
{
    if records.len() > 0 {
        let tail = records.skip(1);
        lemma_find_in_records_none(tail, name);
        assert(forall|i: int| 0 <= i < tail.len() ==> #[trigger] tail[i] == records[i + 1]);
        if find_in_records(records, name) is None {
            assert forall|i: int|
                0 <= i < records.len() implies !record_matches(
                (#[trigger] records[i]).cmdline,
                name,
            ) by {
                if i > 0 {
                    assert(records[i] == tail[i - 1]);
                    assert(!record_matches(tail[i - 1].cmdline, name));
                }
            }
        }
        if forall|i: int|
            0 <= i < records.len() ==> !record_matches((#[trigger] records[i]).cmdline, name) {
            assert forall|i: int|
                0 <= i < tail.len() implies !record_matches((#[trigger] tail[i]).cmdline, name) by {
                assert(tail[i] == records[i + 1]);
            }
            assert(!record_matches(records[0].cmdline, name));
        }
    }
}

/// Resolving a name yields the not-found error exactly when no entry of
/// the enumeration matches it under the platform's policy.
pub proof fn lemma_find_not_found(s: ProcessSnapshotView, name: Seq<char>)
    ensures
        find_process_id_spec(s, name) == Err::<u32, SystemError>(SystemError::NotFound)
            <==> match s {
            ProcessSnapshotView::Listing(entries) => forall|i: int|
                0 <= i < entries.len() ==> !entry_matches((#[trigger] entries[i]).exe_file, name),
            ProcessSnapshotView::CommandLines(records) => forall|i: int|
                0 <= i < records.len() ==> !record_matches((#[trigger] records[i]).cmdline, name),
        },
{
    match s {
        ProcessSnapshotView::Listing(entries) => lemma_find_in_listing_none(entries, name),
        ProcessSnapshotView::CommandLines(records) => lemma_find_in_records_none(records, name),
    }
}


/// Whether this byte is an ASCII decimal digit.
pub open spec fn is_digit_byte(b: u8) -> bool {
    48 <= b <= 57
}

/// Whether every byte of `s` is an ASCII decimal digit.
pub open spec fn all_digit_bytes(s: Seq<u8>) -> bool {
    forall|i: int| 0 <= i < s.len() ==> is_digit_byte(#[trigger] s[i])
}

/// The number the decimal digits `s` denote (meaningful when every byte is
/// a digit).
pub open spec fn dec_value(s: Seq<u8>) -> int
    decreases s.len(),
{
    if s.len() == 0 {
        0
    } else {
        dec_value(s.drop_last()) * 10 + (s.last() - 48)
    }
}

/// The value of a digit sequence is never negative.
proof fn lemma_dec_value_nonneg(s: Seq<u8>)
    requires
        all_digit_bytes(s),
    ensures
        dec_value(s) >= 0,
    decreases s.len(),
{
    if s.len() > 0 {
        assert forall|i: int| 0 <= i < s.drop_last().len() implies is_digit_byte(
            #[trigger] s.drop_last()[i],
        ) by {
            assert(s.drop_last()[i] == s[i]);
        }
        lemma_dec_value_nonneg(s.drop_last());
    }
}

/// Reading one more digit multiplies the prefix value by ten and adds it.
proof fn lemma_dec_value_step(s: Seq<u8>, i: int)
    requires
        0 <= i < s.len(),
    ensures
        dec_value(s.take(i + 1)) == dec_value(s.take(i)) * 10 + (s[i] - 48),
{
    assert(s.take(i + 1).drop_last() =~= s.take(i));
    assert(s.take(i + 1).last() == s[i]);
}

/// The value of a digit sequence is at least the value of any prefix.
proof fn lemma_dec_value_prefix(s: Seq<u8>, i: int)
    requires
        all_digit_bytes(s),
        0 <= i <= s.len(),
    ensures
        dec_value(s.take(i)) <= dec_value(s),
    decreases s.len() - i,
{
    if i == s.len() {
        assert(s.take(i) =~= s);
    } else {
        lemma_dec_value_step(s, i);
        assert forall|j: int| 0 <= j < s.take(i).len() implies is_digit_byte(
            #[trigger] s.take(i)[j],
        ) by {
            assert(s.take(i)[j] == s[j]);
        }
        lemma_dec_value_nonneg(s.take(i));
        assert(is_digit_byte(s[i]));
        assert(dec_value(s.take(i)) <= dec_value(s.take(i + 1)));
        lemma_dec_value_prefix(s, i + 1);
    }
}

/// Parse a process id from the decimal digits of a directory name, as the
/// filesystem enumeration writes it.
///
/// Yields the id exactly when the name is non-empty, holds only decimal
/// digits, and its value fits a 32-bit id; anything else is no process
/// directory.
pub fn parse_process_id(digits: &[u8]) -> (r: Option<u32>)
    ensures
        r is Some <==> digits@.len() > 0 && all_digit_bytes(digits@) && dec_value(digits@)
            <= u32::MAX,
        r is Some ==> r.unwrap() == dec_value(digits@),
{
    if digits.len() == 0 {
        return None;
    }
    let mut value: u32 = 0;
    let mut i: usize = 0;
    while i < digits.len()
        invariant
            0 < digits@.len(),
            0 <= i <= digits@.len(),
            forall|k: int| 0 <= k < i ==> is_digit_byte(#[trigger] digits@[k]),
            value == dec_value(digits@.take(i as int)),
        decreases digits@.len() - i,
    {
        let b = digits[i];
        if b < 48 || b > 57 {
            proof {
                assert(!is_digit_byte(digits@[i as int]));
            }
            return None;
        }
        let d = (b - 48) as u32;
        proof {
            lemma_dec_value_step(digits@, i as int);
        }
        if value > 429496729 || (value == 429496729 && d > 5) {
            proof {
                assert(dec_value(digits@.take(i as int + 1)) > u32::MAX);
                if all_digit_bytes(digits@) {
                    lemma_dec_value_prefix(digits@, i as int + 1);
                }
            }
            return None;
        }
        value = value * 10 + d;
        i += 1;
    }
    proof {
        assert(digits@.take(i as int) =~= digits@);
    }
    Some(value)
}

} // verus!
