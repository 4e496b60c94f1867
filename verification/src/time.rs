//! The time store: apply a partially-specified timestamp to a file.
//!
//! A [`FileTime`] may leave any calendar field unset (the sentinel `-1`);
//! an unset field resolves to the matching field of the wall clock at the
//! moment of the call, not to the file's existing timestamp.  The bitmask
//! model writes any one of the three timestamps of an existing file; the
//! POSIX model has no creation time at all, so setting it always reports
//! [`SystemError::Unsupported`], and applies access and modification times
//! through an external touch utility that takes the fixed textual form
//! `YYYYMMDDhhmm.ss` built by [`format_touch_time`].
//!
//! Fields are passed through without range validation; a value outside its
//! calendar range is handed to the native side reduced to the unsigned
//! 16-bit word the native time structure keeps, as the bitmask model does.

use chrono::Datelike;
use chrono::Timelike;
use vstd::prelude::*;
use vstd::string::StringExecFns;

use crate::error::SystemError;
use crate::state::{FileState, FileStateView, MaskFile, PosixFileView, Timestamp};

verus! {

/// A partially-specified calendar timestamp.  A field holding `-1` is
/// absent and resolves to the current wall-clock value of that field when
/// the timestamp is applied.
#[derive(Clone, Copy, Debug, PartialEq, Eq, Structural)]
pub struct FileTime {
    pub day: i16,
    pub month: i16,
    pub year: i16,
    pub hour: i16,
    pub minute: i16,
    pub second: i16,
    pub milliseconds: i16,
}

impl FileTime {
    /// A timestamp with the given calendar date and every time-of-day field
    /// absent.
    pub fn new(day: i16, month: i16, year: i16) -> (r: FileTime)
        ensures
            r.day == day,
            r.month == month,
            r.year == year,
            r.hour == -1,
            r.minute == -1,
            r.second == -1,
            r.milliseconds == -1,
    {
        FileTime { day, month, year, hour: -1, minute: -1, second: -1, milliseconds: -1 }
    }
}

/// Whether every field of `t` is set.
pub open spec fn all_fields_present(t: FileTime) -> bool {
    t.day != -1 && t.month != -1 && t.year != -1 && t.hour != -1 && t.minute != -1 && t.second
        != -1 && t.milliseconds != -1
}

/// What any reading of the wall clock satisfies.
pub open spec fn clock_in_range(t: Timestamp) -> bool {
    1 <= t.month <= 12 && 1 <= t.day <= 31 && t.hour < 24 && t.minute < 60 && t.second < 60
        && t.millisecond < 2000
}

/// Relies on chrono::Local::now and its Datelike/Timelike accessors: month
/// is 1 to 12, day 1 to 31, hour below 24, minute and second below 60, and
/// the sub-second milliseconds stay below 2000 even across a leap second.
#[verifier::external_body]
fn read_local_clock() -> (r: Timestamp)
    ensures
        clock_in_range(r),
{
    let now = chrono::Local::now();
    Timestamp {
        year: now.year() as u16,
        month: now.month() as u16,
        day: now.day() as u16,
        hour: now.hour() as u16,
        minute: now.minute() as u16,
        second: now.second() as u16,
        millisecond: now.timestamp_subsec_millis() as u16,
    }
}

/// Relies on chrono::Utc::now and its Datelike/Timelike accessors, with the
/// same field ranges as the local reading; this is the system clock that
/// the bitmask model's native time calls consult.
#[verifier::external_body]
fn read_system_clock() -> (r: Timestamp)
    ensures
        clock_in_range(r),
{
    let now = chrono::Utc::now();
    Timestamp {
        year: now.year() as u16,
        month: now.month() as u16,
        day: now.day() as u16,
        hour: now.hour() as u16,
        minute: now.minute() as u16,
        second: now.second() as u16,
        millisecond: now.timestamp_subsec_millis() as u16,
    }
}

/// The fully-specified timestamp that applying `t` at clock reading `now`
/// writes: each absent field keeps the clock's value, each set field is
/// taken as given, reduced to the unsigned 16-bit native word.
pub open spec fn resolve_spec(t: FileTime, now: Timestamp) -> Timestamp {
    Timestamp {
        year: if t.year == -1 {
            now.year
        } else {
            t.year as u16
        },
        month: if t.month == -1 {
            now.month
        } else {
            t.month as u16
        },
        day: if t.day == -1 {
            now.day
        } else {
            t.day as u16
        },
        hour: if t.hour == -1 {
            now.hour
        } else {
            t.hour as u16
        },
        minute: if t.minute == -1 {
            now.minute
        } else {
            t.minute as u16
        },
        second: if t.second == -1 {
            now.second
        } else {
            t.second as u16
        },
        millisecond: if t.milliseconds == -1 {
            now.millisecond
        } else {
            t.milliseconds as u16
        },
    }
}

/// Overlay the set fields of `time` on the clock reading `now`.
pub fn resolve(time: &FileTime, now: &Timestamp) -> (r: Timestamp)
    ensures
        r == resolve_spec(*time, *now),
{
    Timestamp {
        year: if time.year == -1 {
            now.year
        } else {
            #[verifier::truncate] (time.year as u16)
        },
        month: if time.month == -1 {
            now.month
        } else {
            #[verifier::truncate] (time.month as u16)
        },
        day: if time.day == -1 {
            now.day
        } else {
            #[verifier::truncate] (time.day as u16)
        },
        hour: if time.hour == -1 {
            now.hour
        } else {
            #[verifier::truncate] (time.hour as u16)
        },
        minute: if time.minute == -1 {
            now.minute
        } else {
            #[verifier::truncate] (time.minute as u16)
        },
        second: if time.second == -1 {
            now.second
        } else {
            #[verifier::truncate] (time.second as u16)
        },
        millisecond: if time.milliseconds == -1 {
            now.millisecond
        } else {
            #[verifier::truncate] (time.milliseconds as u16)
        },
    }
}

/// The character of one decimal digit.
pub open spec fn digit_char(d: nat) -> char {
    if d == 0 {
        '0'
    } else if d == 1 {
        '1'
    } else if d == 2 {
        '2'
    } else if d == 3 {
        '3'
    } else if d == 4 {
        '4'
    } else if d == 5 {
        '5'
    } else if d == 6 {
        '6'
    } else if d == 7 {
        '7'
    } else if d == 8 {
        '8'
    } else {
        '9'
    }
}

/// The decimal digits of `v`, most significant first, without leading
/// zeros (the single digit `0` for zero).
pub open spec fn dec_digits(v: nat) -> Seq<char>
    decreases v,
{
    if v < 10 {
        seq![digit_char(v)]
    } else {
        dec_digits(v / 10).push(digit_char(v % 10))
    }
}

/// The decimal digits of `v`, left-padded with zeros to at least `width`
/// characters.
pub open spec fn zero_padded(v: nat, width: nat) -> Seq<char> {
    if dec_digits(v).len() >= width {
        dec_digits(v)
    } else {
        Seq::new((width - dec_digits(v).len()) as nat, |i: int| '0') + dec_digits(v)
    }
}

/// The fixed textual form `YYYYMMDDhhmm.ss` that the external touch
/// utility takes: every field zero-padded to its width, one literal dot
/// before the seconds.
pub open spec fn touch_timestamp(t: Timestamp) -> Seq<char> {
    zero_padded(t.year as nat, 4) + zero_padded(t.month as nat, 2) + zero_padded(t.day as nat, 2)
        + zero_padded(t.hour as nat, 2) + zero_padded(t.minute as nat, 2) + seq!['.'] + zero_padded(
        t.second as nat,
        2,
    )
}

/// The timestamp a fully-specified [`FileTime`] denotes, independent of
/// any clock reading.
pub open spec fn fields_timestamp(t: FileTime) -> Timestamp {
    Timestamp {
        year: t.year as u16,
        month: t.month as u16,
        day: t.day as u16,
        hour: t.hour as u16,
        minute: t.minute as u16,
        second: t.second as u16,
        millisecond: t.milliseconds as u16,
    }
}

/// One decimal digit as text.
fn digit_str(d: u16) -> (r: &'static str)
    requires
        d < 10,
    ensures
        r@ == seq![digit_char(d as nat)],
{
    proof {
        reveal_strlit("0");
        reveal_strlit("1");
        reveal_strlit("2");
        reveal_strlit("3");
        reveal_strlit("4");
        reveal_strlit("5");
        reveal_strlit("6");
        reveal_strlit("7");
        reveal_strlit("8");
        reveal_strlit("9");
    }
    if d == 0 {
        "0"
    } else if d == 1 {
        "1"
    } else if d == 2 {
        "2"
    } else if d == 3 {
        "3"
    } else if d == 4 {
        "4"
    } else if d == 5 {
        "5"
    } else if d == 6 {
        "6"
    } else if d == 7 {
        "7"
    } else if d == 8 {
        "8"
    } else {
        "9"
    }
}

/// Append the decimal digits of `v` to `out`.
fn push_dec_digits(out: &mut String, v: u16)
    ensures
        final(out)@ == old(out)@ + dec_digits(v as nat),
    decreases v,
{
    if v < 10 {
        out.append(digit_str(v));
        proof {
            assert(final(out)@ =~= old(out)@ + dec_digits(v as nat));
        }
    } else {
        push_dec_digits(out, v / 10);
        out.append(digit_str(v % 10));
        proof {
            assert(final(out)@ =~= old(out)@ + dec_digits(v as nat));
        }
    }
}

/// How many decimal digits `v` has.
fn dec_digit_count(v: u16) -> (n: usize)
    ensures
        n == dec_digits(v as nat).len(),
        1 <= n <= 5,
{
    proof {
        lemma_dec_digits_len(v as nat);
    }
    if v < 10 {
        1
    } else if v < 100 {
        2
    } else if v < 1000 {
        3
    } else if v < 10000 {
        4
    } else {
        5
    }
}

/// The digit count of any value below one hundred thousand.
proof fn lemma_dec_digits_len(v: nat)
    requires
        v < 100000,
    ensures
        dec_digits(v).len() == if v < 10 {
            1nat
        } else if v < 100 {
            2nat
        } else if v < 1000 {
            3nat
        } else if v < 10000 {
            4nat
        } else {
            5nat
        },
    decreases v,
{
    if v >= 10 {
        lemma_dec_digits_len(v / 10);
    }
}

/// Append `k` zero characters to `out`.
fn push_zeros(out: &mut String, k: usize)
    ensures
        final(out)@ == old(out)@ + Seq::new(k as nat, |i: int| '0'),
    decreases k,
{
    proof {
        reveal_strlit("0");
    }
    if k == 0 {
        proof {
            assert(final(out)@ =~= old(out)@ + Seq::new(0nat, |i: int| '0'));
        }
    } else {
        out.append("0");
        push_zeros(out, k - 1);
        proof {
            assert(final(out)@ =~= old(out)@ + Seq::new(k as nat, |i: int| '0'));
        }
    }
}

/// Append `v`, zero-padded to at least `width` digits, to `out`.
fn push_padded(out: &mut String, v: u16, width: usize)
    ensures
        final(out)@ == old(out)@ + zero_padded(v as nat, width as nat),
{
    let n = dec_digit_count(v);
    if n < width {
        push_zeros(out, width - n);
    }
    push_dec_digits(out, v);
    proof {
        assert(final(out)@ =~= old(out)@ + zero_padded(v as nat, width as nat));
    }
}

/// Render the timestamp that applying `time` at clock reading `now` writes,
/// in the fixed `YYYYMMDDhhmm.ss` form the external touch utility takes.
/// This routine is pure: the clock reading is an argument, so the result is
/// wholly determined by its inputs.
pub fn format_touch_time(time: &FileTime, now: &Timestamp) -> (r: String)
    ensures
        r@ == touch_timestamp(resolve_spec(*time, *now)),
{
    let t = resolve(time, now);
    let mut out = String::new();
    push_padded(&mut out, t.year, 4);
    push_padded(&mut out, t.month, 2);
    push_padded(&mut out, t.day, 2);
    push_padded(&mut out, t.hour, 2);
    push_padded(&mut out, t.minute, 2);
    proof {
        reveal_strlit(".");
    }
    out.append(".");
    push_padded(&mut out, t.second, 2);
    proof {
        assert(out@ =~= touch_timestamp(resolve_spec(*time, *now)));
    }
    out
}

/// Render `time` against the wall clock of this moment, in the fixed
/// `YYYYMMDDhhmm.ss` form.  When every field of `time` is set the result
/// does not depend on the clock at all.
pub fn filetime_to_systime(time: &FileTime) -> (r: String)
    ensures
        exists|c: Timestamp|
            clock_in_range(c) && r@ == touch_timestamp(resolve_spec(*time, c)),
        all_fields_present(*time) ==> r@ == touch_timestamp(fields_timestamp(*time)),
{
    let now = read_local_clock();
    let r = format_touch_time(time, &now);
    proof {
        assert(clock_in_range(now) && r@ == touch_timestamp(resolve_spec(*time, now)));
        if all_fields_present(*time) {
            assert(fields_timestamp(*time) == resolve_spec(*time, now));
        }
    }
    r
}

/// The same timestamp with the milliseconds dropped, as the external touch
/// utility's seconds-resolution form keeps it.
pub open spec fn strip_millis(t: Timestamp) -> Timestamp {
    Timestamp {
        year: t.year,
        month: t.month,
        day: t.day,
        hour: t.hour,
        minute: t.minute,
        second: t.second,
        millisecond: 0,
    }
}

/// The transition that setting the creation time to `t` at clock reading
/// `now` performs, with its reported outcome.  The POSIX model stores no
/// creation time, so there the request is refused as unsupported and the
/// state is untouched.
pub open spec fn set_creation_spec(s: FileStateView, t: FileTime, now: Timestamp) -> (
    FileStateView,
    Result<(), SystemError>,
) {
    match s {
        FileStateView::Mask(f) => {
            if !f.exists {
                (s, Err(SystemError::NotFound))
            } else {
                (
                    FileStateView::Mask(
                        MaskFile {
                            exists: f.exists,
                            attribute_bits: f.attribute_bits,
                            created: resolve_spec(t, now),
                            accessed: f.accessed,
                            modified: f.modified,
                        },
                    ),
                    Ok(()),
                )
            }
        },
        FileStateView::Posix(_) => (s, Err(SystemError::Unsupported)),
    }
}

/// The transition that setting the access time to `t` at clock reading
/// `now` performs.  Both models support it; the POSIX model writes through
/// the touch utility, which keeps seconds resolution.
pub open spec fn set_accessed_spec(s: FileStateView, t: FileTime, now: Timestamp) -> (
    FileStateView,
    Result<(), SystemError>,
) {
    match s {
        FileStateView::Mask(f) => {
            if !f.exists {
                (s, Err(SystemError::NotFound))
            } else {
                (
                    FileStateView::Mask(
                        MaskFile {
                            exists: f.exists,
                            attribute_bits: f.attribute_bits,
                            created: f.created,
                            accessed: resolve_spec(t, now),
                            modified: f.modified,
                        },
                    ),
                    Ok(()),
                )
            }
        },
        FileStateView::Posix(f) => {
            if !f.exists {
                (s, Err(SystemError::NotFound))
            } else {
                (
                    FileStateView::Posix(
                        PosixFileView {
                            exists: f.exists,
                            name: f.name,
                            read_only: f.read_only,
                            accessed: strip_millis(resolve_spec(t, now)),
                            modified: f.modified,
                        },
                    ),
                    Ok(()),
                )
            }
        },
    }
}

/// The transition that setting the modification time to `t` at clock
/// reading `now` performs.
pub open spec fn set_modified_spec(s: FileStateView, t: FileTime, now: Timestamp) -> (
    FileStateView,
    Result<(), SystemError>,
) {
    match s {
        FileStateView::Mask(f) => {
            if !f.exists {
                (s, Err(SystemError::NotFound))
            } else {
                (
                    FileStateView::Mask(
                        MaskFile {
                            exists: f.exists,
                            attribute_bits: f.attribute_bits,
                            created: f.created,
                            accessed: f.accessed,
                            modified: resolve_spec(t, now),
                        },
                    ),
                    Ok(()),
                )
            }
        },
        FileStateView::Posix(f) => {
            if !f.exists {
                (s, Err(SystemError::NotFound))
            } else {
                (
                    FileStateView::Posix(
                        PosixFileView {
                            exists: f.exists,
                            name: f.name,
                            read_only: f.read_only,
                            accessed: f.accessed,
                            modified: strip_millis(resolve_spec(t, now)),
                        },
                    ),
                    Ok(()),
                )
            }
        },
    }
}

/// Set the creation time of the file in `state` to `create` resolved at the
/// given clock reading.
pub fn set_creation_date_at(state: &mut FileState, create: &FileTime, now: &Timestamp) -> (r:
    Result<(), SystemError>)
    ensures
        final(state)@ == set_creation_spec(old(state)@, *create, *now).0,
        r == set_creation_spec(old(state)@, *create, *now).1,
{
    match state {
        FileState::Mask(f) => {
            if !f.exists {
                Err(SystemError::NotFound)
            } else {
                f.created = resolve(create, now);
                Ok(())
            }
        },
        FileState::Posix(_) => Err(SystemError::Unsupported),
    }
}

/// Set the creation time of the file in `state` to `create`, resolving its
/// absent fields against the wall clock of this moment.  On the POSIX
/// model there is no creation time to set: the call reports
/// [`SystemError::Unsupported`] and never succeeds.
pub fn set_creation_date(state: &mut FileState, create: &FileTime) -> (r: Result<
    (),
    SystemError,
>)
    ensures
        exists|c: Timestamp|
            clock_in_range(c) && final(state)@ == set_creation_spec(old(state)@, *create, c).0
                && r == set_creation_spec(old(state)@, *create, c).1,
        old(state)@ is Posix ==> r == Err::<(), SystemError>(SystemError::Unsupported)
            && final(state)@ == old(state)@,
{
    let now = read_system_clock();
    let r = set_creation_date_at(state, create, &now);
    proof {
        assert(clock_in_range(now) && final(state)@ == set_creation_spec(old(state)@, *create, now).0
            && r == set_creation_spec(old(state)@, *create, now).1);
    }
    r
}

/// Set the access time of the file in `state` to `accessed` resolved at the
/// given clock reading.
pub fn set_accessed_date_at(state: &mut FileState, accessed: &FileTime, now: &Timestamp) -> (r:
    Result<(), SystemError>)
    ensures
        final(state)@ == set_accessed_spec(old(state)@, *accessed, *now).0,
        r == set_accessed_spec(old(state)@, *accessed, *now).1,
{
    match state {
        FileState::Mask(f) => {
            if !f.exists {
                Err(SystemError::NotFound)
            } else {
                f.accessed = resolve(accessed, now);
                Ok(())
            }
        },
        FileState::Posix(f) => {
            if !f.exists {
                Err(SystemError::NotFound)
            } else {
                let t = resolve(accessed, now);
                f.accessed = Timestamp {
                    year: t.year,
                    month: t.month,
                    day: t.day,
                    hour: t.hour,
                    minute: t.minute,
                    second: t.second,
                    millisecond: 0,
                };
                Ok(())
            }
        },
    }
}

/// Set the access time of the file in `state` to `accessed`, resolving its
/// absent fields against the wall clock of this moment: the system clock
/// on the bitmask model, whose native time call consults it, and the local
/// clock on the POSIX model, which the touch utility interprets.
pub fn set_accessed_date(state: &mut FileState, accessed: &FileTime) -> (r: Result<
    (),
    SystemError,
>)
    ensures
        exists|c: Timestamp|
            clock_in_range(c) && final(state)@ == set_accessed_spec(old(state)@, *accessed, c).0
                && r == set_accessed_spec(old(state)@, *accessed, c).1,
{
    let now = match state {
        FileState::Mask(_) => read_system_clock(),
        FileState::Posix(_) => read_local_clock(),
    };
    let r = set_accessed_date_at(state, accessed, &now);
    proof {
        assert(clock_in_range(now) && final(state)@ == set_accessed_spec(
            old(state)@,
            *accessed,
            now,
        ).0 && r == set_accessed_spec(old(state)@, *accessed, now).1);
    }
    r
}

/// Set the modification time of the file in `state` to `changed` resolved
/// at the given clock reading.
pub fn set_changed_date_at(state: &mut FileState, changed: &FileTime, now: &Timestamp) -> (r:
    Result<(), SystemError>)
    ensures
        final(state)@ == set_modified_spec(old(state)@, *changed, *now).0,
        r == set_modified_spec(old(state)@, *changed, *now).1,
{
    match state {
        FileState::Mask(f) => {
            if !f.exists {
                Err(SystemError::NotFound)
            } else {
                f.modified = resolve(changed, now);
                Ok(())
            }
        },
        FileState::Posix(f) => {
            if !f.exists {
                Err(SystemError::NotFound)
            } else {
                let t = resolve(changed, now);
                f.modified = Timestamp {
                    year: t.year,
                    month: t.month,
                    day: t.day,
                    hour: t.hour,
                    minute: t.minute,
                    second: t.second,
                    millisecond: 0,
                };
                Ok(())
            }
        },
    }
}

/// Set the modification time of the file in `state` to `changed`, resolving
/// its absent fields against the wall clock of this moment: the system
/// clock on the bitmask model, the local clock on the POSIX model.
pub fn set_changed_date(state: &mut FileState, changed: &FileTime) -> (r: Result<
    (),
    SystemError,
>)
    ensures
        exists|c: Timestamp|
            clock_in_range(c) && final(state)@ == set_modified_spec(old(state)@, *changed, c).0
                && r == set_modified_spec(old(state)@, *changed, c).1,
{
    let now = match state {
        FileState::Mask(_) => read_system_clock(),
        FileState::Posix(_) => read_local_clock(),
    };
    let r = set_changed_date_at(state, changed, &now);
    proof {
        assert(clock_in_range(now) && final(state)@ == set_modified_spec(
            old(state)@,
            *changed,
            now,
        ).0 && r == set_modified_spec(old(state)@, *changed, now).1);
    }
    r
}

/// Read the stored creation time of the file in `state`.  The POSIX model
/// keeps none, so there the query is unsupported.
pub fn creation_date(state: &FileState) -> (r: Result<Timestamp, SystemError>)
    ensures
        match state@ {
            FileStateView::Mask(f) => r == if f.exists {
                Ok::<Timestamp, SystemError>(f.created)
            } else {
                Err::<Timestamp, SystemError>(SystemError::NotFound)
            },
            FileStateView::Posix(_) => r == Err::<Timestamp, SystemError>(
                SystemError::Unsupported,
            ),
        },
{
    match state {
        FileState::Mask(f) => {
            if f.exists {
                Ok(f.created)
            } else {
                Err(SystemError::NotFound)
            }
        },
        FileState::Posix(_) => Err(SystemError::Unsupported),
    }
}

/// A successful creation-time set round-trips: reading the creation time
/// back yields exactly `spec` on its set fields, and the clock reading of
/// the moment of the call on its absent fields, with every field reduced
/// to the native 16-bit word.
pub proof fn lemma_creation_round_trip(s: FileStateView, t: FileTime, now: Timestamp)
    requires
        set_creation_spec(s, t, now).1 is Ok,
    ensures
        ({
            let written = set_creation_spec(s, t, now).0->Mask_0.created;
            &&& written.year == if t.year == -1 { now.year } else { t.year as u16 }
            &&& written.month == if t.month == -1 { now.month } else { t.month as u16 }
            &&& written.day == if t.day == -1 { now.day } else { t.day as u16 }
            &&& written.hour == if t.hour == -1 { now.hour } else { t.hour as u16 }
            &&& written.minute == if t.minute == -1 { now.minute } else { t.minute as u16 }
            &&& written.second == if t.second == -1 { now.second } else { t.second as u16 }
            &&& written.millisecond == if t.milliseconds == -1 {
                now.millisecond
            } else {
                t.milliseconds as u16
            }
        }),
{
}

/// The creation-time setter is unsupported on the POSIX model: it never
/// succeeds there and never touches the state, whatever the request and
/// whatever the clock reads.
pub proof fn lemma_creation_unsupported_on_posix(s: FileStateView, t: FileTime, now: Timestamp)
    requires
        s is Posix,
    ensures
        set_creation_spec(s, t, now).1 == Err::<(), SystemError>(SystemError::Unsupported),
        set_creation_spec(s, t, now).0 == s,
{
}

} // verus!

