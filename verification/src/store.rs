//! The attribute store: set, query and enumerate the attributes of a file.
//!
//! Each operation is given as a spec-level transition on [`FileStateView`]
//! and an executable function proved to implement it.  The two native models
//! differ on purpose and the differences are kept: the bitmask model writes
//! the whole flag word at once and knows all three attributes; the POSIX
//! model emulates Hidden by a leading dot in the file name, emulates
//! ReadOnly through the permission bits, and has no concept of Normal, so
//! that flag is a successful no-op there.

use vstd::prelude::*;

use crate::attribute::{Attributes, spec_has_flag, HIDDEN_FLAG, NORMAL_FLAG, READ_ONLY_FLAG};
use crate::error::SystemError;
use crate::state::{FileState, FileStateView, MaskFile, PosixFileView};

verus! {

/// Whether `flag` is one of the three single attribute flags.
pub open spec fn is_attribute_flag(flag: u32) -> bool {
    flag == NORMAL_FLAG || flag == HIDDEN_FLAG || flag == READ_ONLY_FLAG
}

/// Whether the platform modelled by `s` exposes the single flag `flag`.
pub open spec fn platform_supports(s: FileStateView, flag: u32) -> bool {
    match s {
        FileStateView::Mask(_) => is_attribute_flag(flag),
        FileStateView::Posix(_) => flag == HIDDEN_FLAG || flag == READ_ONLY_FLAG,
    }
}

/// The byte that marks a POSIX file as hidden when it leads the name.
pub const DOT_BYTE: u8 = 46;

/// Whether a POSIX file name marks the file as hidden.
pub open spec fn starts_with_dot(name: Seq<u8>) -> bool {
    name.len() > 0 && name[0] == DOT_BYTE
}

/// The transition that setting `a` performs on a file, with its reported
/// success.  An empty effective set is a no-op that still succeeds; a file
/// that does not exist makes every other request fail.
pub open spec fn set_attribute_spec(s: FileStateView, a: Attributes) -> (FileStateView, bool) {
    match s {
        FileStateView::Mask(f) => {
            if a.bits == 0 {
                (s, true)
            } else if !f.exists {
                (s, false)
            } else {
                (
                    FileStateView::Mask(
                        MaskFile {
                            exists: f.exists,
                            attribute_bits: a.bits,
                            created: f.created,
                            accessed: f.accessed,
                            modified: f.modified,
                        },
                    ),
                    true,
                )
            }
        },
        FileStateView::Posix(f) => {
            let wants_hidden = spec_has_flag(a.bits, HIDDEN_FLAG);
            let wants_read_only = spec_has_flag(a.bits, READ_ONLY_FLAG);
            if !wants_hidden && !wants_read_only {
                (s, true)
            } else if !f.exists {
                (s, false)
            } else {
                let new_name = if wants_hidden && !starts_with_dot(f.name) {
                    seq![DOT_BYTE] + f.name
                } else {
                    f.name
                };
                (
                    FileStateView::Posix(
                        PosixFileView {
                            exists: f.exists,
                            name: new_name,
                            read_only: f.read_only || wants_read_only,
                            accessed: f.accessed,
                            modified: f.modified,
                        },
                    ),
                    true,
                )
            }
        },
    }
}

/// What a query for `a` answers on a file in state `s`.  A missing file and
/// an absent attribute both answer `false`; the POSIX model only knows how
/// to ask for the single Hidden or ReadOnly flag.
pub open spec fn has_attribute_spec(s: FileStateView, a: Attributes) -> bool {
    match s {
        FileStateView::Mask(f) => f.exists && spec_has_flag(f.attribute_bits, a.bits),
        FileStateView::Posix(f) => f.exists && if a.bits == HIDDEN_FLAG {
            starts_with_dot(f.name)
        } else if a.bits == READ_ONLY_FLAG {
            f.read_only
        } else {
            false
        },
    }
}

/// The attributes present in the flag word `bits`, in the declared order
/// Normal, Hidden, ReadOnly.
pub open spec fn mask_attribute_list(bits: u32) -> Seq<Attributes> {
    let with_normal = if spec_has_flag(bits, NORMAL_FLAG) {
        seq![Attributes { bits: NORMAL_FLAG }]
    } else {
        Seq::<Attributes>::empty()
    };
    let with_hidden = if spec_has_flag(bits, HIDDEN_FLAG) {
        with_normal.push(Attributes { bits: HIDDEN_FLAG })
    } else {
        with_normal
    };
    if spec_has_flag(bits, READ_ONLY_FLAG) {
        with_hidden.push(Attributes { bits: READ_ONLY_FLAG })
    } else {
        with_hidden
    }
}

/// The attributes of a POSIX file, in the declared order (Normal is never
/// present there).
pub open spec fn posix_attribute_list(hidden: bool, read_only: bool) -> Seq<Attributes> {
    let with_hidden = if hidden {
        seq![Attributes { bits: HIDDEN_FLAG }]
    } else {
        Seq::<Attributes>::empty()
    };
    if read_only {
        with_hidden.push(Attributes { bits: READ_ONLY_FLAG })
    } else {
        with_hidden
    }
}

/// What enumerating the attributes of a file in state `s` yields.  It fails
/// exactly when the metadata query itself fails, that is when the file does
/// not exist; zero present attributes are an `Ok` with an empty list.
pub open spec fn get_attributes_spec(s: FileStateView) -> Result<Seq<Attributes>, SystemError> {
    match s {
        FileStateView::Mask(f) => {
            if !f.exists {
                Err(SystemError::NotFound)
            } else {
                Ok(mask_attribute_list(f.attribute_bits))
            }
        },
        FileStateView::Posix(f) => {
            if !f.exists {
                Err(SystemError::NotFound)
            } else {
                Ok(posix_attribute_list(starts_with_dot(f.name), f.read_only))
            }
        },
    }
}

/// Whether this POSIX file name begins with the hidden marker.
fn name_starts_with_dot(name: &Vec<u8>) -> (r: bool)
    ensures
        r == starts_with_dot(name@),
{
    name.len() > 0 && name[0] == DOT_BYTE
}

/// Apply the attribute set `attrib` to the file in state `state`, replacing
/// the flags that the platform's model exposes, and report success.
///
/// An empty effective set is a no-op that still reports success.  On the
/// POSIX model, setting Hidden renames the file: its name gains a leading
/// dot, so the path the caller held stops naming it.
pub fn set_attribute(state: &mut FileState, attrib: Attributes) -> (ok: bool)
    ensures
        final(state)@ == set_attribute_spec(old(state)@, attrib).0,
        ok == set_attribute_spec(old(state)@, attrib).1,
{
    match state {
        FileState::Mask(f) => {
            if attrib.bits == 0 {
                true
            } else if !f.exists {
                false
            } else {
                f.attribute_bits = attrib.bits;
                true
            }
        },
        FileState::Posix(f) => {
            let wants_hidden = attrib.bits & HIDDEN_FLAG == HIDDEN_FLAG;
            let wants_read_only = attrib.bits & READ_ONLY_FLAG == READ_ONLY_FLAG;
            if !wants_hidden && !wants_read_only {
                true
            } else if !f.exists {
                false
            } else {
                if wants_hidden && !name_starts_with_dot(&f.name) {
                    f.name.insert(0, DOT_BYTE);
                    proof {
                        assert(f.name@ =~= seq![DOT_BYTE] + old(state)@->Posix_0.name);
                    }
                }
                if wants_read_only {
                    f.read_only = true;
                }
                true
            }
        },
    }
}

/// Whether the file in state `state` carries every flag of `attrib`.
///
/// Answers `false` both when the attribute is genuinely absent and when the
/// query itself fails because the file does not exist; the two cases are not
/// distinguished, mirroring the native sentinel that collapses into a
/// boolean.
pub fn has_attribute(state: &FileState, attrib: Attributes) -> (r: bool)
    ensures
        r == has_attribute_spec(state@, attrib),
{
    match state {
        FileState::Mask(f) => f.exists && f.attribute_bits & attrib.bits == attrib.bits,
        FileState::Posix(f) => f.exists && if attrib.bits == HIDDEN_FLAG {
            name_starts_with_dot(&f.name)
        } else if attrib.bits == READ_ONLY_FLAG {
            f.read_only
        } else {
            false
        },
    }
}

/// List the attributes present on the file in state `state`, iterating the
/// fixed set Normal, Hidden, ReadOnly in that order.  Fails only when the
/// underlying metadata query fails, that is when the file does not exist.
pub fn get_attributes(state: &FileState) -> (r: Result<Vec<Attributes>, SystemError>)
    ensures
        match r {
            Ok(v) => get_attributes_spec(state@) == Ok::<Seq<Attributes>, SystemError>(v@),
            Err(e) => get_attributes_spec(state@) == Err::<Seq<Attributes>, SystemError>(e),
        },
{
    match state {
        FileState::Mask(f) => {
            if !f.exists {
                Err(SystemError::NotFound)
            } else {
                let mut out: Vec<Attributes> = Vec::new();
                if f.attribute_bits & NORMAL_FLAG == NORMAL_FLAG {
                    out.push(Attributes { bits: NORMAL_FLAG });
                }
                if f.attribute_bits & HIDDEN_FLAG == HIDDEN_FLAG {
                    out.push(Attributes { bits: HIDDEN_FLAG });
                }
                if f.attribute_bits & READ_ONLY_FLAG == READ_ONLY_FLAG {
                    out.push(Attributes { bits: READ_ONLY_FLAG });
                }
                proof {
                    assert(out@ =~= mask_attribute_list(f.attribute_bits));
                }
                Ok(out)
            }
        },
        FileState::Posix(f) => {
            if !f.exists {
                Err(SystemError::NotFound)
            } else {
                let mut out: Vec<Attributes> = Vec::new();
                if name_starts_with_dot(&f.name) {
                    out.push(Attributes { bits: HIDDEN_FLAG });
                }
                if f.read_only {
                    out.push(Attributes { bits: READ_ONLY_FLAG });
                }
                proof {
                    assert(out@ =~= posix_attribute_list(starts_with_dot(f.name@), f.read_only));
                }
                Ok(out)
            }
        },
    }
}

/// A successful set makes every supported requested flag observable: after
/// `set_attribute` reports success, enumerating the attributes yields a list
/// that is a superset of the flags of the request that the platform's model
/// exposes.
pub proof fn lemma_set_then_get_superset(s: FileStateView, a: Attributes, flag: u32)
    requires
        is_attribute_flag(flag),
        spec_has_flag(a.bits, flag),
        platform_supports(s, flag),
        set_attribute_spec(s, a).1,
    ensures
        get_attributes_spec(set_attribute_spec(s, a).0) matches Ok(l) && l.contains(
            Attributes { bits: flag },
        ),
{
    assert(a.bits != 0) by {
        assert(0u32 & flag == 0) by (bit_vector);
    }
    let s2 = set_attribute_spec(s, a).0;
    match s {
        FileStateView::Mask(f) => {
            assert(f.exists);
            let l = mask_attribute_list(a.bits);
            if flag == NORMAL_FLAG {
                assert(l[0] == Attributes { bits: NORMAL_FLAG });
            } else if flag == HIDDEN_FLAG {
                let before = if spec_has_flag(a.bits, NORMAL_FLAG) {
                    1int
                } else {
                    0int
                };
                assert(l[before] == Attributes { bits: HIDDEN_FLAG });
            } else {
                let before = (if spec_has_flag(a.bits, NORMAL_FLAG) {
                    1int
                } else {
                    0int
                }) + (if spec_has_flag(a.bits, HIDDEN_FLAG) {
                    1int
                } else {
                    0int
                });
                assert(l[before] == Attributes { bits: READ_ONLY_FLAG });
            }
        },
        FileStateView::Posix(f) => {
            assert(spec_has_flag(a.bits, HIDDEN_FLAG) || spec_has_flag(a.bits, READ_ONLY_FLAG));
            assert(f.exists);
            let f2 = s2->Posix_0;
            let l = posix_attribute_list(starts_with_dot(f2.name), f2.read_only);
            if flag == HIDDEN_FLAG {
                assert(starts_with_dot(f2.name));
                assert(l[0] == Attributes { bits: HIDDEN_FLAG });
            } else {
                assert(f2.read_only);
                let before = if starts_with_dot(f2.name) {
                    1int
                } else {
                    0int
                };
                assert(l[before] == Attributes { bits: READ_ONLY_FLAG });
            }
        },
    }
}

/// Querying any attribute of a file that does not exist answers `false`.
pub proof fn lemma_has_attribute_missing(s: FileStateView, a: Attributes)
    requires
        !s.is_present(),
    ensures
        !has_attribute_spec(s, a),
{
}

/// Setting the same attribute set twice in succession leaves the same state,
/// and reports the same outcome, as setting it once.
pub proof fn lemma_set_attribute_idempotent(s: FileStateView, a: Attributes)
    ensures
        set_attribute_spec(set_attribute_spec(s, a).0, a).0 == set_attribute_spec(s, a).0,
        set_attribute_spec(set_attribute_spec(s, a).0, a).1 == set_attribute_spec(s, a).1,
{
    let s1 = set_attribute_spec(s, a).0;
    let s2 = set_attribute_spec(s1, a).0;
    match s {
        FileStateView::Mask(_) => {
            assert(s2 == s1);
        },
        FileStateView::Posix(f) => {
            let wants_hidden = spec_has_flag(a.bits, HIDDEN_FLAG);
            let wants_read_only = spec_has_flag(a.bits, READ_ONLY_FLAG);
            if (wants_hidden || wants_read_only) && f.exists {
                let f1 = s1->Posix_0;
                if wants_hidden {
                    assert(starts_with_dot(f1.name));
                }
                assert(s2 == s1);
            }
        },
    }
}

} // verus!
