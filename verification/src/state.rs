//! The model of one file's metadata, per platform.
//!
//! Every store operation in this crate works on an explicit [`FileState`]
//! value instead of a live path: the caller reads the state of a path from
//! the operating system, lets the verified operations decide and transform
//! it, and writes the outcome back.  One variant models the bitmask-based
//! native design (attributes are one flag word, three timestamps are kept
//! with millisecond fields); the other models the POSIX design (hidden is a
//! leading dot in the file name, read-only lives in the permission bits, and
//! there is no creation time at all).

use vstd::prelude::*;

verus! {

/// A fully-specified calendar timestamp, as the native time structures keep
/// it: every field is set, there are no absent markers.
#[derive(Clone, Copy, Debug, PartialEq, Eq, Structural)]
pub struct Timestamp {
    pub year: u16,
    pub month: u16,
    pub day: u16,
    pub hour: u16,
    pub minute: u16,
    pub second: u16,
    pub millisecond: u16,
}

/// Metadata of one file under the bitmask-based model.
#[derive(Clone, Copy, Debug, PartialEq, Eq, Structural)]
pub struct MaskFile {
    /// Whether the path currently names a file.
    pub exists: bool,
    /// The native attribute flag word.
    pub attribute_bits: u32,
    /// When the file was created.
    pub created: Timestamp,
    /// When the file was last read.
    pub accessed: Timestamp,
    /// When the file was last written.
    pub modified: Timestamp,
}

/// Metadata of one file under the POSIX model.
#[derive(Clone, Debug)]
pub struct PosixFile {
    /// Whether the path currently names a file.
    pub exists: bool,
    /// The file's name (the last path segment), in the native byte encoding.
    pub name: Vec<u8>,
    /// Whether the permission bits deny writing.
    pub read_only: bool,
    /// When the file was last read.
    pub accessed: Timestamp,
    /// When the file was last written.
    pub modified: Timestamp,
}

/// The mathematical value of a [`PosixFile`].
pub struct PosixFileView {
    pub exists: bool,
    pub name: Seq<u8>,
    pub read_only: bool,
    pub accessed: Timestamp,
    pub modified: Timestamp,
}

impl View for PosixFile {
    type V = PosixFileView;

    open spec fn view(&self) -> PosixFileView {
        PosixFileView {
            exists: self.exists,
            name: self.name@,
            read_only: self.read_only,
            accessed: self.accessed,
            modified: self.modified,
        }
    }
}

/// The metadata of one file, on whichever platform the caller runs.
#[derive(Clone, Debug)]
pub enum FileState {
    Mask(MaskFile),
    Posix(PosixFile),
}

/// The mathematical value of a [`FileState`].
pub enum FileStateView {
    Mask(MaskFile),
    Posix(PosixFileView),
}

impl View for FileState {
    type V = FileStateView;

    open spec fn view(&self) -> FileStateView {
        match self {
            FileState::Mask(f) => FileStateView::Mask(*f),
            FileState::Posix(f) => FileStateView::Posix(f@),
        }
    }
}

impl FileStateView {
    /// Whether the path the state describes currently names a file.
    pub open spec fn is_present(self) -> bool {
        match self {
            FileStateView::Mask(f) => f.exists,
            FileStateView::Posix(f) => f.exists,
        }
    }
}

impl FileState {
    /// Whether the path the state describes currently names a file.
    pub fn is_present(&self) -> (r: bool)
        ensures
            r == self@.is_present(),
    {
        match self {
            FileState::Mask(f) => f.exists,
            FileState::Posix(f) => f.exists,
        }
    }
}

} // verus!
