//! Plain values the file-dialogue collaborators consume, and the two text
//! conversions the native dialogue calls rest on.
//!
//! A dialogue itself is rendering and stays outside this crate; what is
//! verified here is the data: the (label, pattern) filter pairs and the
//! exact encodings the native calls take and give back — the NUL-separated
//! filter string handed in, and the NUL-terminated byte buffer handed out.

use vstd::prelude::*;
use vstd::string::StringExecFns;
use vstd::utf8::{decode_utf8, valid_utf8};

verus! {

/// The NUL character that separates the fields of a native filter string
/// and ends a native text buffer.
pub const NUL_CHAR: char = '\0';

/// One file filter of a dialogue: a label and the file-name pattern it
/// stands for.
#[derive(Clone, Debug)]
pub struct Filter {
    pub title: String,
    pub file_ending: String,
}

/// The mathematical value of a [`Filter`].
pub struct FilterView {
    pub title: Seq<char>,
    pub file_ending: Seq<char>,
}

impl View for Filter {
    type V = FilterView;

    open spec fn view(&self) -> FilterView {
        FilterView { title: self.title@, file_ending: self.file_ending@ }
    }
}

impl Filter {
    /// A filter with the given label and file-name pattern.
    pub fn new(title: String, file_ending: String) -> (r: Filter)
        ensures
            r@.title == title@,
            r@.file_ending == file_ending@,
    {
        Filter { title, file_ending }
    }
}

/// How one filter is laid out in the native filter string: its label, a
/// NUL, its pattern, a NUL.
pub open spec fn filter_encoding(f: FilterView) -> Seq<char> {
    f.title + seq![NUL_CHAR] + f.file_ending + seq![NUL_CHAR]
}

/// The native filter string of a whole filter list, in order.
pub open spec fn filters_encoding(fs: Seq<FilterView>) -> Seq<char>
    decreases fs.len(),
{
    if fs.len() == 0 {
        Seq::empty()
    } else {
        filter_encoding(fs[0]) + filters_encoding(fs.skip(1))
    }
}

/// Appending one filter extends the encoding at its end.
proof fn lemma_filters_encoding_push(fs: Seq<FilterView>, x: FilterView)
    ensures
        filters_encoding(fs.push(x)) == filters_encoding(fs) + filter_encoding(x),
    decreases fs.len(),
{
    if fs.len() == 0 {
        assert(fs.push(x)[0] == x);
        assert(fs.push(x).skip(1) =~= Seq::<FilterView>::empty());
        assert(filters_encoding(fs.push(x).skip(1)) == Seq::<char>::empty());
        assert(filters_encoding(fs.push(x)) == filter_encoding(x) + Seq::<char>::empty());
        assert(filter_encoding(x) + Seq::<char>::empty() =~= Seq::<char>::empty()
            + filter_encoding(x));
    } else {
        lemma_filters_encoding_push(fs.skip(1), x);
        assert(fs.push(x)[0] == fs[0]);
        assert(fs.push(x).skip(1) =~= fs.skip(1).push(x));
        assert(filter_encoding(fs[0]) + (filters_encoding(fs.skip(1)) + filter_encoding(x))
            =~= (filter_encoding(fs[0]) + filters_encoding(fs.skip(1))) + filter_encoding(x));
    }
}

/// Render a filter list in the exact form the native dialogue call takes:
/// for each filter in order, its label, a NUL, its pattern, a NUL.
pub fn filter_to_str(filter: Vec<Filter>) -> (r: String)
    ensures
        r@ == filters_encoding(filter@.map_values(|f: Filter| f@)),
{
    let ghost all = filter@.map_values(|f: Filter| f@);
    let mut out = String::new();
    proof {
        reveal_strlit("\u{0}");
        assert(all.take(0) =~= Seq::<FilterView>::empty());
    }
    let mut i: usize = 0;
    while i < filter.len()
        invariant
            0 <= i <= filter@.len(),
            all == filter@.map_values(|f: Filter| f@),
            "\u{0}"@ == seq![NUL_CHAR],
            out@ == filters_encoding(all.take(i as int)),
        decreases filter@.len() - i,
    {
        let f = &filter[i];
        out.append(f.title.as_str());
        out.append("\u{0}");
        out.append(f.file_ending.as_str());
        out.append("\u{0}");
        proof {
            assert(all[i as int] == filter@[i as int]@);
            lemma_filters_encoding_push(all.take(i as int), all[i as int]);
            assert(all.take(i as int).push(all[i as int]) =~= all.take(i as int + 1));
            assert(out@ =~= filters_encoding(all.take(i as int + 1)));
        }
        i += 1;
    }
    proof {
        assert(all.take(i as int) =~= all);
    }
    out
}

/// How long the run of bytes before the first NUL of `arr` is.
pub open spec fn nul_prefix_len(arr: Seq<i8>) -> int
    decreases arr.len(),
{
    if arr.len() == 0 || arr[0] == 0 {
        0
    } else {
        1 + nul_prefix_len(arr.skip(1))
    }
}

/// The bytes of `arr` before its first NUL, reinterpreted as the unsigned
/// bytes they carry.
pub open spec fn nul_free_prefix(arr: Seq<i8>) -> Seq<u8> {
    arr.take(nul_prefix_len(arr)).map_values(|b: i8| b as u8)
}

/// The prefix of a sequence whose first `i` bytes are non-NUL, and which
/// ends or holds a NUL at `i`, is exactly its first `i` bytes.
proof fn lemma_nul_prefix_len_at(arr: Seq<i8>, i: int)
    requires
        0 <= i <= arr.len(),
        forall|k: int| 0 <= k < i ==> arr[k] != 0,
        i == arr.len() || arr[i] == 0,
    ensures
        nul_prefix_len(arr) == i,
    decreases i,
{
    if i > 0 {
        lemma_nul_prefix_len_at(arr.skip(1), i - 1);
    }
}

/// Relies on String::from_utf8: bytes that are valid UTF-8 decode to
/// exactly their characters.
#[verifier::external_body]
fn string_from_utf8(bytes: Vec<u8>) -> (r: String)
    requires
        valid_utf8(bytes@),
    ensures
        r@ == decode_utf8(bytes@),
{
    String::from_utf8(bytes).unwrap()
}

/// Decode the text a native call wrote into a signed-byte buffer: the
/// bytes before the first NUL (or the whole buffer, when no NUL ends it),
/// read as UTF-8.
pub fn slice_to_string(arr: &[i8]) -> (r: String)
    requires
        valid_utf8(nul_free_prefix(arr@)),
    ensures
        r@ == decode_utf8(nul_free_prefix(arr@)),
{
    let mut bytes: Vec<u8> = Vec::new();
    let mut i: usize = 0;
    while i < arr.len()
        invariant
            0 <= i <= arr@.len(),
            valid_utf8(nul_free_prefix(arr@)),
            forall|k: int| 0 <= k < i ==> arr@[k] != 0,
            bytes@ == arr@.take(i as int).map_values(|b: i8| b as u8),
        decreases arr@.len() - i,
    {
        let b = arr[i];
        if b == 0 {
            proof {
                lemma_nul_prefix_len_at(arr@, i as int);
                assert(bytes@ =~= nul_free_prefix(arr@));
            }
            return string_from_utf8(bytes);
        }
        bytes.push(#[verifier::truncate] (b as u8));
        proof {
            assert(arr@.take(i as int + 1).map_values(|x: i8| x as u8) =~= arr@.take(
                i as int,
            ).map_values(|x: i8| x as u8).push(arr@[i as int] as u8));
        }
        i += 1;
    }
    proof {
        lemma_nul_prefix_len_at(arr@, i as int);
        assert(arr@.take(i as int) =~= arr@);
        assert(bytes@ =~= nul_free_prefix(arr@));
    }
    string_from_utf8(bytes)
}

} // verus!
