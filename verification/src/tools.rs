//! Size of a streamed archive, known before it is written.
use vstd::prelude::*;
use vstd::string::*;

use crate::constants::{
    CENTRAL_DIRECTORY_ENTRY_BASE_SIZE, DESCRIPTOR_SIZE, END_OF_CENTRAL_DIRECTORY_SIZE,
    FILE_HEADER_BASE_SIZE,
};

verus! {

/// The bytes that one stored entry takes: local header, name, data, data descriptor, central
/// directory header and name again.
pub open spec fn spec_entry_size(name_len: nat, size: nat) -> nat {
    (FILE_HEADER_BASE_SIZE + name_len + size + DESCRIPTOR_SIZE + CENTRAL_DIRECTORY_ENTRY_BASE_SIZE
        + name_len) as nat
}

/// The bytes that the stored entries `files` (name, size) take, without the end record.
pub open spec fn spec_entries_size(files: Seq<(Seq<u8>, usize)>) -> nat
    decreases files.len(),
{
    if files.len() == 0 {
        0
    } else {
        spec_entries_size(files.drop_last()) + spec_entry_size(
            files.last().0.len(),
            files.last().1 as nat,
        )
    }
}

/// The names' UTF-8 bytes and the sizes of `files`.
pub open spec fn spec_files_view(files: Seq<(&str, usize)>) -> Seq<(Seq<u8>, usize)> {
    files.map_values(|f: (&str, usize)| (f.0.spec_bytes(), f.1))
}

/// The size of a streamed archive whose entries, named and sized by `files`, are stored
/// without compression and without extra field or comment.
pub fn archive_size(files: &[(&str, usize)]) -> (n: usize)
    requires
        spec_entries_size(spec_files_view(files@)) + END_OF_CENTRAL_DIRECTORY_SIZE <= usize::MAX,
    ensures
        n == spec_entries_size(spec_files_view(files@)) + END_OF_CENTRAL_DIRECTORY_SIZE,
{
    let mut total: usize = 0;
    let mut i: usize = 0;
    while i < files.len()
        invariant
            i <= files@.len(),
            total == spec_entries_size(spec_files_view(files@).take(i as int)),
            spec_entries_size(spec_files_view(files@)) + END_OF_CENTRAL_DIRECTORY_SIZE <= usize::MAX,
        decreases files@.len() - i,
    {
        proof {
            lemma_entries_size_prefix(spec_files_view(files@), i as int + 1);
            assert(spec_files_view(files@).take(i + 1).drop_last() =~= spec_files_view(files@).take(i as int));
        }
        let (name, size) = files[i];
        let name_len = name.len();
        total = total + (FILE_HEADER_BASE_SIZE as usize) + name_len + size + (DESCRIPTOR_SIZE as usize)
            + (CENTRAL_DIRECTORY_ENTRY_BASE_SIZE as usize) + name_len;
        i = i + 1;
    }
    assert(spec_files_view(files@).take(i as int) =~= spec_files_view(files@));
    total + (END_OF_CENTRAL_DIRECTORY_SIZE as usize)
}

/// The entries of a prefix take no more than all the entries.
proof fn lemma_entries_size_prefix(files: Seq<(Seq<u8>, usize)>, k: int)
    requires
        0 <= k <= files.len(),
    ensures
        spec_entries_size(files.take(k)) <= spec_entries_size(files),
    decreases files.len() - k,
{
    if k < files.len() {
        lemma_entries_size_prefix(files, k + 1);
        assert(files.take(k + 1).drop_last() =~= files.take(k));
    } else {
        assert(files.take(k) =~= files);
    }
}

} // verus!
