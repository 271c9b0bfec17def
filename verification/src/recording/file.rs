//! Recording directories and their size on disk.
use vstd::prelude::*;

use crate::paths::{join_path, path_join};

verus! {

/// A directory entry as far as sizes go: a regular file of some size, a
/// directory with its entries, or anything else (a link, a device), which
/// takes no room of its own.
pub enum FsEntry {
    File { size: u64 },
    Directory { entries: Vec<FsEntry> },
    Other,
}

/// Total size of the regular files in `e`, at any depth.
pub open spec fn entry_size(e: FsEntry) -> nat
    decreases e,
{
    match e {
        FsEntry::File { size } => size as nat,
        FsEntry::Directory { entries } => entries_size(entries@),
        FsEntry::Other => 0,
    }
}

/// Total size of the regular files in all of `es`.
pub open spec fn entries_size(es: Seq<FsEntry>) -> nat
    decreases es,
{
    if es.len() == 0 {
        0
    } else {
        entries_size(es.drop_last()) + entry_size(es.last())
    }
}

/// Total size in bytes of the regular files in a directory tree; a root
/// that is not a directory counts as empty. The total must fit in 64 bits.
pub fn folder_size_bytes(root: &FsEntry) -> (size: u64)
    requires
        root matches FsEntry::Directory { entries } ==> entries_size(entries@) <= u64::MAX,
    ensures
        size == match root {
            FsEntry::Directory { entries } => entries_size(entries@),
            _ => 0,
        },
{
    match root {
        FsEntry::Directory { entries } => entries_total(entries),
        _ => 0,
    }
}

fn entries_total(entries: &Vec<FsEntry>) -> (size: u64)
    requires
        entries_size(entries@) <= u64::MAX,
    ensures
        size == entries_size(entries@),
    decreases entries@,
{
    let mut size: u64 = 0;
    let mut i: usize = 0;
    assert(entries@.take(0) =~= Seq::<FsEntry>::empty());
    while i < entries.len()
        invariant
            i <= entries.len(),
            entries_size(entries@) <= u64::MAX,
            size == entries_size(entries@.take(i as int)),
        decreases entries.len() - i,
    {
        proof {
            lemma_entries_size_prefix(entries@, i as int + 1);
            assert(entries@.take(i + 1).drop_last() =~= entries@.take(i as int));
            assert(entries@.take(i + 1).last() == entries@[i as int]);
            assert(entries_size(entries@.take(i + 1)) == size + entry_size(entries@[i as int]));
        }
        let item = &entries[i];
        let item_size: u64 = match item {
            FsEntry::File { size: file_size } => *file_size,
            FsEntry::Directory { entries: inner } => {
                assert(decreases_to!(entries@ => entries@[i as int]));
                entries_total(inner)
            },
            FsEntry::Other => 0,
        };
        assert(item_size == entry_size(entries@[i as int]));
        size = size + item_size;
        i = i + 1;
    }
    assert(entries@.take(entries.len() as int) =~= entries@);
    size
}

/// [`folder_size_bytes`] for any tree: `None` when the total does not fit
/// in 64 bits.
pub fn try_folder_size_bytes(root: &FsEntry) -> (size: Option<u64>)
    ensures
        match root {
            FsEntry::Directory { entries } => if entries_size(entries@) <= u64::MAX {
                size == Some(entries_size(entries@) as u64)
            } else {
                size is None
            },
            _ => size == Some(0u64),
        },
{
    match root {
        FsEntry::Directory { entries } => checked_entries_total(entries),
        _ => Some(0),
    }
}

fn checked_entries_total(entries: &Vec<FsEntry>) -> (size: Option<u64>)
    ensures
        if entries_size(entries@) <= u64::MAX {
            size == Some(entries_size(entries@) as u64)
        } else {
            size is None
        },
    decreases entries@,
{
    let mut size: u64 = 0;
    let mut i: usize = 0;
    assert(entries@.take(0) =~= Seq::<FsEntry>::empty());
    while i < entries.len()
        invariant
            i <= entries.len(),
            size == entries_size(entries@.take(i as int)),
        decreases entries.len() - i,
    {
        proof {
            assert(entries@.take(i + 1).drop_last() =~= entries@.take(i as int));
            assert(entries@.take(i + 1).last() == entries@[i as int]);
            assert(entries_size(entries@.take(i + 1)) == size + entry_size(entries@[i as int]));
        }
        let item = &entries[i];
        let item_size: Option<u64> = match item {
            FsEntry::File { size: file_size } => Some(*file_size),
            FsEntry::Directory { entries: inner } => {
                assert(decreases_to!(entries@ => entries@[i as int]));
                checked_entries_total(inner)
            },
            FsEntry::Other => Some(0),
        };
        match item_size {
            Some(n) => match size.checked_add(n) {
                Some(total) => {
                    size = total;
                },
                None => {
                    proof {
                        lemma_entries_size_prefix(entries@, i as int + 1);
                    }
                    return None;
                },
            },
            None => {
                proof {
                    lemma_entries_size_prefix(entries@, i as int + 1);
                }
                return None;
            },
        }
        i = i + 1;
    }
    assert(entries@.take(entries.len() as int) =~= entries@);
    Some(size)
}

/// A prefix of the entries takes no more room than all of them.
pub proof fn lemma_entries_size_prefix(es: Seq<FsEntry>, k: int)
    requires
        0 <= k <= es.len(),
    ensures
        entries_size(es.take(k)) <= entries_size(es),
    decreases es.len(),
{
    if k < es.len() {
        lemma_entries_size_prefix(es.drop_last(), k);
        assert(es.drop_last().take(k) =~= es.take(k));
    } else {
        assert(es.take(k) =~= es);
    }
}

} // verus!
