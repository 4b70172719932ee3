//! Planning of the output-directory reset.
//!
//! Before index files are written for a schema or table, its output
//! directory is brought to a known state: every regular file directly
//! inside it is deleted, while subdirectories (and any other entries)
//! are left untouched. The unverified driver lists the directory, hands
//! the entries over, and deletes exactly the files named in the returned
//! plan.

use vstd::prelude::*;

verus! {

/// What one directory entry is: a regular file, a subdirectory, or
/// anything else (sockets, symlinks, ...).
#[derive(PartialEq, Eq, Structural, Clone, Copy, Debug)]
pub enum EntryKind {
    File,
    Dir,
    Other,
}

/// One entry directly inside a directory, as reported by the driver.
pub struct DirEntry {
    pub name: String,
    pub kind: EntryKind,
}

/// The names of the regular files among the entries, in listing order.
pub open spec fn file_names(s: Seq<DirEntry>) -> Seq<Seq<char>>
    decreases s.len(),
{
    if s.len() == 0 {
        Seq::empty()
    } else {
        let prefix = file_names(s.drop_last());
        if s.last().kind is File {
            prefix.push(s.last().name@)
        } else {
            prefix
        }
    }
}

/// The names of the subdirectories among the entries, in listing order.
pub open spec fn dir_names(s: Seq<DirEntry>) -> Seq<Seq<char>>
    decreases s.len(),
{
    if s.len() == 0 {
        Seq::empty()
    } else {
        let prefix = dir_names(s.drop_last());
        if s.last().kind is Dir {
            prefix.push(s.last().name@)
        } else {
            prefix
        }
    }
}

/// The entries that survive a reset: everything that is not a regular
/// file.
pub open spec fn after_reset(s: Seq<DirEntry>) -> Seq<DirEntry> {
    s.filter(|e: DirEntry| !(e.kind is File))
}

/// Lists the regular files to delete when resetting a directory:
/// exactly the `File` entries, by name, in listing order.
pub fn plan_reset(entries: &Vec<DirEntry>) -> (r: Vec<String>)
    ensures
        r.deep_view() == file_names(entries@),
{
    let mut out: Vec<String> = Vec::new();
    let mut i: usize = 0;
    while i < entries.len()
        invariant
            i <= entries.len(),
            out.deep_view() =~= file_names(entries@.subrange(0, i as int)),
        decreases entries.len() - i,
    {
        proof {
            assert(entries@.subrange(0, i + 1 as int).drop_last() =~= entries@.subrange(
                0,
                i as int,
            ));
            assert(entries@.subrange(0, i + 1 as int).last() == entries@[i as int]);
        }
        match entries[i].kind {
            EntryKind::File => {
                out.push(entries[i].name.clone());
                proof {
                    assert(out.deep_view() =~= file_names(entries@.subrange(0, i + 1 as int)));
                }
            },
            _ => {},
        }
        i = i + 1;
    }
    proof {
        assert(entries@.subrange(0, entries.len() as int) =~= entries@);
    }
    out
}

/// Directory reset law: once the planned files are deleted, the
/// directory holds no regular files, and its subdirectories are exactly
/// the ones it had before, untouched and in the same order.
pub proof fn lemma_reset_invariant(entries: Seq<DirEntry>)
    ensures
        file_names(after_reset(entries)).len() == 0,
        dir_names(after_reset(entries)) == dir_names(entries),
    decreases entries.len(),
{
    reveal(Seq::filter);
    if entries.len() == 0 {
        assert(after_reset(entries) =~= Seq::<DirEntry>::empty());
    } else {
        let last = entries.last();
        let rest = entries.drop_last();
        lemma_reset_invariant(rest);
        if last.kind is File {
            assert(after_reset(entries) == after_reset(rest));
        } else {
            assert(after_reset(entries) == after_reset(rest).push(last));
            assert(after_reset(rest).push(last).drop_last() =~= after_reset(rest));
            assert(after_reset(rest).push(last).last() == last);
        }
    }
}

} // verus!
