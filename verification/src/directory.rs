//! Listings of directories.

use vstd::prelude::*;

verus! {

/// Whether a listed name is a directory or a regular file.
#[derive(Clone, Copy, PartialEq, Eq, Structural, Debug)]
pub enum EntryKind {
    Dir,
    File,
}

/// One name found in a directory, relative to that directory.
#[derive(Debug)]
pub struct Entry {
    pub kind: EntryKind,
    pub name: String,
}

/// The mathematical content of an [`Entry`].
pub struct EntryView {
    pub kind: EntryKind,
    pub name: Seq<char>,
}

impl View for Entry {
    type V = EntryView;

    open spec fn view(&self) -> EntryView {
        EntryView { kind: self.kind, name: self.name@ }
    }
}

impl Clone for Entry {
    fn clone(&self) -> (copy: Self)
        ensures
            copy == *self,
    {
        Entry { kind: self.kind, name: self.name.clone() }
    }
}

impl Entry {
    /// An entry of the given kind and name.
    pub fn new(kind: EntryKind, name: String) -> (entry: Entry)
        ensures
            entry.kind == kind,
            entry.name == name,
    {
        Entry { kind: kind, name: name }
    }
}

/// The listing of one directory: its absolute path and what it holds, in the
/// order the listing produced.
#[derive(Debug)]
pub struct Entries {
    pub absolute_path: String,
    pub entries: Vec<Entry>,
}

/// The mathematical content of [`Entries`].
pub struct EntriesView {
    pub absolute_path: Seq<char>,
    pub entries: Seq<EntryView>,
}

impl View for Entries {
    type V = EntriesView;

    open spec fn view(&self) -> EntriesView {
        EntriesView {
            absolute_path: self.absolute_path@,
            entries: Seq::new(self.entries@.len(), |i: int| self.entries@[i]@),
        }
    }
}

impl Clone for Entries {
    fn clone(&self) -> (copy: Self)
        ensures
            copy@ == self@,
    {
        let mut entries: Vec<Entry> = Vec::new();
        let mut i: usize = 0;
        while i < self.entries.len()
            invariant
                i <= self.entries.len(),
                entries.len() == i,
                forall|k: int| 0 <= k < i ==> entries@[k] == self.entries@[k],
            decreases self.entries.len() - i,
        {
            entries.push(self.entries[i].clone());
            i += 1;
        }
        let copy = Entries { absolute_path: self.absolute_path.clone(), entries };
        assert(copy@.entries =~= self@.entries);
        copy
    }
}

/// What the file system says an item of a directory is.
#[derive(Clone, Copy, PartialEq, Eq, Structural, Debug)]
pub enum FileKind {
    Dir,
    File,
    /// Neither a directory nor a regular file.
    Other,
}

/// One item as it was read from a directory: its name, if it has one, and
/// what it is, if that could be found out.
#[derive(Debug)]
pub struct DirItem {
    pub name: Option<String>,
    pub kind: Option<FileKind>,
}

/// The mathematical content of a [`DirItem`].
pub struct DirItemView {
    pub name: Option<Seq<char>>,
    pub kind: Option<FileKind>,
}

impl View for DirItem {
    type V = DirItemView;

    open spec fn view(&self) -> DirItemView {
        DirItemView {
            name: match self.name {
                Some(name) => Some(name@),
                None => None,
            },
            kind: self.kind,
        }
    }
}

/// The entry that an item of a directory is listed as: directories and
/// regular files that have a name are listed, nothing else is.
pub open spec fn entry_of(item: DirItemView) -> Option<EntryView> {
    match (item.kind, item.name) {
        (Some(FileKind::Dir), Some(name)) => Some(EntryView { kind: EntryKind::Dir, name }),
        (Some(FileKind::File), Some(name)) => Some(EntryView { kind: EntryKind::File, name }),
        _ => None,
    }
}

/// The entries that the items of a directory are listed as, in their order.
pub open spec fn entries_of(items: Seq<DirItemView>) -> Seq<EntryView>
    decreases items.len(),
{
    if items.len() == 0 {
        Seq::empty()
    } else {
        match entry_of(items.last()) {
            Some(entry) => entries_of(items.drop_last()).push(entry),
            None => entries_of(items.drop_last()),
        }
    }
}

/// What a list of items holds, in order.
pub open spec fn items_of(items: Seq<DirItem>) -> Seq<DirItemView> {
    Seq::new(items.len(), |i: int| items[i]@)
}

impl Entries {
    /// The listing of the directory at `absolute_path` whose items, as read,
    /// are `items`: see [`entries_of`].
    pub fn new(absolute_path: String, items: Vec<DirItem>) -> (listing: Entries)
        ensures
            listing@ == (EntriesView {
                absolute_path: absolute_path@,
                entries: entries_of(items_of(items@)),
            }),
    {
        let mut entries = Entries { absolute_path: absolute_path, entries: Vec::new() };
        let ghost all = items_of(items@);
        let mut i: usize = 0;
        while i < items.len()
            invariant
                i <= items.len(),
                all == items_of(items@),
                entries.absolute_path@ == absolute_path@,
                entries@.entries == entries_of(all.take(i as int)),
            decreases items.len() - i,
        {
            let item = &items[i];
            assert(all.take(i + 1).drop_last() =~= all.take(i as int));
            match (&item.kind, &item.name) {
                (Some(FileKind::Dir), Some(name)) => {
                    entries.entries.push(Entry::new(EntryKind::Dir, name.clone()));
                },
                (Some(FileKind::File), Some(name)) => {
                    entries.entries.push(Entry::new(EntryKind::File, name.clone()));
                },
                _ => {},
            }
            i += 1;
        }
        assert(all.take(items.len() as int) =~= all);
        entries
    }
}

} // verus!
