use vstd::prelude::*;

use crate::blob::File;

verus! {

/// A fixed-length view over a host file collection. The entries are
/// copied out of the collection when the wrapper is built, so the
/// snapshot taken at construction time cannot drift from what the
/// wrapper later hands out; the length captured then equals the number
/// of successful positional lookups for the wrapper's whole lifetime.
pub struct FileList {
    files: Vec<File>,
}

impl View for FileList {
    type V = Seq<File>;

    closed spec fn view(&self) -> Seq<File> {
        self.files@
    }
}

/// What this layer reads of a host file-input control: the file
/// collection currently associated with it, if any.
pub struct FileInput {
    selection: Option<FileList>,
}

impl FileInput {
    /// The entries of the currently associated collection, if one is
    /// associated at all.
    pub closed spec fn spec_selection(&self) -> Option<Seq<File>> {
        match self.selection {
            Some(list) => Some(list@),
            None => None,
        }
    }

    /// An input control whose current selection is `files`.
    pub fn with_selection(files: FileList) -> (r: FileInput)
        ensures
            r.spec_selection() == Some(files@),
    {
        FileInput { selection: Some(files) }
    }

    /// An input control with no associated file collection (nothing
    /// selected).
    pub fn without_selection() -> (r: FileInput)
        ensures
            r.spec_selection() is None,
    {
        FileInput { selection: None }
    }
}

/// Copies every entry of `files`, in order.
fn clone_files(files: &Vec<File>) -> (r: Vec<File>)
    ensures
        r@ == files@,
{
    let mut out: Vec<File> = Vec::new();
    let mut i: usize = 0;
    while i < files.len()
        invariant
            i <= files@.len(),
            out@ == files@.subrange(0, i as int),
        decreases files@.len() - i,
    {
        let entry = &files[i];
        out.push(entry.clone());
        i = i + 1;
        proof {
            assert(out@ =~= files@.subrange(0, i as int));
        }
    }
    proof {
        assert(out@ =~= files@);
    }
    out
}

impl FileList {
    /// Wraps the file collection currently associated with the input
    /// control; `None` when the control has none. No side effects.
    pub fn new(input: &FileInput) -> (r: Option<FileList>)
        ensures
            match r {
                Some(list) => input.spec_selection() == Some(list@),
                None => input.spec_selection() is None,
            },
    {
        match &input.selection {
            Some(list) => Some(FileList { files: clone_files(&list.files) }),
            None => None,
        }
    }

    /// Wraps a host collection directly, capturing its entries and its
    /// current length. Always succeeds.
    pub fn from_raw(files: Vec<File>) -> (r: FileList)
        ensures
            r@ == files@,
    {
        FileList { files }
    }

    /// The entry at `index`: `Some` exactly when `index` is within the
    /// captured bounds, `None` otherwise. Pure, no side effects.
    pub fn get(&self, index: usize) -> (r: Option<File>)
        ensures
            match r {
                Some(f) => index < self@.len() && f == self@[index as int],
                None => index >= self@.len(),
            },
    {
        if index < self.files.len() {
            let entry = &self.files[index];
            Some(entry.clone())
        } else {
            None
        }
    }

    /// The length captured at construction.
    pub fn len(&self) -> (r: usize)
        ensures
            r == self@.len(),
    {
        self.files.len()
    }

    /// A fresh cursor over the entries at positions `0..len()`. The
    /// list itself is reusable: each call starts a new traversal.
    pub fn iter(&self) -> (r: FileListIter<'_>)
        ensures
            r.spec_entries() == self@,
            r.spec_pos() == 0,
    {
        FileListIter { file_list: self, current: 0 }
    }

    /// All entries, in collection order, consuming the wrapper.
    pub fn into_vec(self) -> (r: Vec<File>)
        ensures
            r@ == self@,
    {
        self.files
    }
}

/// A cursor over a [`FileList`], yielding the entry at each position
/// from front to back.
pub struct FileListIter<'a> {
    file_list: &'a FileList,
    current: usize,
}

impl<'a> FileListIter<'a> {
    /// The entries the traversal walks over.
    pub closed spec fn spec_entries(&self) -> Seq<File> {
        self.file_list@
    }

    /// The position of the next entry to yield.
    pub closed spec fn spec_pos(&self) -> int {
        self.current as int
    }

    /// The entry at the current position, advancing the cursor; `None`
    /// once every position has been yielded. Because the list is a
    /// snapshot, a lookup within the captured bounds can never come
    /// back empty.
    pub fn next(&mut self) -> (r: Option<File>)
        ensures
            final(self).spec_entries() == old(self).spec_entries(),
            match r {
                Some(f) => {
                    &&& old(self).spec_pos() < old(self).spec_entries().len()
                    &&& f == old(self).spec_entries()[old(self).spec_pos()]
                    &&& final(self).spec_pos() == old(self).spec_pos() + 1
                },
                None => {
                    &&& old(self).spec_pos() >= old(self).spec_entries().len()
                    &&& final(self).spec_pos() == old(self).spec_pos()
                },
            },
    {
        if self.current >= self.file_list.len() {
            return None;
        }
        let file = self.file_list.get(self.current);
        self.current = self.current + 1;
        file
    }
}

} // verus!
