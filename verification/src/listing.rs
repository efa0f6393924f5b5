//! The bookkeeping of a recursive directory listing.  The caller reads the
//! directories; the listing decides which one is read next and which paths
//! are reported, all relative to the listed root.

use vstd::prelude::*;
use crate::paths::{join, joined, texts};

verus! {

/// What stands at a path on disk.
#[derive(Debug, Clone, Copy, PartialEq, Eq, Structural)]
pub enum EntryKind {
    /// A directory.
    Directory,
    /// A regular file.
    File,
    /// Anything else, or nothing at all.
    Other,
}

/// The state of a listing: the directories that are still to be read, the
/// one to be read next last, and the files found so far.
#[derive(Debug)]
pub struct Listing {
    pending: Vec<String>,
    files: Vec<String>,
}

/// The mathematical value of a [`Listing`].
pub struct ListingModel {
    pub pending: Seq<Seq<char>>,
    pub files: Seq<Seq<char>>,
}

impl ListingModel {
    /// The listing of a root: the root itself is to be read where it is a
    /// directory, and nothing is where there is no root.
    pub open spec fn start(root: EntryKind) -> ListingModel {
        ListingModel {
            pending: if root is Directory {
                seq![Seq::<char>::empty()]
            } else {
                Seq::empty()
            },
            files: Seq::empty(),
        }
    }

    /// The listing once the entry `name` of `directory` has been seen: a
    /// directory is to be read later, a regular file is reported, and
    /// anything else is passed over.
    pub open spec fn visited(self, directory: Seq<char>, name: Seq<char>, kind: EntryKind) -> ListingModel {
        match kind {
            EntryKind::Directory => ListingModel {
                pending: self.pending.push(joined(directory, name)),
                ..self
            },
            EntryKind::File => ListingModel { files: self.files.push(joined(directory, name)), ..self },
            EntryKind::Other => self,
        }
    }
}

impl View for Listing {
    type V = ListingModel;

    closed spec fn view(&self) -> ListingModel {
        ListingModel { pending: texts(self.pending@), files: texts(self.files@) }
    }
}

impl Listing {
    /// Starts the listing of a root of the given kind.  A root that is a
    /// regular file cannot be listed.
    pub fn new(root: EntryKind) -> (r: Listing)
        requires
            !(root is File),
        ensures
            r@ == ListingModel::start(root),
    {
        let mut pending: Vec<String> = Vec::new();
        match root {
            EntryKind::Directory => {
                pending.push(String::new());
            },
            _ => {},
        }
        let r = Listing { pending, files: Vec::new() };
        assert(r@.pending =~= ListingModel::start(root).pending);
        assert(r@.files =~= ListingModel::start(root).files);
        r
    }

    /// Takes the directory that is to be read next: the one that was seen
    /// last.  `None` when every directory has been read.
    pub fn next_directory(&mut self) -> (r: Option<String>)
        ensures
            final(self)@.files == old(self)@.files,
            match r {
                Some(directory) => old(self)@.pending.len() > 0 && directory@ == old(
                    self,
                )@.pending.last() && final(self)@.pending == old(self)@.pending.drop_last(),
                None => old(self)@.pending.len() == 0 && final(self)@.pending == old(self)@.pending,
            },
    {
        let r = self.pending.pop();
        assert(self@.pending =~= if r is Some {
            old(self)@.pending.drop_last()
        } else {
            old(self)@.pending
        });
        r
    }

    /// Records the entry `name` of the directory `directory`.
    pub fn visit(&mut self, directory: &str, name: &str, kind: EntryKind)
        ensures
            final(self)@ == old(self)@.visited(directory@, name@, kind),
    {
        match kind {
            EntryKind::Directory => {
                self.pending.push(join(directory, name));
                assert(self@.pending =~= old(self)@.pending.push(joined(directory@, name@)));
            },
            EntryKind::File => {
                self.files.push(join(directory, name));
                assert(self@.files =~= old(self)@.files.push(joined(directory@, name@)));
            },
            EntryKind::Other => {},
        }
    }

    /// The files found, in the order in which they were recorded.
    pub fn finish(self) -> (r: Vec<String>)
        ensures
            texts(r@) == self@.files,
    {
        self.files
    }
}

} // verus!
