//! The tree view of a 1-wire directory: what an entry of a listing is
//! called, whether it is a directory, and how its line is drawn.

use vstd::prelude::*;
use crate::text::split;
use crate::text::split_text;

verus! {

/// The mark before the last entry of a directory.
pub const END: &'static str = "\u{2514}\u{2500}\u{2500} ";

/// What stands in a line below an entry that has entries after it.
pub const RGT: &'static str = "\u{2502}   ";

/// The mark before an entry that has entries after it.
pub const NEXT: &'static str = "\u{251c}\u{2500}\u{2500} ";

/// What stands in a line below the last entry of a directory.
pub const TAB: &'static str = "    ";

/// An entry of a listing.
#[derive(Debug, Clone, PartialEq, Eq)]
pub struct File {
    /// The whole path.
    pub path: String,
    /// The name shown in the tree.
    pub name: String,
    /// True for a directory.
    pub dir: bool,
}

/// The entries of a directory.
#[derive(Debug, Clone, PartialEq, Eq)]
pub struct Dir {
    pub contents: Vec<File>,
}

/// True for the path of a directory: one that ends in a slash.
pub open spec fn names_dir(path: Seq<char>) -> bool {
    let parts = split(path, '/');
    parts.len() > 1 && parts.last().len() == 0
}

/// The name of an entry: the last segment of its path, or for a directory
/// the segment before the closing slash.
pub open spec fn name_in(path: Seq<char>) -> Seq<char> {
    let parts = split(path, '/');
    if names_dir(path) {
        parts[parts.len() - 2]
    } else {
        parts.last()
    }
}

/// The line of an entry in the tree.
pub open spec fn tree_line(prefix: Seq<char>, last: bool, name: Seq<char>) -> Seq<char> {
    prefix + (if last {
        END@
    } else {
        NEXT@
    }) + name
}

/// What stands before the lines of the entries of a directory.
pub open spec fn tree_prefix(prefix: Seq<char>, last: bool) -> Seq<char> {
    prefix + (if last {
        TAB@
    } else {
        RGT@
    })
}

impl File {
    /// The entry with the path `path`, as a listing with slashes behind the
    /// directories gives it.
    pub fn new(path: String) -> (file: File)
        ensures
            file.path == path,
            file.name@ == name_in(path@),
            file.dir == names_dir(path@),
    {
        let mut parts = split_text(path.as_str(), '/');
        let len = parts.len();
        if len > 1 && parts[len - 1].as_str().is_empty() {
            let name = parts.swap_remove(len - 2);
            File { path, name, dir: true }
        } else {
            let name = parts.swap_remove(len - 1);
            File { path, name, dir: false }
        }
    }

    /// The directory at which a tree starts, shown by its whole path.
    pub fn root(path: String) -> (file: File)
        ensures
            file.path == path,
            file.name@ == path@,
            file.dir,
    {
        let name = path.clone();
        File { path, name, dir: true }
    }

    /// The line of this entry in the tree, under `prefix`; `last` says that
    /// no entry of its directory follows.
    pub fn line(&self, prefix: &str, last: bool) -> (line: String)
        ensures
            line@ == tree_line(prefix@, last, self.name@),
    {
        let mut line = prefix.to_owned();
        if last {
            line.append(END);
        } else {
            line.append(NEXT);
        }
        line.append(self.name.as_str());
        line
    }

    /// What stands before the lines of the entries of this directory.
    pub fn child_prefix(prefix: &str, last: bool) -> (below: String)
        ensures
            below@ == tree_prefix(prefix@, last),
    {
        let mut below = prefix.to_owned();
        if last {
            below.append(TAB);
        } else {
            below.append(RGT);
        }
        below
    }
}

impl Dir {
    /// A directory without entries.
    pub fn null_dir() -> (dir: Dir)
        ensures
            dir.contents@ == Seq::<File>::empty(),
    {
        Dir { contents: Vec::new() }
    }

    /// The directory with the entries of a listing, in their order.
    pub fn new(listing: Vec<String>) -> (dir: Dir)
        ensures
            dir.contents@.len() == listing@.len(),
            forall|i: int|
                0 <= i < listing@.len() ==> {
                    &&& (#[trigger] dir.contents@[i]).path == listing@[i]
                    &&& dir.contents@[i].name@ == name_in(listing@[i]@)
                    &&& dir.contents@[i].dir == names_dir(listing@[i]@)
                },
    {
        let mut contents: Vec<File> = Vec::new();
        for path in it: listing
            invariant
                it.seq() == listing@,
                contents@.len() == it.index(),
                forall|i: int|
                    0 <= i < it.index() ==> {
                        &&& (#[trigger] contents@[i]).path == listing@[i]
                        &&& contents@[i].name@ == name_in(listing@[i]@)
                        &&& contents@[i].dir == names_dir(listing@[i]@)
                    },
        {
            contents.push(File::new(path));
        }
        Dir { contents }
    }

    /// True for the last entry of the directory.
    pub fn is_last(&self, index: usize) -> (last: bool)
        ensures
            last == (index + 1 == self.contents@.len()),
    {
        self.contents.len() > 0 && index == self.contents.len() - 1
    }
}

} // verus!
