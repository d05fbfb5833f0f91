//! The part of the file system a run depends on, as it was observed.

use crate::error::XfmtError;
use crate::error::IoOperation;
use crate::text::same_text;
use vstd::prelude::*;

verus! {

/// What was found at a path.
#[derive(Debug, Clone, PartialEq, Eq)]
pub enum Node {
    /// A directory.
    Directory,
    /// A file, with its text.
    File(String),
    /// Something that is no directory and could not be read as text.
    Unreadable,
}

/// One observed path.
#[derive(Debug, Clone, PartialEq, Eq)]
pub struct Entry {
    pub path: String,
    pub node: Node,
}

/// The working directory and the paths that were found to exist. A path that
/// is not listed does not exist; of a path listed twice the first entry counts.
#[derive(Debug, Clone, PartialEq, Eq)]
pub struct Snapshot {
    /// `None` where the working directory could not be determined.
    pub cwd: Option<String>,
    pub entries: Vec<Entry>,
}

/// The node of the first entry for `path`.
pub open spec fn node_at(entries: Seq<Entry>, path: Seq<char>) -> Option<Node>
    decreases entries.len(),
{
    if entries.len() == 0 {
        None
    } else if entries[0].path@ == path {
        Some(entries[0].node)
    } else {
        node_at(entries.drop_first(), path)
    }
}

impl Snapshot {
    /// What the snapshot holds at `path`.
    pub open spec fn node(&self, path: Seq<char>) -> Option<Node> {
        node_at(self.entries@, path)
    }

    /// Whether anything exists at `path`.
    pub open spec fn present(&self, path: Seq<char>) -> bool {
        self.node(path) is Some
    }

    /// Whether `path` is a directory.
    pub open spec fn dir_at(&self, path: Seq<char>) -> bool {
        self.node(path) == Some(Node::Directory)
    }

    /// The text of the file at `path`, where there is a readable one.
    pub open spec fn text_at(&self, path: Seq<char>) -> Option<Seq<char>> {
        match self.node(path) {
            Some(Node::File(text)) => Some(text@),
            _ => None,
        }
    }

    /// A snapshot that holds no path.
    pub fn new(cwd: Option<String>) -> (r: Snapshot)
        ensures
            r.cwd == cwd,
            r.entries@ == Seq::<Entry>::empty(),
    {
        Snapshot { cwd, entries: Vec::new() }
    }

    /// Adds an observation after those already held.
    pub fn record(&mut self, path: String, node: Node)
        ensures
            final(self).cwd == old(self).cwd,
            final(self).entries@ == old(self).entries@.push(Entry { path, node }),
    {
        self.entries.push(Entry { path, node });
    }

    /// The first entry for `path`.
    pub fn find(&self, path: &str) -> (r: Option<&Node>)
        ensures
            match r {
                Some(node) => self.node(path@) == Some(*node),
                None => self.node(path@) is None,
            },
    {
        let mut index: usize = 0;
        assert(self.entries@.subrange(0, self.entries.len() as int) =~= self.entries@);
        while index < self.entries.len()
            invariant
                index <= self.entries.len(),
                self.node(path@) == node_at(
                    self.entries@.subrange(index as int, self.entries.len() as int),
                    path@,
                ),
            decreases self.entries.len() - index,
        {
            let ghost rest = self.entries@.subrange(index as int, self.entries.len() as int);
            assert(rest[0] == self.entries@[index as int]);
            assert(rest.drop_first() == self.entries@.subrange(
                index + 1,
                self.entries.len() as int,
            ));
            if same_text(self.entries[index].path.as_str(), path) {
                return Some(&self.entries[index].node);
            }
            index += 1;
        }
        assert(self.entries@.subrange(index as int, self.entries.len() as int).len() == 0);
        None
    }

    /// Whether anything exists at `path`.
    pub fn contains(&self, path: &str) -> (r: bool)
        ensures
            r == self.present(path@),
    {
        self.find(path).is_some()
    }

    /// Whether `path` is a directory.
    pub fn is_dir(&self, path: &str) -> (r: bool)
        ensures
            r == self.dir_at(path@),
    {
        match self.find(path) {
            Some(Node::Directory) => true,
            _ => false,
        }
    }

    /// The text of the file at `path`. A path that is absent, a directory or
    /// unreadable fails the read.
    pub fn read_to_string(&self, path: &str) -> (r: Result<String, XfmtError>)
        ensures
            match self.text_at(path@) {
                Some(text) => r matches Ok(t) && t@ == text,
                None => r == Err::<String, XfmtError>(XfmtError::Io(IoOperation::Read)),
            },
    {
        match self.find(path) {
            Some(Node::File(text)) => Ok(text.clone()),
            _ => Err(XfmtError::Io(IoOperation::Read)),
        }
    }
}

} // verus!
