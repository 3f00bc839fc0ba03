//! File system value types.

use vstd::prelude::*;

verus! {

/// Kind of an inode.
#[derive(Clone, Copy, Debug, PartialEq, Eq, Hash, Structural)]
pub enum FileType {
    File,
    Dir,
}

impl FileType {
    /// Returns whether this is a file.
    pub fn is_file(self) -> (r: bool)
        ensures
            r == (self == FileType::File),
    {
        match self {
            FileType::File => true,
            FileType::Dir => false,
        }
    }

    /// Returns whether this is a directory.
    pub fn is_dir(self) -> (r: bool)
        ensures
            r == (self == FileType::Dir),
    {
        match self {
            FileType::File => false,
            FileType::Dir => true,
        }
    }

    /// The name of the kind, as diagnostics print it.
    pub open spec fn text(self) -> Seq<char> {
        match self {
            FileType::File => "File"@,
            FileType::Dir => "Dir"@,
        }
    }

    /// Returns the name of the kind, as diagnostics print it.
    pub fn name(self) -> (r: &'static str)
        ensures
            r@ == self.text(),
    {
        match self {
            FileType::File => "File",
            FileType::Dir => "Dir",
        }
    }
}

/// What a write session does to the visible contents: replace them, or append behind them.
#[derive(Clone, Copy, Debug, PartialEq, Eq, Hash, Structural)]
pub enum WriteMode {
    Overwrite,
    Append,
}

/// Generation of a file's visible contents. It advances by one with each publication
/// that changes them.
#[derive(Clone, Copy, Debug, PartialEq, Eq, Hash, PartialOrd, Ord, Structural)]
pub struct ContentGeneration(pub u64);

impl ContentGeneration {
    /// Creates a generation from a raw value.
    pub fn new(v: u64) -> (r: Self)
        ensures
            r.0 == v,
    {
        Self(v)
    }

    /// Returns the inner value.
    pub fn as_raw(self) -> (r: u64)
        ensures
            r == self.0,
    {
        self.0
    }

    /// The generation that follows this one, if there is one.
    pub open spec fn next(self) -> Option<ContentGeneration> {
        if self.0 == u64::MAX {
            None
        } else {
            Some(ContentGeneration((self.0 + 1) as u64))
        }
    }

    /// Returns the generation that follows this one, or `None` on overflow.
    pub fn checked_next(self) -> (r: Option<Self>)
        ensures
            r == self.next(),
    {
        match self.0.checked_add(1) {
            Some(v) => Some(Self(v)),
            None => None,
        }
    }
}

impl Default for ContentGeneration {
    fn default() -> (r: Self)
        ensures
            r.0 == 0,
    {
        Self(0)
    }
}

/// A range of bytes.
#[derive(Clone, Copy, Debug, PartialEq, Eq, Hash, Structural)]
pub struct ByteRange {
    pub offset: u64,
    pub len: u64,
}

} // verus!
