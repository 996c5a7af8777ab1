//! Temporary files: the record of a file that is to be removed once the
//! run is over.

use crate::paths::path_exists;
use vstd::prelude::*;

verus! {

/// A temporary file and whether it is still to be removed when its owner
/// is done with it.
#[derive(Debug)]
pub struct TempFile {
    path: String,
    cleanup_on_drop: bool,
}

impl TempFile {
    /// The path of the file.
    pub closed spec fn path_spec(&self) -> Seq<char> {
        self.path@
    }

    /// Whether the file is to be removed when its owner is done with it.
    pub closed spec fn owned(&self) -> bool {
        self.cleanup_on_drop
    }

    /// Takes charge of the file at `path`: it is to be removed when its
    /// owner is done with it.
    pub fn new(path: String) -> (file: Self)
        ensures
            file.path_spec() == path@,
            file.owned(),
    {
        TempFile { path, cleanup_on_drop: true }
    }

    /// The path of the file.
    pub fn path(&self) -> (path: &str)
        ensures
            path@ == self.path_spec(),
    {
        self.path.as_str()
    }

    /// Whether the file is to be removed when its owner is done with it.
    pub fn cleans_up(&self) -> (r: bool)
        ensures
            r == self.owned(),
    {
        self.cleanup_on_drop
    }

    /// Releases the file: hands out its path; the file is no longer to be
    /// removed.
    pub fn take_path(self) -> (path: String)
        ensures
            path@ == self.path_spec(),
    {
        self.path
    }

    /// Gives up the charge of the file and keeps the record.
    pub fn release(&mut self)
        ensures
            final(self).path_spec() == old(self).path_spec(),
            !final(self).owned(),
    {
        self.cleanup_on_drop = false;
    }

    /// Whether the file exists on disk at the moment of the call.
    pub fn is_present(&self) -> bool {
        path_exists(self.path.as_str())
    }
}

} // verus!
