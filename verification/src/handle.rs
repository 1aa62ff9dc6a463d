//! The handle to a temporary directory, and what it owes the file system.

use vstd::prelude::*;
use vstd::string::*;

verus! {

/// What is to be done on the file system when a handle gives its directory up.
#[derive(Debug, PartialEq, Eq)]
pub enum Cleanup {
    /// Nothing: the handle owned no directory any more.
    Nothing,
    /// Remove the directory at this path, with all that is in it.
    RemoveTree(String),
}

impl View for Cleanup {
    type V = Option<Seq<char>>;

    /// The path of the directory to remove, if there is one.
    open spec fn view(&self) -> Option<Seq<char>> {
        match self {
            Cleanup::Nothing => None,
            Cleanup::RemoveTree(path) => Some(path@),
        }
    }
}

/// The owner of a temporary directory.
///
/// A handle is made when a directory has been created, and owns it from then
/// on: the directory is to be removed when the handle is closed or its scope
/// ends, unless the handle has released it before. A handle cannot be copied,
/// so a directory is never removed twice.
#[derive(Debug)]
pub struct TempDir {
    path: Option<String>,
}

impl View for TempDir {
    type V = Option<Seq<char>>;

    /// The path of the directory that the handle owns, if it still owns one.
    closed spec fn view(&self) -> Option<Seq<char>> {
        match self.path {
            Some(path) => Some(path@),
            None => None,
        }
    }
}

impl TempDir {
    /// What the end of the handle's scope asks of the file system: the
    /// removal of the directory that the handle owns, if it still owns one.
    pub open spec fn owes(&self) -> Option<Seq<char>> {
        self@
    }

    /// Makes the handle that owns the directory just created at `path`.
    pub(crate) fn owning(path: String) -> (dir: TempDir)
        ensures
            dir@ == Some(path@),
    {
        TempDir { path: Some(path) }
    }

    /// Tells whether the handle still owns its directory.
    pub fn is_live(&self) -> (live: bool)
        ensures
            live == (self@ is Some),
    {
        self.path.is_some()
    }

    /// The path of the directory. The handle must still own it.
    pub fn path(&self) -> (path: &str)
        requires
            self@ is Some,
        ensures
            path@ == self@->0,
    {
        self.path.as_ref().unwrap().as_str()
    }

    /// Gives the directory up without removing it: the caller is responsible
    /// for it from now on. The handle must still own it.
    pub fn into_path(self) -> (path: String)
        requires
            self@ is Some,
        ensures
            path@ == self@->0,
    {
        let mut dir = self;
        dir.release()
    }

    /// Closes the handle and tells what is to be removed. Whether the removal
    /// succeeds is for the caller to report.
    pub fn close(self) -> (cleanup: Cleanup)
        ensures
            cleanup@ == self@,
    {
        let mut dir = self;
        dir.cleanup_dir()
    }

    /// Takes the directory out of the handle without removing it: nothing will
    /// be owed for it again. The handle must still own it.
    pub fn release(&mut self) -> (path: String)
        requires
            old(self)@ is Some,
        ensures
            path@ == old(self)@->0,
            final(self)@ is None,
    {
        self.path.take().unwrap()
    }

    /// Takes the directory out of the handle for removal. This is what the end
    /// of the handle's scope calls for; a handle that owns nothing asks for
    /// nothing.
    pub fn cleanup_dir(&mut self) -> (cleanup: Cleanup)
        ensures
            cleanup@ == old(self).owes(),
            final(self)@ is None,
    {
        match self.path.take() {
            Some(path) => Cleanup::RemoveTree(path),
            None => Cleanup::Nothing,
        }
    }

    /// A handle that released its directory, or gave it up for removal, owes
    /// nothing when its scope ends: the directory is left alone, and is never
    /// removed a second time.
    pub proof fn lemma_disarmed_owes_nothing(dir: TempDir)
        requires
            dir@ is None,
        ensures
            dir.owes() is None,
    {
    }

    /// A handle whose scope ends while it still owns its directory asks for
    /// the removal of that directory and of no other.
    pub proof fn lemma_live_owes_removal(dir: TempDir)
        requires
            dir@ is Some,
        ensures
            dir.owes() == Some(dir@->0),
    {
    }
}

} // verus!
