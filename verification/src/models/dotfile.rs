//! One entry of the manifest.

use crate::models::path_name::DotPath;
use vstd::prelude::*;

verus! {

/// The declared state of an entry in its lifecycle.
#[derive(Debug, Clone, Copy, PartialEq, Eq, Structural)]
pub enum DotfileStatus {
    Managed,
    Staged,
    Untracked,
    Modified,
}

/// An entry as plain sequences.
pub struct EntryView {
    pub source: Seq<char>,
    pub target: Seq<char>,
    pub status: DotfileStatus,
}

/// What the manifest records of one dotfile: its home-relative name, its
/// place in the repository, and its declared state.
#[derive(Debug, PartialEq, Eq)]
pub struct DotfileEntry {
    pub source: String,
    pub target: String,
    pub status: DotfileStatus,
}

impl View for DotfileEntry {
    type V = EntryView;

    open spec fn view(&self) -> EntryView {
        EntryView { source: self.source@, target: self.target@, status: self.status }
    }
}

impl Clone for DotfileEntry {
    fn clone(&self) -> (r: Self)
        ensures
            r == *self,
    {
        DotfileEntry {
            source: self.source.clone(),
            target: self.target.clone(),
            status: self.status,
        }
    }
}

impl DotfileEntry {
    /// An entry with the given parts.
    pub fn new(source: String, target: String, status: DotfileStatus) -> (r: Self)
        ensures
            r.source == source,
            r.target == target,
            r.status == status,
    {
        DotfileEntry { source, target, status }
    }

    /// The entry of a dotfile that is not tracked yet: its name, its place in
    /// the repository, and the state `Untracked`.
    pub fn from_dotpath(dotpath: &DotPath) -> (r: Self)
        ensures
            r@ == (EntryView {
                source: dotpath@.rel_path,
                target: dotpath@.target,
                status: DotfileStatus::Untracked,
            }),
    {
        DotfileEntry::new(
            dotpath.rel_path.clone(),
            dotpath.target.clone(),
            DotfileStatus::Untracked,
        )
    }

    /// The same entry in another state.
    pub fn with_status(&self, status: DotfileStatus) -> (r: Self)
        ensures
            r@ == (EntryView { status, ..self@ }),
    {
        DotfileEntry::new(self.source.clone(), self.target.clone(), status)
    }
}

} // verus!
