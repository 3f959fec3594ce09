//! The state of the tracked and the staged dotfiles, as observed.

use crate::error::{DotError, ErrorKind};
use crate::models::{DotPath, DotfileEntry, DotfileStatus};
use crate::utils::path_compare::{compare_paths, compare_spec, CompareResult, Snapshot};
use vstd::prelude::*;

verus! {

/// What the status shows for one dotfile.
#[derive(Debug, Clone, Copy, PartialEq, Eq, Structural)]
pub enum StatusLabel {
    /// The live dotfile and its copy hold the same.
    InSync,
    /// The live dotfile and its copy differ.
    DiffDetected,
    /// One is a link to the other.
    Linked,
    /// The entry is declared modified.
    Modified,
    /// The entry is declared neither tracked nor modified.
    Unknown,
    /// Staged, but the staged copy is not there.
    Pending,
}

/// One line of the status.
#[derive(Debug, PartialEq, Eq)]
pub struct StatusLine {
    pub name: String,
    pub label: StatusLabel,
}

/// What was observed of one dotfile: its paths, its entry, what is at its
/// live path and what is at its copy, in the repository or in staging.
pub struct Observation {
    pub dotpath: DotPath,
    pub entry: DotfileEntry,
    pub live: Snapshot,
    pub copy: Snapshot,
}

/// The label of an observed drift.
pub open spec fn drift_label(c: CompareResult) -> StatusLabel {
    match c {
        CompareResult::Equal => StatusLabel::InSync,
        CompareResult::NotEqual => StatusLabel::DiffDetected,
        CompareResult::Linked => StatusLabel::Linked,
    }
}

/// The label of a tracked dotfile, where it has one: the observed drift for
/// an entry declared tracked, else what the entry declares.
pub open spec fn tracked_label_spec(status: DotfileStatus, live: Snapshot, repo: Snapshot) -> Option<
    StatusLabel,
> {
    match status {
        DotfileStatus::Managed => match compare_spec(live, repo) {
            Some(c) => Some(drift_label(c)),
            None => None,
        },
        DotfileStatus::Modified => Some(StatusLabel::Modified),
        _ => Some(StatusLabel::Unknown),
    }
}

/// The label of a staged dotfile, where it has one: pending without a
/// staged copy, else the observed drift.
pub open spec fn staged_label_spec(live: Snapshot, staged: Snapshot) -> Option<StatusLabel> {
    if staged.node is None {
        Some(StatusLabel::Pending)
    } else {
        match compare_spec(live, staged) {
            Some(c) => Some(drift_label(c)),
            None => None,
        }
    }
}

/// The label of an observed drift.
pub fn label_of(c: CompareResult) -> (r: StatusLabel)
    ensures
        r == drift_label(c),
{
    match c {
        CompareResult::Equal => StatusLabel::InSync,
        CompareResult::NotEqual => StatusLabel::DiffDetected,
        CompareResult::Linked => StatusLabel::Linked,
    }
}

/// The label of a tracked dotfile. It fails where the comparison does.
pub fn tracked_label(entry: &DotfileEntry, live: &Snapshot, repo: &Snapshot) -> (r: Result<
    StatusLabel,
    DotError,
>)
    ensures
        match r {
            Ok(l) => tracked_label_spec(entry.status, *live, *repo) == Some(l),
            Err(e) => tracked_label_spec(entry.status, *live, *repo) is None && e.kind()
                == ErrorKind::Unreadable && e.spec_subject() == live.path@,
        },
{
    match entry.status {
        DotfileStatus::Managed => match compare_paths(live, repo) {
            Ok(c) => Ok(label_of(c)),
            Err(e) => Err(e),
        },
        DotfileStatus::Modified => Ok(StatusLabel::Modified),
        _ => Ok(StatusLabel::Unknown),
    }
}

/// The label of a staged dotfile. It fails where the comparison does.
pub fn staged_label(live: &Snapshot, staged: &Snapshot) -> (r: Result<StatusLabel, DotError>)
    ensures
        match r {
            Ok(l) => staged_label_spec(*live, *staged) == Some(l),
            Err(e) => staged_label_spec(*live, *staged) is None && e.kind()
                == ErrorKind::Unreadable && e.spec_subject() == live.path@,
        },
{
    if staged.node.is_none() {
        return Ok(StatusLabel::Pending);
    }
    match compare_paths(live, staged) {
        Ok(c) => Ok(label_of(c)),
        Err(e) => Err(e),
    }
}

/// The status: one line for each tracked dotfile, then one for each staged
/// one, in the order given. The first dotfile that cannot be compared ends
/// it with its error.
pub fn show_status(managed: &Vec<Observation>, staged: &Vec<Observation>) -> (r: Result<
    (Vec<StatusLine>, Vec<StatusLine>),
    DotError,
>)
    ensures
        match r {
            Ok((a, b)) => {
                &&& a@.len() == managed@.len()
                &&& b@.len() == staged@.len()
                &&& forall|i: int|
                    0 <= i < a@.len() ==> (#[trigger] a@[i]).name@ == managed@[i].dotpath@.rel_path
                        && tracked_label_spec(
                        managed@[i].entry.status,
                        managed@[i].live,
                        managed@[i].copy,
                    ) == Some(a@[i].label)
                &&& forall|i: int|
                    0 <= i < b@.len() ==> (#[trigger] b@[i]).name@ == staged@[i].dotpath@.rel_path
                        && staged_label_spec(staged@[i].live, staged@[i].copy) == Some(b@[i].label)
            },
            Err(e) => {
                &&& e.kind() == ErrorKind::Unreadable
                &&& (exists|i: int|
                    0 <= i < managed@.len() && tracked_label_spec(
                        (#[trigger] managed@[i]).entry.status,
                        managed@[i].live,
                        managed@[i].copy,
                    ) is None) || (exists|i: int|
                    0 <= i < staged@.len() && staged_label_spec(
                        (#[trigger] staged@[i]).live,
                        staged@[i].copy,
                    ) is None)
            },
        },
{
    let mut a: Vec<StatusLine> = Vec::new();
    let mut i: usize = 0;
    while i < managed.len()
        invariant
            i <= managed.len(),
            a@.len() == i,
            forall|k: int|
                0 <= k < i ==> (#[trigger] a@[k]).name@ == managed@[k].dotpath@.rel_path
                    && tracked_label_spec(
                    managed@[k].entry.status,
                    managed@[k].live,
                    managed@[k].copy,
                ) == Some(a@[k].label),
        decreases managed.len() - i,
    {
        let o = &managed[i];
        match tracked_label(&o.entry, &o.live, &o.copy) {
            Ok(label) => {
                a.push(StatusLine { name: o.dotpath.display(), label });
            },
            Err(e) => {
                return Err(e);
            },
        }
        i = i + 1;
    }
    let mut b: Vec<StatusLine> = Vec::new();
    let mut j: usize = 0;
    while j < staged.len()
        invariant
            j <= staged.len(),
            b@.len() == j,
            forall|k: int|
                0 <= k < j ==> (#[trigger] b@[k]).name@ == staged@[k].dotpath@.rel_path
                    && staged_label_spec(staged@[k].live, staged@[k].copy) == Some(b@[k].label),
        decreases staged.len() - j,
    {
        let o = &staged[j];
        match staged_label(&o.live, &o.copy) {
            Ok(label) => {
                b.push(StatusLine { name: o.dotpath.display(), label });
            },
            Err(e) => {
                return Err(e);
            },
        }
        j = j + 1;
    }
    Ok((a, b))
}

} // verus!
