//! What an operation asks of the filesystem, and what it was told of it.

use crate::error::{DotError, ErrorKind};
use crate::models::Config;
use crate::text::concat_str;
use vstd::prelude::*;
use vstd::string::*;

verus! {

/// One change to the filesystem. An operation hands back a list of them; the
/// caller carries them out in order, stops at the first that fails, and
/// keeps the manifest that `manifest_to_keep` names: the new one only when
/// none failed.
#[derive(Debug, Clone, PartialEq, Eq)]
pub enum FsAction {
    /// Create the directory, with its ancestors, unless it is there.
    CreateDirAll(String),
    /// Create the directory that holds the path, with its ancestors, unless
    /// it is there.
    CreateParentDirs(String),
    /// Copy a file over whatever is at `to`.
    CopyFile { from: String, to: String },
    /// Copy a directory with all below it into `to`, over what is there.
    CopyDir { from: String, to: String },
    /// Move what is at `from` to `to`.
    Rename { from: String, to: String },
    /// Delete a file or a symbolic link.
    RemoveFile(String),
    /// Delete a directory with all below it.
    RemoveDirAll(String),
    /// Make `link` a symbolic link that points at `target`.
    Symlink { target: String, link: String },
}

/// A change to the filesystem, with its paths as plain sequences.
pub enum ActionView {
    CreateDirAll(Seq<char>),
    CreateParentDirs(Seq<char>),
    CopyFile { from: Seq<char>, to: Seq<char> },
    CopyDir { from: Seq<char>, to: Seq<char> },
    Rename { from: Seq<char>, to: Seq<char> },
    RemoveFile(Seq<char>),
    RemoveDirAll(Seq<char>),
    Symlink { target: Seq<char>, link: Seq<char> },
}

impl View for FsAction {
    type V = ActionView;

    open spec fn view(&self) -> ActionView {
        match self {
            FsAction::CreateDirAll(p) => ActionView::CreateDirAll(p@),
            FsAction::CreateParentDirs(p) => ActionView::CreateParentDirs(p@),
            FsAction::CopyFile { from, to } => ActionView::CopyFile { from: from@, to: to@ },
            FsAction::CopyDir { from, to } => ActionView::CopyDir { from: from@, to: to@ },
            FsAction::Rename { from, to } => ActionView::Rename { from: from@, to: to@ },
            FsAction::RemoveFile(p) => ActionView::RemoveFile(p@),
            FsAction::RemoveDirAll(p) => ActionView::RemoveDirAll(p@),
            FsAction::Symlink { target, link } => ActionView::Symlink {
                target: target@,
                link: link@,
            },
        }
    }
}

/// The actions of a plan, in order.
pub open spec fn plan_view(plan: Seq<FsAction>) -> Seq<ActionView> {
    Seq::new(plan.len(), |i: int| plan[i]@)
}

/// The change in words, with the paths it was tried on.
pub open spec fn action_text(action: ActionView) -> Seq<char> {
    match action {
        ActionView::CreateDirAll(p) => "create directory "@ + p,
        ActionView::CreateParentDirs(p) => "create parent directory of "@ + p,
        ActionView::CopyFile { from, to } => "copy file "@ + from + " to "@ + to,
        ActionView::CopyDir { from, to } => "copy directory "@ + from + " to "@ + to,
        ActionView::Rename { from, to } => "move "@ + from + " to "@ + to,
        ActionView::RemoveFile(p) => "remove file "@ + p,
        ActionView::RemoveDirAll(p) => "remove directory "@ + p,
        ActionView::Symlink { target, link } => "link "@ + link + " to "@ + target,
    }
}

fn two_paths(verb: &str, first: &str, second: &str) -> (r: String)
    ensures
        r@ == verb@ + first@ + " to "@ + second@,
{
    let mut r = concat_str(verb, first);
    r.append(" to ");
    r.append(second);
    r
}

/// The change in words, with the paths it was tried on.
pub fn describe_action(action: &FsAction) -> (r: String)
    ensures
        r@ == action_text(action@),
{
    match action {
        FsAction::CreateDirAll(p) => concat_str("create directory ", p.as_str()),
        FsAction::CreateParentDirs(p) => concat_str("create parent directory of ", p.as_str()),
        FsAction::CopyFile { from, to } => two_paths("copy file ", from.as_str(), to.as_str()),
        FsAction::CopyDir { from, to } => two_paths("copy directory ", from.as_str(), to.as_str()),
        FsAction::Rename { from, to } => two_paths("move ", from.as_str(), to.as_str()),
        FsAction::RemoveFile(p) => concat_str("remove file ", p.as_str()),
        FsAction::RemoveDirAll(p) => concat_str("remove directory ", p.as_str()),
        FsAction::Symlink { target, link } => two_paths("link ", link.as_str(), target.as_str()),
    }
}

/// The error of a change that failed: it names the change with the paths
/// it was tried on, and the reason that the system gave.
pub fn action_failed(action: &FsAction, reason: &str) -> (r: DotError)
    ensures
        r.kind() == ErrorKind::Io,
        r.spec_subject() == action_text(action@) + ": "@ + reason@,
{
    let mut text = describe_action(action);
    text.append(": ");
    text.append(reason);
    DotError::Io(text)
}

/// The manifest to keep once the plan of an operation was tried. `before`
/// is the manifest as it was read, `after` the one that the operation
/// handed back with its plan. The new manifest counts only if every action
/// of the plan succeeded; a failure leaves the manifest untouched, whatever
/// the operation had changed in it.
pub fn manifest_to_keep(before: Config, after: Config, outcome: &Result<(), DotError>) -> (r:
    Config)
    ensures
        r == if outcome is Ok {
            after
        } else {
            before
        },
{
    match outcome {
        Ok(_) => after,
        Err(_) => before,
    }
}

/// What was found at one path.
#[derive(Debug, Clone, PartialEq, Eq)]
pub struct PathFacts {
    /// Something is there, links followed.
    pub present: bool,
    /// A directory is there, links followed.
    pub is_dir: bool,
    /// A file is there, links followed.
    pub is_file: bool,
    /// The path itself is a symbolic link.
    pub is_symlink: bool,
    /// Where the link points, where that could be read.
    pub link_target: Option<String>,
}

/// What was found at one path, with the link target as a plain sequence.
pub struct FactsView {
    pub present: bool,
    pub is_dir: bool,
    pub is_file: bool,
    pub is_symlink: bool,
    pub link_target: Option<Seq<char>>,
}

impl View for PathFacts {
    type V = FactsView;

    open spec fn view(&self) -> FactsView {
        FactsView {
            present: self.present,
            is_dir: self.is_dir,
            is_file: self.is_file,
            is_symlink: self.is_symlink,
            link_target: match self.link_target {
                Some(t) => Some(t@),
                None => None,
            },
        }
    }
}

/// How many entries of a batch went well, went wrong, and needed nothing.
#[derive(Debug, Clone, Copy, PartialEq, Eq, Structural)]
pub struct BatchReport {
    pub succeeded: usize,
    pub failed: usize,
    pub untouched: usize,
}

/// How one entry of a batch ended.
#[derive(Debug, Clone, Copy, PartialEq, Eq, Structural)]
pub enum Outcome {
    Succeeded,
    Failed,
    Untouched,
}

/// How many of the outcomes are `kind`.
pub open spec fn count_of(outcomes: Seq<Outcome>, kind: Outcome) -> nat
    decreases outcomes.len(),
{
    if outcomes.len() == 0 {
        0
    } else {
        count_of(outcomes.drop_last(), kind) + if outcomes.last() == kind {
            1nat
        } else {
            0nat
        }
    }
}

impl BatchReport {
    /// Counts the outcomes of a batch. A failure of one entry does not end
    /// the batch: every entry is counted.
    pub fn tally(outcomes: &Vec<Outcome>) -> (r: Self)
        ensures
            r.succeeded == count_of(outcomes@, Outcome::Succeeded),
            r.failed == count_of(outcomes@, Outcome::Failed),
            r.untouched == count_of(outcomes@, Outcome::Untouched),
            r.succeeded + r.failed + r.untouched == outcomes@.len(),
    {
        let mut r = BatchReport { succeeded: 0, failed: 0, untouched: 0 };
        let mut i: usize = 0;
        proof {
            assert(outcomes@.subrange(0, 0) =~= Seq::<Outcome>::empty());
        }
        while i < outcomes.len()
            invariant
                i <= outcomes.len(),
                r.succeeded == count_of(outcomes@.subrange(0, i as int), Outcome::Succeeded),
                r.failed == count_of(outcomes@.subrange(0, i as int), Outcome::Failed),
                r.untouched == count_of(outcomes@.subrange(0, i as int), Outcome::Untouched),
                r.succeeded + r.failed + r.untouched == i,
            decreases outcomes.len() - i,
        {
            proof {
                let next = outcomes@.subrange(0, i + 1);
                assert(next.drop_last() =~= outcomes@.subrange(0, i as int));
                assert(next.last() == outcomes@[i as int]);
            }
            match outcomes[i] {
                Outcome::Succeeded => {
                    r.succeeded = r.succeeded + 1;
                },
                Outcome::Failed => {
                    r.failed = r.failed + 1;
                },
                Outcome::Untouched => {
                    r.untouched = r.untouched + 1;
                },
            }
            i = i + 1;
        }
        proof {
            assert(outcomes@.subrange(0, outcomes.len() as int) =~= outcomes@);
        }
        r
    }
}

} // verus!
