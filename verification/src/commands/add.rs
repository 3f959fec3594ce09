//! Tracking a dotfile: its live content is copied into the repository.

use crate::commands::plan::{plan_view, ActionView, FsAction, PathFacts};
use crate::error::{DotError, ErrorKind};
use crate::models::{Config, ConfigView, DotPath, DotPathView, DotfileEntry, DotfileStatus, EntryView};
use crate::text::str_eq;
use vstd::prelude::*;

verus! {

/// The copy of what is at `from` to `to`, after the directory that holds
/// `parent_of` was made sure of. What is at its place already, as a dotfile
/// outside the home directory is, is not copied onto itself.
pub open spec fn copy_plan(
    parent_of: Seq<char>,
    from: Seq<char>,
    to: Seq<char>,
    is_dir: bool,
) -> Seq<ActionView> {
    if from == to {
        seq![ActionView::CreateParentDirs(parent_of)]
    } else {
        seq![
            ActionView::CreateParentDirs(parent_of),
            if is_dir {
                ActionView::CopyDir { from, to }
            } else {
                ActionView::CopyFile { from, to }
            },
        ]
    }
}

/// The entry under which a dotfile is tracked.
pub open spec fn tracked_entry(dotpath: DotPathView) -> EntryView {
    EntryView { source: dotpath.rel_path, target: dotpath.target, status: DotfileStatus::Managed }
}

/// The plan of a copy.
pub fn plan_copy(parent_of: &String, from: &String, to: &String, is_dir: bool) -> (r: Vec<
    FsAction,
>)
    ensures
        plan_view(r@) == copy_plan(parent_of@, from@, to@, is_dir),
{
    let mut plan: Vec<FsAction> = Vec::new();
    plan.push(FsAction::CreateParentDirs(parent_of.clone()));
    if str_eq(from.as_str(), to.as_str()) {
    } else if is_dir {
        plan.push(FsAction::CopyDir { from: from.clone(), to: to.clone() });
    } else {
        plan.push(FsAction::CopyFile { from: from.clone(), to: to.clone() });
    }
    proof {
        assert(plan_view(plan@) =~= copy_plan(parent_of@, from@, to@, is_dir));
    }
    plan
}

/// Starts tracking a dotfile. `source` tells what is at its live path. If
/// nothing is there, the manifest stays as it is. Else the dotfile is
/// tracked under its name, in place of any entry it had, and the plan copies
/// the live content to the repository, a directory with all below it.
pub fn add_dotfile(config: &mut Config, dotfile_path: &DotPath, source: &PathFacts) -> (r: Result<
    Vec<FsAction>,
    DotError,
>)
    requires
        old(config).wf(),
    ensures
        final(config).wf(),
        final(config).staged_names() == old(config).staged_names(),
        match r {
            Ok(plan) => {
                &&& source.present
                &&& plan_view(plan@) == copy_plan(
                    dotfile_path@.abs_target,
                    dotfile_path@.abs_path,
                    dotfile_path@.abs_target,
                    source.is_dir,
                )
                &&& final(config)@ == (ConfigView {
                    dotfiles: old(config)@.dotfiles.insert(
                        dotfile_path@.rel_path,
                        tracked_entry(dotfile_path@),
                    ),
                    ..old(config)@
                })
            },
            Err(e) => {
                &&& !source.present
                &&& e.kind() == ErrorKind::SourceNotFound
                &&& e.spec_subject() == dotfile_path@.abs_path
                &&& final(config)@ == old(config)@
                &&& final(config).tracked_names() == old(config).tracked_names()
            },
        },
{
    if !source.present {
        return Err(DotError::SourceNotFound(dotfile_path.abs_path.clone()));
    }
    let plan = plan_copy(
        &dotfile_path.abs_target,
        &dotfile_path.abs_path,
        &dotfile_path.abs_target,
        source.is_dir,
    );
    let entry = DotfileEntry::from_dotpath(dotfile_path).with_status(DotfileStatus::Managed);
    config.add(dotfile_path, entry);
    Ok(plan)
}

} // verus!
