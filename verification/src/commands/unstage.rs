//! Taking a dotfile out of staging.

use crate::commands::plan::{plan_view, ActionView, FsAction, PathFacts};
use crate::error::{DotError, ErrorKind};
use crate::models::{Config, ConfigView, DotPath};
use vstd::prelude::*;

verus! {

/// The removal of what is at `path`, if anything is there.
pub open spec fn removal_plan(path: Seq<char>, present: bool, is_dir: bool) -> Seq<ActionView> {
    if !present {
        Seq::empty()
    } else if is_dir {
        seq![ActionView::RemoveDirAll(path)]
    } else {
        seq![ActionView::RemoveFile(path)]
    }
}

/// The plan of a removal.
pub fn plan_removal(path: &String, facts: &PathFacts) -> (r: Vec<FsAction>)
    ensures
        plan_view(r@) == removal_plan(path@, facts.present, facts.is_dir),
{
    let mut plan: Vec<FsAction> = Vec::new();
    if facts.present {
        if facts.is_dir {
            plan.push(FsAction::RemoveDirAll(path.clone()));
        } else {
            plan.push(FsAction::RemoveFile(path.clone()));
        }
    }
    proof {
        assert(plan_view(plan@) =~= removal_plan(path@, facts.present, facts.is_dir));
    }
    plan
}

/// Unstages a dotfile. `staged_copy` tells what is at its place in staging.
/// A dotfile that is not staged is refused and the manifest stays as it is.
/// Else the entry leaves the staged set, and the plan removes the staged
/// copy if one is there.
pub fn unstage_dotfile(
    config: &mut Config,
    dotfile_path: &DotPath,
    staged_copy: &PathFacts,
) -> (r: Result<Vec<FsAction>, DotError>)
    requires
        old(config).wf(),
    ensures
        final(config).wf(),
        final(config).tracked_names() == old(config).tracked_names(),
        match r {
            Ok(plan) => {
                &&& old(config)@.staged.contains_key(dotfile_path@.rel_path)
                &&& plan_view(plan@) == removal_plan(
                    dotfile_path@.target_staged,
                    staged_copy.present,
                    staged_copy.is_dir,
                )
                &&& final(config)@ == (ConfigView {
                    staged: old(config)@.staged.remove(dotfile_path@.rel_path),
                    ..old(config)@
                })
            },
            Err(e) => {
                &&& !old(config)@.staged.contains_key(dotfile_path@.rel_path)
                &&& e.kind() == ErrorKind::NoSuchDotfile
                &&& e.spec_subject() == dotfile_path@.rel_path
                &&& final(config)@ == old(config)@
                &&& final(config).staged_names() == old(config).staged_names()
            },
        },
{
    match config.unstage(dotfile_path) {
        Ok(_) => Ok(plan_removal(&dotfile_path.target_staged, staged_copy)),
        Err(e) => {
            proof {
                assert(config@.staged =~= old(config)@.staged);
            }
            Err(e)
        },
    }
}

} // verus!
