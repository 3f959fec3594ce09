//! Ending the tracking of a dotfile.

use crate::commands::plan::{plan_view, ActionView, FsAction, PathFacts};
use crate::commands::unstage::{plan_removal, removal_plan};
use crate::error::{DotError, ErrorKind};
use crate::models::{Config, ConfigView, DotPath};
use vstd::prelude::*;

verus! {

/// How a removal ended.
#[derive(Debug, PartialEq, Eq)]
pub enum RemoveStep {
    /// The user did not confirm: nothing changes.
    Cancelled,
    /// The dotfile is no longer tracked; the plan deletes its repository
    /// copy unless that is kept.
    Removed(Vec<FsAction>),
}

/// Tells whether the user has to confirm the removal: for a tracked
/// dotfile, exactly if its repository copy is not kept.
pub fn needs_confirmation(config: &Config, dotfile_path: &DotPath, keep_file: bool) -> (r: Result<
    bool,
    DotError,
>)
    requires
        config.wf(),
    ensures
        match r {
            Ok(ask) => config@.dotfiles.contains_key(dotfile_path@.rel_path) && ask == !keep_file,
            Err(e) => !config@.dotfiles.contains_key(dotfile_path@.rel_path) && e.kind()
                == ErrorKind::NoSuchDotfile && e.spec_subject() == dotfile_path@.rel_path,
        },
{
    match config.get_dotfile(dotfile_path) {
        Ok(_) => Ok(!keep_file),
        Err(e) => Err(e),
    }
}

/// Stops tracking a dotfile. `confirmed` is the answer of the user, which
/// counts only where the repository copy is not kept; `repo_copy` tells
/// what is at the place of the dotfile in the repository. A dotfile that is
/// not tracked is refused. Without the confirmation nothing changes. Else
/// the entry leaves the tracked set, and unless the copy is kept the plan
/// deletes it, if it is there.
pub fn remove_dotfile(
    config: &mut Config,
    dotfile_path: DotPath,
    keep_file: bool,
    confirmed: bool,
    repo_copy: &PathFacts,
) -> (r: Result<RemoveStep, DotError>)
    requires
        old(config).wf(),
    ensures
        final(config).wf(),
        final(config).staged_names() == old(config).staged_names(),
        match r {
            Ok(RemoveStep::Cancelled) => {
                &&& old(config)@.dotfiles.contains_key(dotfile_path@.rel_path)
                &&& !keep_file && !confirmed
                &&& final(config)@ == old(config)@
                &&& final(config).tracked_names() == old(config).tracked_names()
            },
            Ok(RemoveStep::Removed(plan)) => {
                &&& old(config)@.dotfiles.contains_key(dotfile_path@.rel_path)
                &&& keep_file || confirmed
                &&& final(config)@ == (ConfigView {
                    dotfiles: old(config)@.dotfiles.remove(dotfile_path@.rel_path),
                    ..old(config)@
                })
                &&& plan_view(plan@) == if keep_file {
                    Seq::<ActionView>::empty()
                } else {
                    removal_plan(dotfile_path@.abs_target, repo_copy.present, repo_copy.is_dir)
                }
            },
            Err(e) => {
                &&& !old(config)@.dotfiles.contains_key(dotfile_path@.rel_path)
                &&& e.kind() == ErrorKind::NoSuchDotfile
                &&& e.spec_subject() == dotfile_path@.rel_path
                &&& final(config)@ == old(config)@
                &&& final(config).tracked_names() == old(config).tracked_names()
            },
        },
{
    match needs_confirmation(config, &dotfile_path, keep_file) {
        Err(e) => {
            return Err(e);
        },
        Ok(ask) => {
            if ask && !confirmed {
                return Ok(RemoveStep::Cancelled);
            }
        },
    }
    let plan = if keep_file {
        let empty: Vec<FsAction> = Vec::new();
        proof {
            assert(plan_view(empty@) =~= Seq::<ActionView>::empty());
        }
        empty
    } else {
        plan_removal(&dotfile_path.abs_target, repo_copy)
    };
    let gone = config.remove(dotfile_path);
    Ok(RemoveStep::Removed(plan))
}

} // verus!
