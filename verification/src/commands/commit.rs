//! Committing staged dotfiles: the staged copy takes the place of the live
//! one, which is kept aside until the new one is in place.

use crate::commands::plan::{plan_view, ActionView, FsAction, PathFacts};
use crate::error::{DotError, ErrorKind};
use crate::models::path_name::resolve;
use crate::models::{Config, ConfigView, DotPath, DotPathView, DotfileEntry, DotfileStatus, EntryView};
use crate::text::{concat_str, trim_end, trim_end_slashes};
use crate::utils::path::PathEnv;
use vstd::prelude::*;
use vstd::string::*;

verus! {

/// What follows the name of a path in the name of its backup.
pub open spec fn backup_suffix() -> Seq<char> {
    seq!['-', 'd', 'z', '-', 'b', 'p', 'k']
}

/// The place beside `path` where its former content is kept during a
/// commit.
pub open spec fn backup_path(path: Seq<char>) -> Seq<char> {
    trim_end(path, '/') + backup_suffix()
}

/// The steps that put the staged copy of a dotfile in place of the live
/// one. Whatever is at the live path is moved aside first and deleted last,
/// after the staged copy has taken its place.
pub open spec fn commit_plan(dotpath: DotPathView, live_present: bool, live_is_dir: bool) -> Seq<
    ActionView,
> {
    let backup = backup_path(dotpath.abs_path);
    let swap = ActionView::Rename { from: dotpath.abs_target_staged, to: dotpath.abs_path };
    if live_present {
        seq![
            ActionView::CreateParentDirs(dotpath.abs_path),
            ActionView::Rename { from: dotpath.abs_path, to: backup },
            swap,
            if live_is_dir {
                ActionView::RemoveDirAll(backup)
            } else {
                ActionView::RemoveFile(backup)
            },
        ]
    } else {
        seq![ActionView::CreateParentDirs(dotpath.abs_path), swap]
    }
}

/// The actions of `plan` that are carried out when the action at `failing`
/// fails: those before it.
pub open spec fn carried_out(plan: Seq<ActionView>, failing: int) -> Seq<ActionView> {
    plan.subrange(0, failing)
}

/// The backup outlives a failed commit: when moving the live content aside
/// or moving the staged copy into place fails, nothing was deleted.
pub proof fn lemma_backup_kept(
    dotpath: DotPathView,
    live_present: bool,
    live_is_dir: bool,
    failing: int,
)
    requires
        0 <= failing < commit_plan(dotpath, live_present, live_is_dir).len(),
        commit_plan(dotpath, live_present, live_is_dir)[failing] is Rename,
    ensures
        forall|i: int|
            0 <= i < failing ==> {
                let done = #[trigger] carried_out(
                    commit_plan(dotpath, live_present, live_is_dir),
                    failing,
                )[i];
                !(done is RemoveFile) && !(done is RemoveDirAll)
            },
{
}

/// The place beside `path` where its former content is kept during a
/// commit.
pub fn backup_of(path: &str) -> (r: String)
    ensures
        r@ == backup_path(path@),
{
    proof {
        reveal_strlit("-dz-bpk");
        assert("-dz-bpk"@ =~= backup_suffix());
    }
    concat_str(trim_end_slashes(path), "-dz-bpk")
}

/// The staged dotfiles that a commit goes through, each with its staged
/// entry, in the order of the staged names. A commit is refused exactly
/// when nothing is staged; what is tracked plays no part.
pub fn commit_dotfiles(config: &Config, env: &PathEnv) -> (r: Result<
    Vec<(DotPath, DotfileEntry)>,
    DotError,
>)
    requires
        config.wf(),
        env.wf(),
    ensures
        match r {
            Ok(list) => {
                &&& config.staged_names().len() > 0
                &&& list@.len() == config.staged_names().len()
                &&& forall|i: int|
                    0 <= i < list@.len() ==> (#[trigger] list@[i]).0@ == resolve(
                        config.staged_names()[i],
                        config@.repo_path,
                        config@.staging_path,
                        env@,
                    ) && list@[i].1@ == config@.staged[config.staged_names()[i]]
            },
            Err(e) => config.staged_names().len() == 0 && e.kind() == ErrorKind::NothingToCommit,
        },
{
    if config.staged_count() == 0 {
        return Err(DotError::NothingToCommit);
    }
    Ok(config.get_staged(env))
}

/// Commits one staged dotfile. `live` tells what is at its live path and
/// `staged_copy` what is at its place in staging. A dotfile that is not
/// staged is refused. One whose staged copy is missing is passed over: the
/// plan is empty and the manifest stays as it is. Else the plan is
/// `commit_plan`, and the entry moves from the staged set to the tracked
/// set with the state `Managed`.
pub fn commit_entry(
    config: &mut Config,
    dotpath: &DotPath,
    live: &PathFacts,
    staged_copy: &PathFacts,
) -> (r: Result<Vec<FsAction>, DotError>)
    requires
        old(config).wf(),
    ensures
        final(config).wf(),
        match r {
            Ok(plan) => {
                &&& old(config)@.staged.contains_key(dotpath@.rel_path)
                &&& if staged_copy.present {
                    &&& plan_view(plan@) == commit_plan(dotpath@, live.present, live.is_dir)
                    &&& final(config)@ == (ConfigView {
                        staged: old(config)@.staged.remove(dotpath@.rel_path),
                        dotfiles: old(config)@.dotfiles.insert(
                            dotpath@.rel_path,
                            EntryView {
                                status: DotfileStatus::Managed,
                                ..old(config)@.staged[dotpath@.rel_path]
                            },
                        ),
                        ..old(config)@
                    })
                } else {
                    &&& plan@.len() == 0
                    &&& final(config)@ == old(config)@
                    &&& final(config).tracked_names() == old(config).tracked_names()
                    &&& final(config).staged_names() == old(config).staged_names()
                }
            },
            Err(e) => {
                &&& !old(config)@.staged.contains_key(dotpath@.rel_path)
                &&& e.kind() == ErrorKind::NoSuchDotfile
                &&& e.spec_subject() == dotpath@.rel_path
                &&& final(config)@ == old(config)@
                &&& final(config).tracked_names() == old(config).tracked_names()
                &&& final(config).staged_names() == old(config).staged_names()
            },
        },
{
    let entry = match config.get_staged_dotfile(dotpath.clone()) {
        Ok(e) => e.with_status(DotfileStatus::Managed),
        Err(e) => {
            return Err(e);
        },
    };
    let mut plan: Vec<FsAction> = Vec::new();
    if !staged_copy.present {
        return Ok(plan);
    }
    let backup = backup_of(dotpath.abs_path.as_str());
    plan.push(FsAction::CreateParentDirs(dotpath.abs_path.clone()));
    if live.present {
        plan.push(FsAction::Rename { from: dotpath.abs_path.clone(), to: backup.clone() });
    }
    plan.push(
        FsAction::Rename { from: dotpath.abs_target_staged.clone(), to: dotpath.abs_path.clone() },
    );
    if live.present {
        if live.is_dir {
            plan.push(FsAction::RemoveDirAll(backup));
        } else {
            plan.push(FsAction::RemoveFile(backup));
        }
    }
    proof {
        assert(plan_view(plan@) =~= commit_plan(dotpath@, live.present, live.is_dir));
    }
    let gone = config.unstage(dotpath);
    config.add(dotpath, entry);
    Ok(plan)
}

} // verus!
