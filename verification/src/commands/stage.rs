//! Staging a tracked dotfile: its live content is copied into staging.

use crate::commands::add::{copy_plan, plan_copy};
use crate::commands::plan::{plan_view, FsAction, PathFacts};
use crate::error::{DotError, ErrorKind};
use crate::models::{Config, ConfigView, DotPath, DotfileStatus, EntryView};
use vstd::prelude::*;

verus! {

/// Stages a tracked dotfile. `source` tells what is at its live path. A
/// dotfile that is not tracked is refused, then one whose live path holds
/// nothing; the manifest then stays as it is. Else the tracked entry is
/// staged under the same name with the state `Staged`, and the plan copies
/// the live content to the staging root.
pub fn stage_dotfile(config: &mut Config, dotfile_path: &DotPath, source: &PathFacts) -> (r:
    Result<Vec<FsAction>, DotError>)
    requires
        old(config).wf(),
    ensures
        final(config).wf(),
        final(config).tracked_names() == old(config).tracked_names(),
        match r {
            Ok(plan) => {
                &&& old(config)@.dotfiles.contains_key(dotfile_path@.rel_path)
                &&& source.present
                &&& plan_view(plan@) == copy_plan(
                    dotfile_path@.target_staged,
                    dotfile_path@.abs_path,
                    dotfile_path@.abs_target_staged,
                    source.is_dir,
                )
                &&& final(config)@ == (ConfigView {
                    staged: old(config)@.staged.insert(
                        dotfile_path@.rel_path,
                        EntryView {
                            status: DotfileStatus::Staged,
                            ..old(config)@.dotfiles[dotfile_path@.rel_path]
                        },
                    ),
                    ..old(config)@
                })
            },
            Err(e) => {
                &&& final(config)@ == old(config)@
                &&& final(config).staged_names() == old(config).staged_names()
                &&& e.kind() == if old(config)@.dotfiles.contains_key(dotfile_path@.rel_path) {
                    ErrorKind::SourceNotFound
                } else {
                    ErrorKind::NoSuchDotfile
                }
                &&& e.kind() == ErrorKind::SourceNotFound ==> !source.present && e.spec_subject()
                    == dotfile_path@.abs_path
                &&& e.kind() == ErrorKind::NoSuchDotfile ==> e.spec_subject()
                    == dotfile_path@.rel_path
            },
        },
{
    let staged_entry = match config.get_dotfile(dotfile_path) {
        Ok(entry) => entry.with_status(DotfileStatus::Staged),
        Err(e) => {
            return Err(e);
        },
    };
    if !source.present {
        return Err(DotError::SourceNotFound(dotfile_path.abs_path.clone()));
    }
    let plan = plan_copy(
        &dotfile_path.target_staged,
        &dotfile_path.abs_path,
        &dotfile_path.abs_target_staged,
        source.is_dir,
    );
    config.stage(dotfile_path, staged_entry);
    Ok(plan)
}

} // verus!
