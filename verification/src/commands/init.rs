//! Setting up a repository.

use crate::commands::plan::{plan_view, ActionView, FsAction};
use crate::models::{staging_dir_name, Config, ConfigView};
use crate::text::join_path;
use vstd::prelude::*;

verus! {

/// How the set-up ended.
pub enum InitStep {
    /// The repository has a manifest already; at most its directory was
    /// missing.
    AlreadyInitialized(Vec<FsAction>),
    /// The plan makes the directories that are missing, and the empty
    /// manifest is to be written.
    Created(Vec<FsAction>, Config),
}

/// The directories that a new repository at `path` still needs.
pub open spec fn init_plan(
    path: Seq<char>,
    path_present: bool,
    has_manifest: bool,
    staging_present: bool,
) -> Seq<ActionView> {
    let root: Seq<ActionView> = if path_present {
        Seq::empty()
    } else {
        seq![ActionView::CreateDirAll(path)]
    };
    if has_manifest || staging_present {
        root
    } else {
        root + seq![ActionView::CreateDirAll(join_path(path, staging_dir_name()))]
    }
}

/// Sets up the repository at `path`. The caller tells whether the
/// directory is there, whether it holds a manifest that can be read, and
/// whether the staging directory is there. A repository that has a manifest
/// is left as it is.
pub fn init_repo(path: String, path_present: bool, has_manifest: bool, staging_present: bool) -> (r:
    InitStep)
    ensures
        match r {
            InitStep::AlreadyInitialized(plan) => has_manifest && plan_view(plan@) == init_plan(
                path@,
                path_present,
                has_manifest,
                staging_present,
            ),
            InitStep::Created(plan, config) => {
                &&& !has_manifest
                &&& plan_view(plan@) == init_plan(
                    path@,
                    path_present,
                    has_manifest,
                    staging_present,
                )
                &&& config.wf()
                &&& config@ == (ConfigView {
                    repo_path: path@,
                    staging_path: join_path(path@, staging_dir_name()),
                    dotfiles: Map::empty(),
                    staged: Map::empty(),
                })
            },
        },
{
    let mut plan: Vec<FsAction> = Vec::new();
    if !path_present {
        plan.push(FsAction::CreateDirAll(path.clone()));
    }
    if has_manifest {
        proof {
            assert(plan_view(plan@) =~= init_plan(
                path@,
                path_present,
                has_manifest,
                staging_present,
            ));
        }
        return InitStep::AlreadyInitialized(plan);
    }
    let config = Config::new(path);
    if !staging_present {
        plan.push(FsAction::CreateDirAll(config.staging_path().to_owned()));
    }
    proof {
        assert(plan_view(plan@) =~= init_plan(path@, path_present, has_manifest, staging_present));
    }
    InitStep::Created(plan, config)
}

} // verus!
