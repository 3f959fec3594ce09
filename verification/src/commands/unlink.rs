//! Unlinking: the link at the live path gives way to a copy of what it
//! pointed at.

use crate::commands::plan::{plan_view, ActionView, FactsView, FsAction, PathFacts};
use crate::models::{DotPath, DotPathView, DotfileEntry};
use crate::text::str_eq;
use crate::utils::filter::{
    contains_filter, filter_dotfiles_contains, live_paths, matching, opt_view, picks,
};
use vstd::prelude::*;

verus! {

/// What unlinking one dotfile takes.
#[derive(Debug, PartialEq, Eq)]
pub enum UnlinkStep {
    /// Something that is no link is at the live path: an error for this
    /// dotfile.
    NotALink,
    /// Nothing is at the live path.
    NothingThere,
    /// The plan removes the link and, where it led to the repository copy,
    /// puts a copy of that in its place.
    Unlink(Vec<FsAction>),
}

/// The copy that takes the place of a link to the repository: of a
/// directory, of a file, or none where the link led elsewhere.
pub open spec fn restoring(dotpath: DotPathView, live: FactsView, repo: FactsView) -> Seq<
    ActionView,
> {
    if live.link_target != Some(dotpath.abs_target) {
        Seq::empty()
    } else if repo.is_dir {
        seq![ActionView::CopyDir { from: dotpath.abs_target, to: dotpath.abs_path }]
    } else if repo.is_file {
        seq![ActionView::CopyFile { from: dotpath.abs_target, to: dotpath.abs_path }]
    } else {
        Seq::empty()
    }
}

/// The steps that unlink a dotfile whose live path is a link.
pub open spec fn unlink_plan(dotpath: DotPathView, live: FactsView, repo: FactsView) -> Seq<
    ActionView,
> {
    if live.present {
        seq![ActionView::RemoveFile(dotpath.abs_path)] + restoring(dotpath, live, repo)
    } else {
        seq![ActionView::RemoveFile(dotpath.abs_path)]
    }
}

/// Decides how to unlink one dotfile. `live` tells what is at its live path
/// and `repo` what is at its place in the repository.
pub fn unlink_entry(dotpath: &DotPath, live: &PathFacts, repo: &PathFacts) -> (r: UnlinkStep)
    ensures
        match r {
            UnlinkStep::NotALink => live.present && !live.is_symlink,
            UnlinkStep::NothingThere => !live.present && !live.is_symlink,
            UnlinkStep::Unlink(plan) => live.is_symlink && plan_view(plan@) == unlink_plan(
                dotpath@,
                live@,
                repo@,
            ),
        },
{
    if !live.is_symlink {
        if live.present {
            return UnlinkStep::NotALink;
        }
        return UnlinkStep::NothingThere;
    }
    let mut plan: Vec<FsAction> = Vec::new();
    plan.push(FsAction::RemoveFile(dotpath.abs_path.clone()));
    if live.present {
        let to_repo = match &live.link_target {
            Some(t) => str_eq(t.as_str(), dotpath.abs_target.as_str()),
            None => false,
        };
        if to_repo && repo.is_dir {
            plan.push(
                FsAction::CopyDir {
                    from: dotpath.abs_target.clone(),
                    to: dotpath.abs_path.clone(),
                },
            );
        } else if to_repo && repo.is_file {
            plan.push(
                FsAction::CopyFile {
                    from: dotpath.abs_target.clone(),
                    to: dotpath.abs_path.clone(),
                },
            );
        }
    }
    proof {
        assert(plan_view(plan@) =~= unlink_plan(dotpath@, live@, repo@));
    }
    UnlinkStep::Unlink(plan)
}

/// The tracked dotfiles that a call to unlink goes through: those in whose
/// path the name occurs, or all of them without a name.
pub fn unlink_dotfiles<'a>(managed: &'a Vec<(DotPath, DotfileEntry)>, name: Option<&str>) -> (r:
    Vec<(&'a DotPath, &'a DotfileEntry)>)
    ensures
        picks(
            r@,
            managed@,
            matching(live_paths(managed@), managed@.len(), opt_view(name), contains_filter()),
        ),
{
    filter_dotfiles_contains(managed, name)
}

} // verus!
