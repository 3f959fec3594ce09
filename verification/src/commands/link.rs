//! Linking: the live path becomes a symbolic link to the repository copy.

use crate::commands::plan::{plan_view, ActionView, FactsView, FsAction, PathFacts};
use crate::models::{DotPath, DotPathView, DotfileEntry};
use crate::text::str_eq;
use crate::utils::filter::{
    contains_filter, filter_dotfiles_contains, live_paths, matching, opt_view, picks,
};
use vstd::prelude::*;

verus! {

/// What linking one dotfile takes.
#[derive(Debug, PartialEq, Eq)]
pub enum LinkStep {
    /// The live path is a link to the repository copy already.
    AlreadyLinked,
    /// The live path is the place in the repository itself, as it is for a
    /// dotfile outside the home directory: there is nothing to link, and
    /// nothing is removed.
    SamePlace,
    /// The plan removes what is in the way and makes the link.
    Link(Vec<FsAction>),
}

/// The live path is a symbolic link that leads to the repository copy.
pub open spec fn is_linked(dotpath: DotPathView, live: FactsView) -> bool {
    live.present && live.is_symlink && live.link_target == Some(dotpath.abs_target)
}

/// What stands in the way of a link at `path`, as the action that removes
/// it: a link that leads elsewhere or nowhere, a directory, or a file.
pub open spec fn clearing(path: Seq<char>, live: FactsView) -> Seq<ActionView> {
    if live.present {
        if live.is_symlink || !live.is_dir {
            seq![ActionView::RemoveFile(path)]
        } else {
            seq![ActionView::RemoveDirAll(path)]
        }
    } else if live.is_symlink {
        seq![ActionView::RemoveFile(path)]
    } else {
        Seq::empty()
    }
}

/// The steps that link a dotfile that is not linked yet.
pub open spec fn link_plan(dotpath: DotPathView, live: FactsView) -> Seq<ActionView> {
    clearing(dotpath.abs_path, live) + seq![
        ActionView::CreateParentDirs(dotpath.abs_path),
        ActionView::Symlink { target: dotpath.abs_target, link: dotpath.abs_path },
    ]
}

/// What is at the live path once `link_plan` was carried out: a link to the
/// repository copy, which leads somewhere exactly if that copy exists.
pub open spec fn linked_facts(dotpath: DotPathView, repo: FactsView) -> FactsView {
    FactsView {
        present: repo.present,
        is_dir: repo.is_dir,
        is_file: repo.is_file,
        is_symlink: true,
        link_target: Some(dotpath.abs_target),
    }
}

/// The live path of the dotfile is its place in the repository.
pub open spec fn same_place(dotpath: DotPathView) -> bool {
    dotpath.abs_path == dotpath.abs_target
}

/// What linking takes: nothing for a dotfile that is linked or whose live
/// path is its place in the repository, else the plan.
pub open spec fn link_step(dotpath: DotPathView, live: FactsView) -> Option<Seq<ActionView>> {
    if same_place(dotpath) || is_linked(dotpath, live) {
        None
    } else {
        Some(link_plan(dotpath, live))
    }
}

/// Linking is idempotent. Linking a dotfile that is linked takes no action,
/// so nothing is deleted and the filesystem stays as it is. And where the
/// repository copy exists, a dotfile is linked once its plan was carried
/// out, so that linking it again takes no action.
pub proof fn lemma_link_idempotent(dotpath: DotPathView, live: FactsView, repo: FactsView)
    ensures
        is_linked(dotpath, live) ==> link_step(dotpath, live) is None,
        repo.present ==> link_step(dotpath, linked_facts(dotpath, repo)) is None,
{
}

/// Linking spares the repository copy: whatever is found at the live path,
/// no action of the plan removes or moves what is at the place of the
/// dotfile in the repository, and the only link it makes is from the live
/// path to that place.
pub proof fn lemma_link_spares_copy(dotpath: DotPathView, live: FactsView, i: int)
    requires
        link_step(dotpath, live) is Some,
        0 <= i < link_step(dotpath, live)->0.len(),
    ensures
        ({
            let action = link_step(dotpath, live)->0[i];
            &&& action != ActionView::RemoveFile(dotpath.abs_target)
            &&& action != ActionView::RemoveDirAll(dotpath.abs_target)
            &&& !(action is Rename) && !(action is CopyFile) && !(action is CopyDir)
            &&& action is Symlink ==> action == (ActionView::Symlink {
                target: dotpath.abs_target,
                link: dotpath.abs_path,
            })
        }),
{
}

/// Tells whether the live path is a link to the repository copy.
pub fn already_linked(dotpath: &DotPath, live: &PathFacts) -> (r: bool)
    ensures
        r == is_linked(dotpath@, live@),
{
    if !live.present || !live.is_symlink {
        return false;
    }
    match &live.link_target {
        Some(t) => str_eq(t.as_str(), dotpath.abs_target.as_str()),
        None => false,
    }
}

/// Decides how to link one dotfile. `live` tells what is at its live path.
/// A dotfile whose live path is its place in the repository is left alone,
/// and so is one that is linked; for any other the plan clears the live
/// path and links it.
pub fn link_entry(dotpath: &DotPath, live: &PathFacts) -> (r: LinkStep)
    ensures
        match r {
            LinkStep::SamePlace => same_place(dotpath@),
            LinkStep::AlreadyLinked => !same_place(dotpath@) && is_linked(dotpath@, live@),
            LinkStep::Link(plan) => link_step(dotpath@, live@) == Some(plan_view(plan@)),
        },
{
    if str_eq(dotpath.abs_path.as_str(), dotpath.abs_target.as_str()) {
        return LinkStep::SamePlace;
    }
    if already_linked(dotpath, live) {
        return LinkStep::AlreadyLinked;
    }
    let mut plan: Vec<FsAction> = Vec::new();
    if live.present {
        if live.is_symlink || !live.is_dir {
            plan.push(FsAction::RemoveFile(dotpath.abs_path.clone()));
        } else {
            plan.push(FsAction::RemoveDirAll(dotpath.abs_path.clone()));
        }
    } else if live.is_symlink {
        plan.push(FsAction::RemoveFile(dotpath.abs_path.clone()));
    }
    plan.push(FsAction::CreateParentDirs(dotpath.abs_path.clone()));
    plan.push(
        FsAction::Symlink { target: dotpath.abs_target.clone(), link: dotpath.abs_path.clone() },
    );
    proof {
        assert(plan_view(plan@) =~= link_plan(dotpath@, live@));
    }
    LinkStep::Link(plan)
}

/// The dotfiles that a call to link goes through: without a name every
/// staged one, with a name the tracked ones in whose path the name occurs.
/// `managed` and `staged` are the tracked and the staged set as the manifest lists them.
pub fn link_dotfiles<'a>(
    managed: &'a Vec<(DotPath, DotfileEntry)>,
    staged: &'a Vec<(DotPath, DotfileEntry)>,
    name: Option<&str>,
) -> (r: Vec<(&'a DotPath, &'a DotfileEntry)>)
    ensures
        name is Some ==> picks(
            r@,
            managed@,
            matching(live_paths(managed@), managed@.len(), opt_view(name), contains_filter()),
        ),
        name is None ==> picks(
            r@,
            staged@,
            matching(live_paths(staged@), staged@.len(), None, contains_filter()),
        ),
{
    match name {
        Some(_) => filter_dotfiles_contains(managed, name),
        None => filter_dotfiles_contains(staged, None),
    }
}

} // verus!
