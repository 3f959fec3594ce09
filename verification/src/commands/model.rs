//! A model of the part of the filesystem that the plans touch, to state
//! what carrying them out achieves.
//!
//! The model keeps one object for each path that holds something: a file
//! with its bytes, a directory with the files below it, or a symbolic link
//! with its target. It knows nothing of one path lying below another, so it
//! speaks for plans whose paths do not lie below each other.

use crate::commands::add::copy_plan;
use crate::commands::commit::{backup_path, carried_out, commit_plan};
use crate::commands::link::{is_linked, link_plan, link_step, same_place};
use crate::commands::plan::{ActionView, FactsView};
use crate::models::path_name::{consistent, lemma_resolve_keeps_live_path, resolve, with_live_path};
use crate::models::DotPathView;
use crate::utils::path::EnvView;
use crate::commands::status::{tracked_label_spec, StatusLabel};
use crate::models::DotfileStatus;
use crate::utils::path_compare::{compare_spec, has_path, linked_spec, CompareResult, Snapshot};
use crate::utils::tree::{files_of, FsNode};
use vstd::prelude::*;

verus! {

/// What stands at one path.
pub enum Obj {
    File(Seq<u8>),
    Dir(Seq<(Seq<char>, Seq<u8>)>),
    Link(Seq<char>),
}

/// The files of `top`, and those of `base` at whose path `top` has none.
pub open spec fn overlay(
    base: Seq<(Seq<char>, Seq<u8>)>,
    top: Seq<(Seq<char>, Seq<u8>)>,
) -> Seq<(Seq<char>, Seq<u8>)>
    decreases base.len(),
{
    if base.len() == 0 {
        top
    } else {
        let rest = overlay(base.drop_last(), top);
        if has_path(top, base.last().0) {
            rest
        } else {
            rest.push(base.last())
        }
    }
}

/// What `path` leads to, a link followed once.
pub open spec fn reached(store: Map<Seq<char>, Obj>, path: Seq<char>) -> Option<Obj> {
    if !store.contains_key(path) {
        None
    } else {
        match store[path] {
            Obj::Link(t) => if store.contains_key(t) && !(store[t] is Link) {
                Some(store[t])
            } else {
                None
            },
            o => Some(o),
        }
    }
}

/// What an observer finds at `path`.
pub open spec fn facts_of(store: Map<Seq<char>, Obj>, path: Seq<char>) -> FactsView {
    let there = reached(store, path);
    FactsView {
        present: there is Some,
        is_dir: there matches Some(Obj::Dir(_)),
        is_file: there matches Some(Obj::File(_)),
        is_symlink: store.contains_key(path) && store[path] is Link,
        link_target: if store.contains_key(path) {
            match store[path] {
                Obj::Link(t) => Some(t),
                _ => None,
            }
        } else {
            None
        },
    }
}

/// What one action does, where it succeeds. Making directories changes
/// nothing that the model keeps.
pub open spec fn effect(store: Map<Seq<char>, Obj>, action: ActionView) -> Map<Seq<char>, Obj> {
    match action {
        ActionView::CreateDirAll(_) => store,
        ActionView::CreateParentDirs(_) => store,
        ActionView::CopyFile { from, to } => match reached(store, from) {
            Some(Obj::File(c)) => store.insert(to, Obj::File(c)),
            _ => store,
        },
        ActionView::CopyDir { from, to } => match reached(store, from) {
            Some(Obj::Dir(files)) => match reached(store, to) {
                Some(Obj::Dir(old)) => store.insert(to, Obj::Dir(overlay(old, files))),
                _ => store.insert(to, Obj::Dir(files)),
            },
            _ => store,
        },
        ActionView::Rename { from, to } => if store.contains_key(from) {
            store.remove(from).insert(to, store[from])
        } else {
            store
        },
        ActionView::RemoveFile(p) => store.remove(p),
        ActionView::RemoveDirAll(p) => store.remove(p),
        ActionView::Symlink { target, link } => store.insert(link, Obj::Link(target)),
    }
}

/// What carrying out a whole plan does, where every action succeeds.
pub open spec fn run(store: Map<Seq<char>, Obj>, plan: Seq<ActionView>) -> Map<Seq<char>, Obj>
    decreases plan.len(),
{
    if plan.len() == 0 {
        store
    } else {
        effect(run(store, plan.drop_last()), plan.last())
    }
}

/// A plan with one more action at its end does what the plan does, and
/// then what the action does.
pub proof fn lemma_run_push(store: Map<Seq<char>, Obj>, plan: Seq<ActionView>, last: ActionView)
    ensures
        run(store, plan.push(last)) == effect(run(store, plan), last),
{
    assert(plan.push(last).drop_last() =~= plan);
}

proof fn lemma_run_two(store: Map<Seq<char>, Obj>, a: ActionView, b: ActionView)
    ensures
        run(store, seq![a, b]) == effect(effect(store, a), b),
{
    lemma_run_push(store, Seq::empty(), a);
    lemma_run_push(store, seq![a], b);
    assert(Seq::<ActionView>::empty().push(a) =~= seq![a]);
    assert(seq![a].push(b) =~= seq![a, b]);
}

proof fn lemma_run_four(
    store: Map<Seq<char>, Obj>,
    a: ActionView,
    b: ActionView,
    c: ActionView,
    d: ActionView,
)
    ensures
        run(store, seq![a, b, c, d]) == effect(effect(effect(effect(store, a), b), c), d),
{
    lemma_run_two(store, a, b);
    lemma_run_push(store, seq![a, b], c);
    lemma_run_push(store, seq![a, b, c], d);
    assert(seq![a, b].push(c) =~= seq![a, b, c]);
    assert(seq![a, b, c].push(d) =~= seq![a, b, c, d]);
}

/// The four places of a dotfile that a round trip touches are four
/// different places.
pub open spec fn places_apart(dotpath: DotPathView) -> bool {
    let live = dotpath.abs_path;
    let repo = dotpath.abs_target;
    let staged = dotpath.abs_target_staged;
    let backup = backup_path(live);
    live != repo && live != staged && live != backup && repo != staged && repo != backup && staged
        != backup
}

/// The store after a dotfile was added, staged and committed, each plan
/// made from what is found when it is made, and each carried out in full.
pub open spec fn after_round_trip(store: Map<Seq<char>, Obj>, dotpath: DotPathView) -> Map<
    Seq<char>,
    Obj,
> {
    let live = dotpath.abs_path;
    let added = run(
        store,
        copy_plan(dotpath.abs_target, live, dotpath.abs_target, facts_of(store, live).is_dir),
    );
    let staged = run(
        added,
        copy_plan(
            dotpath.target_staged,
            live,
            dotpath.abs_target_staged,
            facts_of(added, live).is_dir,
        ),
    );
    run(
        staged,
        commit_plan(dotpath, facts_of(staged, live).present, facts_of(staged, live).is_dir),
    )
}

/// The round trip of a file: after it was added, staged and committed, its
/// live path and its place in the repository both hold the bytes that the
/// live path held when it was added; nothing is left in staging, and
/// nothing beside the live path that was not there before.
pub proof fn lemma_round_trip(store: Map<Seq<char>, Obj>, dotpath: DotPathView, content: Seq<u8>)
    requires
        places_apart(dotpath),
        store.contains_key(dotpath.abs_path),
        store[dotpath.abs_path] == Obj::File(content),
    ensures
        ({
            let end = after_round_trip(store, dotpath);
            &&& end.contains_key(dotpath.abs_path) && end[dotpath.abs_path] == Obj::File(content)
            &&& end.contains_key(dotpath.abs_target) && end[dotpath.abs_target] == Obj::File(
                content,
            )
            &&& !end.contains_key(dotpath.abs_target_staged)
            &&& !end.contains_key(backup_path(dotpath.abs_path))
        }),
{
    let live = dotpath.abs_path;
    let repo = dotpath.abs_target;
    let staged_at = dotpath.abs_target_staged;
    let backup = backup_path(live);
    let file = Obj::File(content);
    assert(reached(store, live) == Some(file));
    lemma_run_two(
        store,
        ActionView::CreateParentDirs(repo),
        ActionView::CopyFile { from: live, to: repo },
    );
    let added = run(store, copy_plan(repo, live, repo, false));
    assert(added == store.insert(repo, file));
    assert(reached(added, live) == Some(file));
    lemma_run_two(
        added,
        ActionView::CreateParentDirs(dotpath.target_staged),
        ActionView::CopyFile { from: live, to: staged_at },
    );
    let staged = run(added, copy_plan(dotpath.target_staged, live, staged_at, false));
    assert(staged == added.insert(staged_at, file));
    assert(reached(staged, live) == Some(file));
    lemma_run_four(
        staged,
        ActionView::CreateParentDirs(live),
        ActionView::Rename { from: live, to: backup },
        ActionView::Rename { from: staged_at, to: live },
        ActionView::RemoveFile(backup),
    );
}

/// A snapshot shows what the store holds at a path: the path, the target
/// if a link stands there, and what the path leads to.
pub open spec fn pictures(snapshot: Snapshot, store: Map<Seq<char>, Obj>, path: Seq<char>) -> bool {
    &&& snapshot.path@ == path
    &&& match facts_of(store, path).link_target {
        Some(t) => snapshot.link matches Some(l) && l@ == t,
        None => snapshot.link is None,
    }
    &&& match reached(store, path) {
        Some(Obj::File(content)) => snapshot.node matches Some(FsNode::File(bytes)) && bytes@
            == content,
        Some(Obj::Dir(files)) => snapshot.node matches Some(FsNode::Dir(entries)) && files_of(
            FsNode::Dir(entries),
            Seq::empty(),
            false,
        ) == files,
        _ => snapshot.node is None,
    }
}

/// After the round trip of a file the status finds nothing to report:
/// snapshots of its live path and of its place in the repository compare
/// equal, and a tracked entry of it is shown as in sync.
pub proof fn lemma_round_trip_in_sync(
    store: Map<Seq<char>, Obj>,
    dotpath: DotPathView,
    content: Seq<u8>,
    live: Snapshot,
    copy: Snapshot,
)
    requires
        places_apart(dotpath),
        store.contains_key(dotpath.abs_path),
        store[dotpath.abs_path] == Obj::File(content),
        pictures(live, after_round_trip(store, dotpath), dotpath.abs_path),
        pictures(copy, after_round_trip(store, dotpath), dotpath.abs_target),
    ensures
        compare_spec(live, copy) == Some(CompareResult::Equal),
        tracked_label_spec(DotfileStatus::Managed, live, copy) == Some(StatusLabel::InSync),
{
    lemma_round_trip(store, dotpath, content);
    let end = after_round_trip(store, dotpath);
    assert(reached(end, dotpath.abs_path) == Some(Obj::File(content)));
    assert(reached(end, dotpath.abs_target) == Some(Obj::File(content)));
    assert(!linked_spec(live, copy));
}

/// The backup recovers the live content: when a commit fails at moving the
/// staged copy into place, the backup holds what the live path held, the
/// staged copy is untouched, and moving the backup back restores the live
/// path.
pub proof fn lemma_backup_recovers(
    store: Map<Seq<char>, Obj>,
    dotpath: DotPathView,
    was_live: Obj,
)
    requires
        places_apart(dotpath),
        store.contains_key(dotpath.abs_path),
        store[dotpath.abs_path] == was_live,
        !(was_live is Link),
    ensures
        ({
            let plan = commit_plan(dotpath, true, was_live is Dir);
            let failing = 2;
            let left = run(store, carried_out(plan, failing));
            let backup = backup_path(dotpath.abs_path);
            &&& facts_of(store, dotpath.abs_path).present
            &&& facts_of(store, dotpath.abs_path).is_dir == (was_live is Dir)
            &&& plan[failing] == (ActionView::Rename {
                from: dotpath.abs_target_staged,
                to: dotpath.abs_path,
            })
            &&& left.contains_key(backup) && left[backup] == was_live
            &&& left.contains_key(dotpath.abs_target_staged) == store.contains_key(
                dotpath.abs_target_staged,
            )
            &&& store.contains_key(dotpath.abs_target_staged) ==> left[dotpath.abs_target_staged]
                == store[dotpath.abs_target_staged]
            &&& effect(left, ActionView::Rename { from: backup, to: dotpath.abs_path })[dotpath.abs_path]
                == was_live
        }),
{
    let live = dotpath.abs_path;
    let backup = backup_path(live);
    let plan = commit_plan(dotpath, true, was_live is Dir);
    let done = carried_out(plan, 2);
    assert(done =~= seq![
        ActionView::CreateParentDirs(live),
        ActionView::Rename { from: live, to: backup },
    ]);
    lemma_run_two(
        store,
        ActionView::CreateParentDirs(live),
        ActionView::Rename { from: live, to: backup },
    );
}

/// Linking twice: where the repository copy of a dotfile exists, the
/// second call takes no action and the filesystem stays as the first call
/// left it. Where the live path is another place than the copy, it is
/// linked once the plan of the first call was carried out.
pub proof fn lemma_link_twice(store: Map<Seq<char>, Obj>, dotpath: DotPathView)
    requires
        facts_of(store, dotpath.abs_target).present,
        !facts_of(store, dotpath.abs_target).is_symlink,
    ensures
        ({
            let first = match link_step(dotpath, facts_of(store, dotpath.abs_path)) {
                Some(plan) => run(store, plan),
                None => store,
            };
            let second = match link_step(dotpath, facts_of(first, dotpath.abs_path)) {
                Some(plan) => run(first, plan),
                None => first,
            };
            &&& !same_place(dotpath) ==> is_linked(dotpath, facts_of(first, dotpath.abs_path))
            &&& same_place(dotpath) ==> first == store
            &&& link_step(dotpath, facts_of(first, dotpath.abs_path)) is None
            &&& second == first
            &&& first.contains_key(dotpath.abs_target) && first[dotpath.abs_target]
                == store[dotpath.abs_target]
        }),
{
    let live = dotpath.abs_path;
    let repo = dotpath.abs_target;
    let found = facts_of(store, live);
    if !same_place(dotpath) && !is_linked(dotpath, found) {
        let make = ActionView::Symlink { target: repo, link: live };
        let dirs = ActionView::CreateParentDirs(live);
        let plan = link_plan(dotpath, found);
        if found.present || found.is_symlink {
            let clear = if found.present && !found.is_symlink && found.is_dir {
                ActionView::RemoveDirAll(live)
            } else {
                ActionView::RemoveFile(live)
            };
            assert(plan =~= seq![clear, dirs, make]);
            lemma_run_two(store, clear, dirs);
            lemma_run_push(store, seq![clear, dirs], make);
            assert(seq![clear, dirs].push(make) =~= seq![clear, dirs, make]);
            let first = run(store, plan);
            assert(first == store.remove(live).insert(live, Obj::Link(repo)));
            assert(first.contains_key(repo) && first[repo] == store[repo]);
        } else {
            assert(plan =~= seq![dirs, make]);
            lemma_run_two(store, dirs, make);
            let first = run(store, plan);
            assert(first == store.insert(live, Obj::Link(repo)));
            assert(first.contains_key(repo) && first[repo] == store[repo]);
        }
    }
}

/// Linking twice, for a dotfile as resolution gives it. In an environment
/// that describes the filesystem, link the dotfile that a name resolves to.
/// Then let the environment learn that the live path exists where
/// resolution put it, which is how a link is recorded: at its own place,
/// not at the place it leads to. The name then resolves as before, the
/// second call takes no action, and the repository copy is what it was.
pub proof fn lemma_link_twice_resolved(
    store: Map<Seq<char>, Obj>,
    name: Seq<char>,
    repo: Seq<char>,
    staging: Seq<char>,
    env: EnvView,
)
    requires
        consistent(env),
        name.len() > 0,
        facts_of(store, resolve(name, repo, staging, env).abs_target).present,
        !facts_of(store, resolve(name, repo, staging, env).abs_target).is_symlink,
    ensures
        ({
            let dotpath = resolve(name, repo, staging, env);
            let first = match link_step(dotpath, facts_of(store, dotpath.abs_path)) {
                Some(plan) => run(store, plan),
                None => store,
            };
            let again = resolve(name, repo, staging, with_live_path(name, env));
            let second = match link_step(again, facts_of(first, again.abs_path)) {
                Some(plan) => run(first, plan),
                None => first,
            };
            &&& again == dotpath
            &&& link_step(again, facts_of(first, again.abs_path)) is None
            &&& second == first
            &&& first.contains_key(dotpath.abs_target) && first[dotpath.abs_target]
                == store[dotpath.abs_target]
        }),
{
    lemma_resolve_keeps_live_path(name, repo, staging, env);
    lemma_link_twice(store, resolve(name, repo, staging, env));
}

} // verus!
