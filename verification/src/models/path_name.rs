//! The six projections of one dotfile name.

use crate::models::Config;
use crate::text::{has_prefix, is_absolute, join_path, strip_dot_slash};
use crate::utils::path::{
    anchor, dot_slash, expand_tilde_in, expand_tilde_spec, full_path_spec, get_full_path,
    reduce_path_to_home, reduce_spec, rehome, replace_home, replace_home_spec, tilde, tilde_slash,
    EnvView, PathEnv,
};
use vstd::prelude::*;

verus! {

/// The projections as plain sequences.
pub struct DotPathView {
    pub rel_path: Seq<char>,
    pub abs_path: Seq<char>,
    pub target: Seq<char>,
    pub abs_target: Seq<char>,
    pub target_staged: Seq<char>,
    pub abs_target_staged: Seq<char>,
}

/// The places of one dotfile: where it lives, where the repository keeps it
/// and where staging keeps it, each in a home-relative and an absolute form.
#[derive(Debug, PartialEq, Eq, Hash)]
pub struct DotPath {
    /// The home-relative live path: the name under which the manifest keeps
    /// the dotfile.
    pub rel_path: String,
    /// The absolute live path.
    pub abs_path: String,
    /// The path under the repository root.
    pub target: String,
    /// The absolute form of `target`.
    pub abs_target: String,
    /// The path under the staging root.
    pub target_staged: String,
    /// The absolute form of `target_staged`.
    pub abs_target_staged: String,
}

impl View for DotPath {
    type V = DotPathView;

    open spec fn view(&self) -> DotPathView {
        DotPathView {
            rel_path: self.rel_path@,
            abs_path: self.abs_path@,
            target: self.target@,
            abs_target: self.abs_target@,
            target_staged: self.target_staged@,
            abs_target_staged: self.abs_target_staged@,
        }
    }
}

impl Clone for DotPath {
    fn clone(&self) -> (r: Self)
        ensures
            r == *self,
    {
        DotPath {
            rel_path: self.rel_path.clone(),
            abs_path: self.abs_path.clone(),
            target: self.target.clone(),
            abs_target: self.abs_target.clone(),
            target_staged: self.target_staged.clone(),
            abs_target_staged: self.abs_target_staged.clone(),
        }
    }
}

/// The projections of `name` for the roots `repo` and `staging`. They depend
/// on nothing but the name, the roots and the environment.
pub open spec fn resolve(
    name: Seq<char>,
    repo: Seq<char>,
    staging: Seq<char>,
    env: EnvView,
) -> DotPathView {
    let expanded = expand_tilde_spec(name, env.home);
    let target = replace_home_spec(expanded, repo, env);
    let staged = replace_home_spec(expanded, staging, env);
    DotPathView {
        rel_path: reduce_spec(expanded, env),
        abs_path: full_path_spec(expanded, env),
        target,
        abs_target: full_path_spec(target, env),
        target_staged: staged,
        abs_target_staged: full_path_spec(staged, env),
    }
}

/// The paths whose real location the resolution of `name` asks for.
pub open spec fn resolve_lookups(
    name: Seq<char>,
    repo: Seq<char>,
    staging: Seq<char>,
    env: EnvView,
) -> Seq<Seq<char>> {
    let expanded = expand_tilde_spec(name, env.home);
    seq![
        expanded,
        replace_home_spec(expanded, repo, env),
        replace_home_spec(expanded, staging, env),
    ]
}

/// An environment that describes one state of a filesystem: the working
/// directory and the home directory are absolute; a real location is absolute
/// and is its own real location; and a relative path that does not exist does
/// not exist under the working directory either.
pub open spec fn consistent(env: EnvView) -> bool {
    &&& is_absolute(env.cwd)
    &&& env.home matches Some(h) ==> is_absolute(h)
    &&& forall|p: Seq<char>| #[trigger]
        env.known.contains_key(p) ==> is_absolute(env.known[p]) && env.known.contains_key(
            env.known[p],
        ) && env.known[env.known[p]] == env.known[p]
    &&& forall|p: Seq<char>|
        p.len() > 0 && !is_absolute(p) && !env.known.contains_key(p)
            ==> !env.known.contains_key(#[trigger] anchor(p, env.cwd))
}

/// An absolute path does not start with `~`.
proof fn lemma_absolute_no_tilde(p: Seq<char>)
    requires
        is_absolute(p),
    ensures
        !has_prefix(p, tilde()),
        !has_prefix(p, tilde_slash()),
        expand_tilde_spec(p, None) == p,
        forall|h: Seq<char>| expand_tilde_spec(p, Some(h)) == p,
{
    if has_prefix(p, tilde()) {
        assert(p.subrange(0, 1)[0] == tilde()[0]);
    }
    if has_prefix(p, tilde_slash()) {
        assert(p.subrange(0, 2)[0] == tilde_slash()[0]);
    }
}

/// In a consistent environment the absolute form of a name that is not empty
/// is absolute, and it is its own absolute form.
proof fn lemma_full_path_fixed(path: Seq<char>, env: EnvView)
    requires
        consistent(env),
        path.len() > 0,
        expand_tilde_spec(path, env.home) == path,
    ensures
        is_absolute(full_path_spec(path, env)),
        full_path_spec(full_path_spec(path, env), env) == full_path_spec(path, env),
{
    let full = full_path_spec(path, env);
    if env.known.contains_key(path) {
        assert(env.known.contains_key(full) && env.known[full] == full);
    } else if is_absolute(path) {
        lemma_absolute_no_tilde(path);
    } else {
        assert(full == anchor(path, env.cwd));
        assert(!env.known.contains_key(anchor(path, env.cwd)));
        let tail = if has_prefix(path, dot_slash()) {
            strip_dot_slash(path)
        } else {
            path
        };
        assert(full == join_path(env.cwd, tail));
        assert(is_absolute(full)) by {
            if !is_absolute(tail) {
                assert(full[0] == env.cwd[0]);
            }
        }
        lemma_absolute_no_tilde(full);
    }
}

/// Resolution is idempotent: resolving the home-relative form that a
/// resolution gave yields the same six projections. It holds for every name
/// that is not empty, in every consistent environment.
pub proof fn lemma_resolve_idempotent(
    name: Seq<char>,
    repo: Seq<char>,
    staging: Seq<char>,
    env: EnvView,
)
    requires
        consistent(env),
        name.len() > 0,
    ensures
        resolve(resolve(name, repo, staging, env).rel_path, repo, staging, env) == resolve(
            name,
            repo,
            staging,
            env,
        ),
{
    let expanded = expand_tilde_spec(name, env.home);
    let first = resolve(name, repo, staging, env);
    // The expanded name is not empty and expands to itself.
    assert(expanded.len() > 0 && expand_tilde_spec(expanded, env.home) == expanded) by {
        match env.home {
            Some(h) => {
                if has_prefix(name, tilde()) {
                    assert(expanded == h + name.subrange(1, name.len() as int));
                    assert(expanded[0] == h[0]);
                    assert(is_absolute(expanded));
                    lemma_absolute_no_tilde(expanded);
                }
            },
            None => {},
        }
    }
    let full = full_path_spec(expanded, env);
    lemma_full_path_fixed(expanded, env);
    lemma_absolute_no_tilde(full);
    if has_prefix(expanded, tilde_slash()) {
        // Only a name that no home directory expanded still starts with `~/`.
        assert(has_prefix(expanded, tilde())) by {
            assert(expanded.subrange(0, 1) =~= tilde_slash().subrange(0, 1));
            assert(expanded.subrange(0, 2).subrange(0, 1) =~= expanded.subrange(0, 1));
            assert(tilde_slash().subrange(0, 1) =~= tilde());
        }
        assert(env.home is None) by {
            if env.home is Some {
                let h = env.home->0;
                if has_prefix(name, tilde()) {
                    assert(expanded[0] == h[0]);
                    lemma_absolute_no_tilde(expanded);
                }
            }
        }
        assert(expanded == name);
        assert(first.rel_path == name);
    } else {
        let rel = first.rel_path;
        assert(rel == rehome(full, env.home, tilde()));
        // The home-relative form expands back to the absolute form.
        assert(expand_tilde_spec(rel, env.home) == full) by {
            match env.home {
                Some(h) => {
                    if has_prefix(full, h) {
                        assert(rel == tilde() + full.subrange(h.len() as int, full.len() as int));
                        assert(rel.subrange(0, 1) =~= tilde());
                        assert(rel.subrange(1, rel.len() as int) =~= full.subrange(
                            h.len() as int,
                            full.len() as int,
                        ));
                        assert(h + full.subrange(h.len() as int, full.len() as int) =~= full) by {
                            assert(full.subrange(0, h.len() as int) == h);
                        }
                    }
                },
                None => {},
            }
        }
        assert(reduce_spec(full, env) == rel);
    }
}

/// The environment once it has learned that the live path of `name` exists
/// where resolution put it: both the name as it was typed and the live path
/// itself are known to stand at the live path. A link is recorded so, at
/// the place where it stands and not at the place it leads to.
pub open spec fn with_live_path(name: Seq<char>, env: EnvView) -> EnvView {
    let expanded = expand_tilde_spec(name, env.home);
    let live = full_path_spec(expanded, env);
    EnvView { known: env.known.insert(expanded, live).insert(live, live), ..env }
}

/// Learning that the live path of a name exists where resolution put it
/// changes nothing of what the name resolves to. So a dotfile keeps its
/// name and its six places when its live path becomes a link.
pub proof fn lemma_resolve_keeps_live_path(
    name: Seq<char>,
    repo: Seq<char>,
    staging: Seq<char>,
    env: EnvView,
)
    requires
        consistent(env),
        name.len() > 0,
    ensures
        resolve(name, repo, staging, with_live_path(name, env)) == resolve(
            name,
            repo,
            staging,
            env,
        ),
{
    let expanded = expand_tilde_spec(name, env.home);
    let live = full_path_spec(expanded, env);
    let after = with_live_path(name, env);
    assert(expanded.len() > 0 && expand_tilde_spec(expanded, env.home) == expanded) by {
        match env.home {
            Some(h) => {
                if has_prefix(name, tilde()) {
                    assert(expanded == h + name.subrange(1, name.len() as int));
                    assert(expanded[0] == h[0]);
                    lemma_absolute_no_tilde(expanded);
                }
            },
            None => {},
        }
    }
    lemma_full_path_fixed(expanded, env);
    assert forall|path: Seq<char>| full_path_spec(path, after) == full_path_spec(path, env) by {
        if path == live {
        } else if path == expanded {
        } else {
            assert(after.known.contains_key(path) == env.known.contains_key(path));
        }
    }
}

impl DotPath {
    /// Resolves `name` against the roots of `config`.
    pub fn new(config: &Config, name: &str, env: &PathEnv) -> (r: Self)
        requires
            env.wf(),
        ensures
            r@ == resolve(name@, config@.repo_path, config@.staging_path, env@),
    {
        let expanded = expand_tilde_in(name, env);
        let target = replace_home(expanded.as_str(), config.repo_path(), env);
        let staged = replace_home(expanded.as_str(), config.staging_path(), env);
        DotPath {
            rel_path: reduce_path_to_home(expanded.as_str(), env),
            abs_path: get_full_path(expanded.as_str(), env),
            abs_target: get_full_path(target.as_str(), env),
            target,
            abs_target_staged: get_full_path(staged.as_str(), env),
            target_staged: staged,
        }
    }

    /// Resolves a name that the manifest holds.
    pub fn from_path(config: &Config, path: &String, env: &PathEnv) -> (r: Self)
        requires
            env.wf(),
        ensures
            r@ == resolve(path@, config@.repo_path, config@.staging_path, env@),
    {
        DotPath::new(config, path.as_str(), env)
    }

    /// The name under which the manifest keeps the dotfile.
    pub fn to_name(&self) -> (r: &String)
        ensures
            r@ == self@.rel_path,
    {
        &self.rel_path
    }

    /// The dotfile as it is shown to the user: its home-relative live path.
    pub fn display(&self) -> (r: String)
        ensures
            r@ == self@.rel_path,
    {
        self.rel_path.clone()
    }

    /// The paths whose real location `new` asks the environment for, in the
    /// order in which it asks. An environment answers for `name` once it has
    /// been told of each of them that exists.
    pub fn lookups(config: &Config, name: &str, env: &PathEnv) -> (r: Vec<String>)
        requires
            env.wf(),
        ensures
            r@.len() == 3,
            forall|i: int|
                0 <= i < 3 ==> (#[trigger] r@[i])@ == resolve_lookups(
                    name@,
                    config@.repo_path,
                    config@.staging_path,
                    env@,
                )[i],
    {
        let expanded = expand_tilde_in(name, env);
        let target = replace_home(expanded.as_str(), config.repo_path(), env);
        let staged = replace_home(expanded.as_str(), config.staging_path(), env);
        let mut r: Vec<String> = Vec::new();
        r.push(expanded);
        r.push(target);
        r.push(staged);
        r
    }
}

} // verus!
