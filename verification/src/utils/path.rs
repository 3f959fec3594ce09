//! How a name becomes a path: the home directory, the working directory and
//! the real locations of what exists.

use crate::table::Table;
use crate::text::{
    has_prefix, is_absolute, join, join_path, last_part, last_segment, path_is_absolute,
    replace_prefix, starts_with, strip_dot_slash, swap_prefix, trim_dot_slash,
};
use vstd::prelude::*;
use vstd::string::*;

verus! {

/// What the path rules know of the machine, as plain sequences.
pub struct EnvView {
    /// The home directory, where one is known.
    pub home: Option<Seq<char>>,
    /// The working directory.
    pub cwd: Seq<char>,
    /// The absolute location of each path that is there, with no link among
    /// its directories. A path that is itself a link has its own place as
    /// its location, not the place it leads to.
    pub known: Map<Seq<char>, Seq<char>>,
}

/// What the path rules know of the machine. A path that has no recorded real
/// location counts as one that does not exist.
pub struct PathEnv {
    home: Option<String>,
    cwd: String,
    known: Table<String>,
}

/// The string `~`.
pub open spec fn tilde() -> Seq<char> {
    seq!['~']
}

/// The string `~/`.
pub open spec fn tilde_slash() -> Seq<char> {
    seq!['~', '/']
}

/// The string `./`.
pub open spec fn dot_slash() -> Seq<char> {
    seq!['.', '/']
}

/// A leading `~` stands for the home directory, where one is known.
pub open spec fn expand_tilde_spec(path: Seq<char>, home: Option<Seq<char>>) -> Seq<char> {
    match home {
        Some(h) if has_prefix(path, tilde()) => swap_prefix(path, 1, h),
        _ => path,
    }
}

/// A relative path taken from the working directory; a leading run of `./`
/// is dropped first.
pub open spec fn anchor(path: Seq<char>, cwd: Seq<char>) -> Seq<char> {
    if has_prefix(path, dot_slash()) {
        join_path(cwd, strip_dot_slash(path))
    } else {
        join_path(cwd, path)
    }
}

/// The absolute form of a path: its real location if it exists, else the
/// path itself taken from the working directory.
pub open spec fn full_path_spec(path: Seq<char>, env: EnvView) -> Seq<char> {
    if env.known.contains_key(path) {
        env.known[path]
    } else {
        let p = expand_tilde_spec(path, env.home);
        if is_absolute(p) {
            p
        } else {
            anchor(path, env.cwd)
        }
    }
}

/// `full` with a leading home directory replaced by `to`.
pub open spec fn rehome(full: Seq<char>, home: Option<Seq<char>>, to: Seq<char>) -> Seq<char> {
    match home {
        Some(h) if has_prefix(full, h) => swap_prefix(full, h.len() as int, to),
        _ => full,
    }
}

/// The home-relative form of a path.
pub open spec fn reduce_spec(path: Seq<char>, env: EnvView) -> Seq<char> {
    if has_prefix(path, tilde_slash()) {
        path
    } else {
        rehome(full_path_spec(path, env), env.home, tilde())
    }
}

/// The absolute form of a path with the home directory replaced by `new_home`.
pub open spec fn replace_home_spec(path: Seq<char>, new_home: Seq<char>, env: EnvView) -> Seq<
    char,
> {
    let full = full_path_spec(path, env);
    if has_prefix(full, tilde()) {
        swap_prefix(full, 1, new_home)
    } else {
        rehome(full, env.home, new_home)
    }
}

/// Where a path that was found on disk stands. A symbolic link stands
/// under its own name in the real location of the directory that holds it:
/// it is not followed, so that a dotfile keeps its live path when that
/// becomes a link. Anything else stands at its real location. A path of
/// which the location could not be had is not recorded.
pub open spec fn location_spec(
    path: Seq<char>,
    is_link: bool,
    real_dir: Option<Seq<char>>,
    real_path: Option<Seq<char>>,
) -> Option<Seq<char>> {
    if is_link {
        match real_dir {
            Some(d) => Some(join_path(d, last_part(path))),
            None => None,
        }
    } else {
        real_path
    }
}

/// A name without a slash is the last part of any path that ends with it
/// after a slash.
pub proof fn lemma_last_part_after(front: Seq<char>, name: Seq<char>)
    requires
        front.len() == 0 || front.last() == '/',
        forall|i: int| 0 <= i < name.len() ==> (#[trigger] name[i]) != '/',
    ensures
        last_part(front + name) == name,
    decreases name.len(),
{
    let whole = front + name;
    if name.len() == 0 {
        assert(whole =~= front);
        assert(last_part(front) =~= name);
    } else {
        assert(whole.last() == name.last());
        assert(whole.drop_last() =~= front + name.drop_last());
        lemma_last_part_after(front, name.drop_last());
        assert(name.drop_last().push(name.last()) =~= name);
    }
}

/// A link is recorded at its own place: found under the name `name` in the
/// directory whose real location is `dir`, it stands at `dir` joined with
/// `name`, wherever it leads.
pub proof fn lemma_link_recorded_in_place(
    dir: Seq<char>,
    name: Seq<char>,
    real_path: Option<Seq<char>>,
)
    requires
        forall|i: int| 0 <= i < name.len() ==> (#[trigger] name[i]) != '/',
    ensures
        location_spec(join_path(dir, name), true, Some(dir), real_path) == Some(
            join_path(dir, name),
        ),
{
    if name.len() > 0 {
        assert(name[0] != '/');
    }
    if dir.len() == 0 || dir.last() == '/' {
        lemma_last_part_after(dir, name);
    } else {
        lemma_last_part_after(dir + seq!['/'], name);
    }
}

/// Calls `home::home_dir` and gives the directory as text. Nothing is claimed
/// of the result: it depends on the process environment and the user
/// database. A home directory that is not valid UTF-8 counts as unknown.
#[verifier::external_body]
fn home_dir_text() -> (r: Option<String>) {
    home::home_dir().and_then(|h| h.to_str().map(|s| s.to_string()))
}

fn option_view(o: &Option<String>) -> (r: Option<&str>)
    ensures
        r.is_some() == o.is_some(),
        o.is_some() ==> r.unwrap()@ == o.unwrap()@,
{
    match o {
        Some(s) => Some(s.as_str()),
        None => None,
    }
}

/// Tells whether `s` starts with `~`.
fn starts_with_tilde(s: &str) -> (r: bool)
    ensures
        r == has_prefix(s@, tilde()),
{
    proof {
        reveal_strlit("~");
        assert("~"@ =~= tilde());
    }
    starts_with(s, "~")
}

/// Expands a leading `~` to `home`, where one is given.
pub fn expand_tilde_with(path: &str, home: Option<&str>) -> (r: String)
    ensures
        r@ == expand_tilde_spec(
            path@,
            match home {
                Some(h) => Some(h@),
                None => None,
            },
        ),
{
    if starts_with_tilde(path) {
        if let Some(h) = home {
            return replace_prefix(path, 1, h);
        }
    }
    String::from_str(path)
}

/// Expands a leading `~` to the home directory of the current user. Whatever
/// the machine answers, a path without a leading `~` comes back unchanged,
/// and any other comes back unchanged or with the `~` replaced.
pub fn expand_tilde(path: &str) -> (r: String)
    ensures
        exists|home: Option<Seq<char>>| r@ == expand_tilde_spec(path@, home),
        !has_prefix(path@, tilde()) ==> r@ == path@,
{
    let home = home_dir_text();
    let r = expand_tilde_with(path, option_view(&home));
    proof {
        let h: Option<Seq<char>> = match home {
            Some(s) => Some(s@),
            None => None,
        };
        assert(r@ == expand_tilde_spec(path@, h));
    }
    r
}

impl PathEnv {
    /// The table of real locations has no key twice.
    pub closed spec fn wf(&self) -> bool {
        self.known.wf()
    }

    /// The environment as plain sequences.
    pub closed spec fn view(&self) -> EnvView {
        EnvView {
            home: match self.home {
                Some(h) => Some(h@),
                None => None,
            },
            cwd: self.cwd@,
            known: Map::new(
                |k: Seq<char>| self.known@.contains_key(k),
                |k: Seq<char>| self.known@[k]@,
            ),
        }
    }

    /// An environment in which nothing is known to exist.
    pub fn new(home: Option<String>, cwd: String) -> (r: Self)
        ensures
            r.wf(),
            r@.home == (match home {
                Some(h) => Some(h@),
                None => None,
            }),
            r@.cwd == cwd@,
            r@.known == Map::<Seq<char>, Seq<char>>::empty(),
    {
        let r = PathEnv { home, cwd, known: Table::new() };
        proof {
            assert(r@.known =~= Map::<Seq<char>, Seq<char>>::empty());
        }
        r
    }

    /// An environment with the home directory of the current user, in which
    /// nothing is known to exist. Which home directory it holds depends on the
    /// machine.
    pub fn detect(cwd: String) -> (r: Self)
        ensures
            r.wf(),
            r@.cwd == cwd@,
            r@.known == Map::<Seq<char>, Seq<char>>::empty(),
    {
        PathEnv::new(home_dir_text(), cwd)
    }

    /// Records that `path` exists and that `location` is its real location.
    pub fn record(&mut self, path: String, location: String)
        requires
            old(self).wf(),
        ensures
            final(self).wf(),
            final(self)@.home == old(self)@.home,
            final(self)@.cwd == old(self)@.cwd,
            final(self)@.known == old(self)@.known.insert(path@, location@),
    {
        self.known.insert(path, location);
        proof {
            assert(self@.known =~= old(self)@.known.insert(path@, location@));
        }
    }

    /// Records what was found of `path` on disk: whether it is itself a
    /// symbolic link, the real location of the directory that holds it, and
    /// its own real location, each where it could be had. A link is
    /// recorded at its own place and not at the place it leads to.
    pub fn observe(
        &mut self,
        path: String,
        is_link: bool,
        real_dir: Option<&str>,
        real_path: Option<&str>,
    )
        requires
            old(self).wf(),
        ensures
            final(self).wf(),
            final(self)@.home == old(self)@.home,
            final(self)@.cwd == old(self)@.cwd,
            final(self)@.known == (match location_spec(
                path@,
                is_link,
                match real_dir {
                    Some(d) => Some(d@),
                    None => None,
                },
                match real_path {
                    Some(p) => Some(p@),
                    None => None,
                },
            ) {
                Some(location) => old(self)@.known.insert(path@, location),
                None => old(self)@.known,
            }),
    {
        if is_link {
            if let Some(dir) = real_dir {
                let location = join(dir, last_segment(path.as_str()));
                self.record(path, location);
            }
        } else if let Some(location) = real_path {
            self.record(path, String::from_str(location));
        }
    }

    /// The home directory, where one is known.
    pub fn home(&self) -> (r: Option<&str>)
        ensures
            self@.home == (match r {
                Some(h) => Some(h@),
                None => None,
            }),
    {
        option_view(&self.home)
    }

    /// The working directory.
    pub fn cwd(&self) -> (r: &str)
        ensures
            r@ == self@.cwd,
    {
        self.cwd.as_str()
    }

    /// The real location of `path`, if it is known to exist.
    pub fn real_path(&self, path: &str) -> (r: Option<&str>)
        requires
            self.wf(),
        ensures
            match r {
                Some(p) => self@.known.contains_key(path@) && p@ == self@.known[path@],
                None => !self@.known.contains_key(path@),
            },
    {
        match self.known.get(path) {
            Some(p) => Some(p.as_str()),
            None => None,
        }
    }
}

/// Expands a leading `~` to the home directory of `env`.
pub fn expand_tilde_in(path: &str, env: &PathEnv) -> (r: String)
    ensures
        r@ == expand_tilde_spec(path@, env@.home),
{
    expand_tilde_with(path, env.home())
}

/// The absolute form of `path`: its real location if it exists, else the
/// path itself, taken from the working directory if it is relative.
pub fn get_full_path(path: &str, env: &PathEnv) -> (r: String)
    requires
        env.wf(),
    ensures
        r@ == full_path_spec(path@, env@),
{
    if let Some(location) = env.real_path(path) {
        return String::from_str(location);
    }
    let p = expand_tilde_in(path, env);
    if path_is_absolute(p.as_str()) {
        return p;
    }
    proof {
        reveal_strlit("./");
        assert("./"@ =~= dot_slash());
    }
    if starts_with(path, "./") {
        join(env.cwd(), trim_dot_slash(path))
    } else {
        join(env.cwd(), path)
    }
}

/// `full` with a leading home directory replaced by `to`.
fn rehome_exec(full: &str, home: Option<&str>, to: &str) -> (r: String)
    ensures
        r@ == rehome(
            full@,
            match home {
                Some(h) => Some(h@),
                None => None,
            },
            to@,
        ),
{
    if let Some(h) = home {
        if starts_with(full, h) {
            let n: usize = h.unicode_len();
            return replace_prefix(full, n, to);
        }
    }
    String::from_str(full)
}

/// The home-relative form of `path`: `/home/user/.config` becomes
/// `~/.config`. A path outside the home directory stays absolute.
pub fn reduce_path_to_home(path: &str, env: &PathEnv) -> (r: String)
    requires
        env.wf(),
    ensures
        r@ == reduce_spec(path@, env@),
{
    proof {
        reveal_strlit("~/");
        assert("~/"@ =~= tilde_slash());
        reveal_strlit("~");
        assert("~"@ =~= tilde());
    }
    if starts_with(path, "~/") {
        return String::from_str(path);
    }
    let full = get_full_path(path, env);
    rehome_exec(full.as_str(), env.home(), "~")
}

/// The absolute form of `path` with the home directory replaced by
/// `new_home`.
pub fn replace_home(path: &str, new_home: &str, env: &PathEnv) -> (r: String)
    requires
        env.wf(),
    ensures
        r@ == replace_home_spec(path@, new_home@, env@),
{
    let full = get_full_path(path, env);
    if starts_with_tilde(full.as_str()) {
        return replace_prefix(full.as_str(), 1, new_home);
    }
    rehome_exec(full.as_str(), env.home(), new_home)
}

} // verus!
