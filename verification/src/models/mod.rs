//! The manifest: which dotfiles are tracked and which are staged.

pub mod dotfile;
pub mod path_name;

pub use dotfile::{DotfileEntry, DotfileStatus, EntryView};
pub use path_name::{DotPath, DotPathView};

use crate::error::{DotError, ErrorKind};
use crate::table::Table;
use crate::text::{join, join_path};
use crate::utils::path::PathEnv;
use path_name::resolve;
use vstd::prelude::*;
use vstd::string::*;

verus! {

/// The manifest as plain sequences and maps.
pub struct ConfigView {
    pub repo_path: Seq<char>,
    pub staging_path: Seq<char>,
    /// The tracked entries by name.
    pub dotfiles: Map<Seq<char>, EntryView>,
    /// The staged entries by name.
    pub staged: Map<Seq<char>, EntryView>,
}

/// The manifest of a repository, with the roots it was opened for. Tracked
/// and staged entries are kept apart, each keyed by the home-relative live
/// path of its dotfile.
pub struct Config {
    repo_path: String,
    staging_path: String,
    dotfiles: Table<DotfileEntry>,
    staged: Table<DotfileEntry>,
}

/// What is written to disk of a manifest: the two sets of entries by name.
pub struct Manifest {
    pub dotfiles: Vec<(String, DotfileEntry)>,
    pub staged: Vec<(String, DotfileEntry)>,
}

/// The name of the staging directory below the repository root.
pub open spec fn staging_dir_name() -> Seq<char> {
    seq!['.', 's', 't', 'a', 'g', 'i', 'n', 'g']
}

/// The name of the manifest file below the repository root.
pub open spec fn manifest_file_name() -> Seq<char> {
    seq!['.', 'd', 'o', 't', 'z', 'i', 'l', 'l', 'a', '.', 'j', 's', 'o', 'n']
}

/// The name of the file beside the manifest in which a new manifest is
/// written before it takes the place of the old one.
pub open spec fn manifest_temp_name() -> Seq<char> {
    manifest_file_name() + seq!['.', 't', 'm', 'p']
}

/// The entries of a table by name.
pub open spec fn entry_map(t: Table<DotfileEntry>) -> Map<Seq<char>, EntryView> {
    Map::new(|k: Seq<char>| t@.contains_key(k), |k: Seq<char>| t@[k]@)
}

/// The map that a list of named entries stands for; of two entries with one
/// name the later counts.
pub open spec fn listed(s: Seq<(String, DotfileEntry)>) -> Map<Seq<char>, EntryView>
    decreases s.len(),
{
    if s.len() == 0 {
        Map::empty()
    } else {
        listed(s.drop_last()).insert(s.last().0@, s.last().1@)
    }
}

/// Where the manifest of the repository at `repo_path` is kept.
pub fn manifest_path(repo_path: &str) -> (r: String)
    ensures
        r@ == join_path(repo_path@, manifest_file_name()),
{
    proof {
        reveal_strlit(".dotzilla.json");
        assert(".dotzilla.json"@ =~= manifest_file_name());
    }
    join(repo_path, ".dotzilla.json")
}

/// Where a new manifest of the repository at `repo_path` is written before
/// it is moved over the old one, so that a crash leaves one of the two
/// whole.
pub fn manifest_temp_path(repo_path: &str) -> (r: String)
    ensures
        r@ == join_path(repo_path@, manifest_temp_name()),
{
    proof {
        reveal_strlit(".dotzilla.json.tmp");
        assert(".dotzilla.json.tmp"@ =~= manifest_temp_name());
    }
    join(repo_path, ".dotzilla.json.tmp")
}

fn table_of(list: Vec<(String, DotfileEntry)>) -> (t: Table<DotfileEntry>)
    ensures
        t.wf(),
        entry_map(t) == listed(list@),
{
    let mut t: Table<DotfileEntry> = Table::new();
    let mut i: usize = 0;
    proof {
        assert(list@.subrange(0, 0) =~= Seq::empty());
        assert(entry_map(t) =~= listed(list@.subrange(0, 0)));
    }
    while i < list.len()
        invariant
            i <= list.len(),
            t.wf(),
            entry_map(t) == listed(list@.subrange(0, i as int)),
        decreases list.len() - i,
    {
        let ghost before = t;
        let key = list[i].0.clone();
        let value = list[i].1.clone();
        t.insert(key, value);
        proof {
            let next = list@.subrange(0, i + 1);
            assert(next.drop_last() =~= list@.subrange(0, i as int));
            assert(next.last() == list@[i as int]);
            assert(entry_map(t) =~= entry_map(before).insert(key@, value@));
        }
        i = i + 1;
    }
    proof {
        assert(list@.subrange(0, list.len() as int) =~= list@);
    }
    t
}

fn list_of(t: &Table<DotfileEntry>) -> (list: Vec<(String, DotfileEntry)>)
    requires
        t.wf(),
    ensures
        list@.len() == t.keys().len(),
        forall|i: int|
            0 <= i < list@.len() ==> (#[trigger] list@[i]).0@ == t.keys()[i] && list@[i].1@
                == entry_map(*t)[t.keys()[i]],
{
    let mut list: Vec<(String, DotfileEntry)> = Vec::new();
    let mut i: usize = 0;
    while i < t.len()
        invariant
            t.wf(),
            i <= t.keys().len(),
            list@.len() == i,
            forall|k: int|
                0 <= k < i ==> (#[trigger] list@[k]).0@ == t.keys()[k] && list@[k].1@
                    == entry_map(*t)[t.keys()[k]],
        decreases t.keys().len() - i,
    {
        list.push((t.key_at(i).clone(), t.value_at(i).clone()));
        i = i + 1;
    }
    list
}

fn copy_table(t: &Table<DotfileEntry>) -> (r: Table<DotfileEntry>)
    requires
        t.wf(),
    ensures
        r.wf(),
        r.keys() == t.keys(),
        entry_map(r) == entry_map(*t),
{
    let mut r: Table<DotfileEntry> = Table::new();
    let mut i: usize = 0;
    proof {
        t.lemma_shape();
        assert(r.keys() =~= t.keys().subrange(0, 0));
    }
    while i < t.len()
        invariant
            t.wf(),
            r.wf(),
            i <= t.keys().len(),
            t.keys().no_duplicates(),
            r.keys() == t.keys().subrange(0, i as int),
            forall|k: Seq<char>| r@.contains_key(k) <==> r.keys().contains(k),
            forall|k: Seq<char>| #[trigger] r@.contains_key(k) ==> t@.contains_key(k) && r@[k] == t@[k],
        decreases t.keys().len() - i,
    {
        let key = t.key_at(i).clone();
        let value = t.value_at(i).clone();
        let ghost before = r;
        proof {
            t.lemma_shape();
            assert(!before@.contains_key(key@)) by {
                if before.keys().contains(key@) {
                    let j = before.keys().index_of(key@);
                    assert(t.keys()[j] == key@ && t.keys()[i as int] == key@);
                }
            }
        }
        r.insert(key, value);
        proof {
            r.lemma_shape();
            assert(r.keys() =~= t.keys().subrange(0, i + 1));
        }
        i = i + 1;
    }
    proof {
        t.lemma_shape();
        assert(t.keys().subrange(0, t.keys().len() as int) =~= t.keys());
        assert(entry_map(r) =~= entry_map(*t));
    }
    r
}

impl Config {
    /// Neither set of entries holds a name twice.
    pub closed spec fn wf(&self) -> bool {
        self.dotfiles.wf() && self.staged.wf()
    }

    /// The manifest as plain sequences and maps.
    pub closed spec fn view(&self) -> ConfigView {
        ConfigView {
            repo_path: self.repo_path@,
            staging_path: self.staging_path@,
            dotfiles: entry_map(self.dotfiles),
            staged: entry_map(self.staged),
        }
    }

    /// The tracked names, in the order in which they were first added.
    pub closed spec fn tracked_names(&self) -> Seq<Seq<char>> {
        self.dotfiles.keys()
    }

    /// The staged names, in the order in which they were first staged.
    pub closed spec fn staged_names(&self) -> Seq<Seq<char>> {
        self.staged.keys()
    }

    /// The listed names are the names of the two maps, each once.
    pub proof fn lemma_names(&self)
        requires
            self.wf(),
        ensures
            self.tracked_names().no_duplicates(),
            self.staged_names().no_duplicates(),
            forall|k: Seq<char>| self@.dotfiles.contains_key(k) <==> self.tracked_names().contains(k),
            forall|k: Seq<char>| self@.staged.contains_key(k) <==> self.staged_names().contains(k),
    {
        self.dotfiles.lemma_shape();
        self.staged.lemma_shape();
    }

    /// The empty manifest of the repository at `repo_path`; staging lies in
    /// `.staging` below it.
    pub fn new(repo_path: String) -> (r: Self)
        ensures
            r.wf(),
            r@ == (ConfigView {
                repo_path: repo_path@,
                staging_path: join_path(repo_path@, staging_dir_name()),
                dotfiles: Map::empty(),
                staged: Map::empty(),
            }),
            r.tracked_names() == Seq::<Seq<char>>::empty(),
            r.staged_names() == Seq::<Seq<char>>::empty(),
    {
        proof {
            reveal_strlit(".staging");
            assert(".staging"@ =~= staging_dir_name());
        }
        let staging_path = join(repo_path.as_str(), ".staging");
        let r = Config { repo_path, staging_path, dotfiles: Table::new(), staged: Table::new() };
        proof {
            assert(r@.dotfiles =~= Map::empty());
            assert(r@.staged =~= Map::empty());
        }
        r
    }

    /// What is to be written to disk: every entry of both sets, in order.
    pub fn save(&self) -> (r: Manifest)
        requires
            self.wf(),
        ensures
            r.dotfiles@.len() == self.tracked_names().len(),
            forall|i: int|
                0 <= i < r.dotfiles@.len() ==> (#[trigger] r.dotfiles@[i]).0@
                    == self.tracked_names()[i] && r.dotfiles@[i].1@
                    == self@.dotfiles[self.tracked_names()[i]],
            r.staged@.len() == self.staged_names().len(),
            forall|i: int|
                0 <= i < r.staged@.len() ==> (#[trigger] r.staged@[i]).0@ == self.staged_names()[i]
                    && r.staged@[i].1@ == self@.staged[self.staged_names()[i]],
    {
        Manifest { dotfiles: list_of(&self.dotfiles), staged: list_of(&self.staged) }
    }

    /// Opens the manifest of the repository at `repo_path` from what was read
    /// from disk. A repository without a manifest file is refused.
    pub fn load(repo_path: &str, stored: Option<Manifest>) -> (r: Result<Self, DotError>)
        ensures
            match r {
                Ok(c) => stored.is_some() && c.wf() && c@ == (ConfigView {
                    repo_path: repo_path@,
                    staging_path: join_path(repo_path@, staging_dir_name()),
                    dotfiles: listed(stored.unwrap().dotfiles@),
                    staged: listed(stored.unwrap().staged@),
                }),
                Err(e) => stored.is_none() && e.kind() == ErrorKind::RepositoryNotFound
                    && e.spec_subject() == repo_path@,
            },
    {
        match stored {
            None => Err(DotError::RepositoryNotFound(String::from_str(repo_path))),
            Some(m) => {
                proof {
                    reveal_strlit(".staging");
                    assert(".staging"@ =~= staging_dir_name());
                }
                Ok(
                    Config {
                        repo_path: String::from_str(repo_path),
                        staging_path: join(repo_path, ".staging"),
                        dotfiles: table_of(m.dotfiles),
                        staged: table_of(m.staged),
                    },
                )
            },
        }
    }

    /// A copy of the manifest, to go back to where a plan fails.
    pub fn duplicate(&self) -> (r: Self)
        requires
            self.wf(),
        ensures
            r.wf(),
            r@ == self@,
            r.tracked_names() == self.tracked_names(),
            r.staged_names() == self.staged_names(),
    {
        Config {
            repo_path: self.repo_path.clone(),
            staging_path: self.staging_path.clone(),
            dotfiles: copy_table(&self.dotfiles),
            staged: copy_table(&self.staged),
        }
    }

    /// The number of tracked entries.
    pub fn tracked_count(&self) -> (n: usize)
        ensures
            n == self.tracked_names().len(),
    {
        self.dotfiles.len()
    }

    /// The number of staged entries.
    pub fn staged_count(&self) -> (n: usize)
        ensures
            n == self.staged_names().len(),
    {
        self.staged.len()
    }

    /// Tells whether `name` is staged.
    pub fn is_staged(&self, name: &str) -> (r: bool)
        ensures
            r == self@.staged.contains_key(name@),
    {
        self.staged.contains_key(name)
    }

    /// Tells whether `name` is tracked.
    pub fn is_tracked(&self, name: &str) -> (r: bool)
        ensures
            r == self@.dotfiles.contains_key(name@),
    {
        self.dotfiles.contains_key(name)
    }

    /// The repository root.
    pub fn repo_path(&self) -> (r: &str)
        ensures
            r@ == self@.repo_path,
    {
        self.repo_path.as_str()
    }

    /// The staging root.
    pub fn staging_path(&self) -> (r: &str)
        ensures
            r@ == self@.staging_path,
    {
        self.staging_path.as_str()
    }

    /// The tracked entry of `dotpath`.
    pub fn get_dotfile(&self, dotpath: &DotPath) -> (r: Result<&DotfileEntry, DotError>)
        requires
            self.wf(),
        ensures
            match r {
                Ok(e) => self@.dotfiles.contains_key(dotpath@.rel_path) && e@
                    == self@.dotfiles[dotpath@.rel_path],
                Err(e) => !self@.dotfiles.contains_key(dotpath@.rel_path) && e.kind()
                    == ErrorKind::NoSuchDotfile && e.spec_subject() == dotpath@.rel_path,
            },
    {
        match self.dotfiles.get(dotpath.to_name().as_str()) {
            Some(e) => Ok(e),
            None => Err(DotError::NoSuchDotfile(dotpath.display())),
        }
    }

    /// Tracks `entry` under the name of `dotpath`, in place of any entry that
    /// was tracked under it.
    pub fn add(&mut self, dotpath: &DotPath, entry: DotfileEntry)
        requires
            old(self).wf(),
        ensures
            final(self).wf(),
            final(self)@ == (ConfigView {
                dotfiles: old(self)@.dotfiles.insert(dotpath@.rel_path, entry@),
                ..old(self)@
            }),
            final(self).staged_names() == old(self).staged_names(),
            final(self).tracked_names() == if old(self)@.dotfiles.contains_key(dotpath@.rel_path) {
                old(self).tracked_names()
            } else {
                old(self).tracked_names().push(dotpath@.rel_path)
            },
    {
        self.dotfiles.insert(dotpath.display(), entry);
        proof {
            assert(self@.dotfiles =~= old(self)@.dotfiles.insert(dotpath@.rel_path, entry@));
        }
    }

    /// Stops tracking `dotpath`.
    pub fn remove(&mut self, dotpath: DotPath) -> (r: Result<(), DotError>)
        requires
            old(self).wf(),
        ensures
            final(self).wf(),
            final(self)@ == (ConfigView {
                dotfiles: old(self)@.dotfiles.remove(dotpath@.rel_path),
                ..old(self)@
            }),
            final(self).staged_names() == old(self).staged_names(),
            match r {
                Ok(_) => old(self)@.dotfiles.contains_key(dotpath@.rel_path),
                Err(e) => !old(self)@.dotfiles.contains_key(dotpath@.rel_path) && e.kind()
                    == ErrorKind::NoSuchDotfile && e.spec_subject() == dotpath@.rel_path
                    && final(self).tracked_names() == old(self).tracked_names(),
            },
    {
        let gone = self.dotfiles.remove(dotpath.to_name().as_str());
        proof {
            assert(self@.dotfiles =~= old(self)@.dotfiles.remove(dotpath@.rel_path));
        }
        match gone {
            Some(_) => Ok(()),
            None => Err(DotError::NoSuchDotfile(dotpath.display())),
        }
    }

    /// Every tracked entry with the projections of its name, in the order of
    /// the tracked names.
    pub fn get(&self, env: &PathEnv) -> (r: Vec<(DotPath, DotfileEntry)>)
        requires
            self.wf(),
            env.wf(),
        ensures
            r@.len() == self.tracked_names().len(),
            forall|i: int|
                0 <= i < r@.len() ==> (#[trigger] r@[i]).0@ == resolve(
                    self.tracked_names()[i],
                    self@.repo_path,
                    self@.staging_path,
                    env@,
                ) && r@[i].1@ == self@.dotfiles[self.tracked_names()[i]],
    {
        let mut r: Vec<(DotPath, DotfileEntry)> = Vec::new();
        let mut i: usize = 0;
        while i < self.dotfiles.len()
            invariant
                self.wf(),
                env.wf(),
                i <= self.tracked_names().len(),
                r@.len() == i,
                forall|k: int|
                    0 <= k < i ==> (#[trigger] r@[k]).0@ == resolve(
                        self.tracked_names()[k],
                        self@.repo_path,
                        self@.staging_path,
                        env@,
                    ) && r@[k].1@ == self@.dotfiles[self.tracked_names()[k]],
            decreases self.tracked_names().len() - i,
        {
            let dotpath = DotPath::from_path(self, self.dotfiles.key_at(i), env);
            r.push((dotpath, self.dotfiles.value_at(i).clone()));
            i = i + 1;
        }
        r
    }

    /// The staged entry of `dotpath`.
    pub fn get_staged_dotfile(&self, dotpath: DotPath) -> (r: Result<&DotfileEntry, DotError>)
        requires
            self.wf(),
        ensures
            match r {
                Ok(e) => self@.staged.contains_key(dotpath@.rel_path) && e@
                    == self@.staged[dotpath@.rel_path],
                Err(e) => !self@.staged.contains_key(dotpath@.rel_path) && e.kind()
                    == ErrorKind::NoSuchDotfile && e.spec_subject() == dotpath@.rel_path,
            },
    {
        match self.staged.get(dotpath.to_name().as_str()) {
            Some(e) => Ok(e),
            None => Err(DotError::NoSuchDotfile(dotpath.display())),
        }
    }

    /// Stages `entry` under the name of `dotpath`, in place of any entry that
    /// was staged under it.
    pub fn stage(&mut self, dotpath: &DotPath, entry: DotfileEntry)
        requires
            old(self).wf(),
        ensures
            final(self).wf(),
            final(self)@ == (ConfigView {
                staged: old(self)@.staged.insert(dotpath@.rel_path, entry@),
                ..old(self)@
            }),
            final(self).tracked_names() == old(self).tracked_names(),
            final(self).staged_names() == if old(self)@.staged.contains_key(dotpath@.rel_path) {
                old(self).staged_names()
            } else {
                old(self).staged_names().push(dotpath@.rel_path)
            },
    {
        self.staged.insert(dotpath.display(), entry);
        proof {
            assert(self@.staged =~= old(self)@.staged.insert(dotpath@.rel_path, entry@));
        }
    }

    /// Takes `dotpath` out of the staged set.
    pub fn unstage(&mut self, dotpath: &DotPath) -> (r: Result<(), DotError>)
        requires
            old(self).wf(),
        ensures
            final(self).wf(),
            final(self)@ == (ConfigView {
                staged: old(self)@.staged.remove(dotpath@.rel_path),
                ..old(self)@
            }),
            final(self).tracked_names() == old(self).tracked_names(),
            match r {
                Ok(_) => old(self)@.staged.contains_key(dotpath@.rel_path),
                Err(e) => !old(self)@.staged.contains_key(dotpath@.rel_path) && e.kind()
                    == ErrorKind::NoSuchDotfile && e.spec_subject() == dotpath@.rel_path
                    && final(self).staged_names() == old(self).staged_names(),
            },
    {
        let gone = self.staged.remove(dotpath.to_name().as_str());
        proof {
            assert(self@.staged =~= old(self)@.staged.remove(dotpath@.rel_path));
        }
        match gone {
            Some(_) => Ok(()),
            None => Err(DotError::NoSuchDotfile(dotpath.display())),
        }
    }

    /// Every staged entry with the projections of its name, in the order of
    /// the staged names.
    pub fn get_staged(&self, env: &PathEnv) -> (r: Vec<(DotPath, DotfileEntry)>)
        requires
            self.wf(),
            env.wf(),
        ensures
            r@.len() == self.staged_names().len(),
            forall|i: int|
                0 <= i < r@.len() ==> (#[trigger] r@[i]).0@ == resolve(
                    self.staged_names()[i],
                    self@.repo_path,
                    self@.staging_path,
                    env@,
                ) && r@[i].1@ == self@.staged[self.staged_names()[i]],
    {
        let mut r: Vec<(DotPath, DotfileEntry)> = Vec::new();
        let mut i: usize = 0;
        while i < self.staged.len()
            invariant
                self.wf(),
                env.wf(),
                i <= self.staged_names().len(),
                r@.len() == i,
                forall|k: int|
                    0 <= k < i ==> (#[trigger] r@[k]).0@ == resolve(
                        self.staged_names()[k],
                        self@.repo_path,
                        self@.staging_path,
                        env@,
                    ) && r@[k].1@ == self@.staged[self.staged_names()[k]],
            decreases self.staged_names().len() - i,
        {
            let dotpath = DotPath::from_path(self, self.staged.key_at(i), env);
            r.push((dotpath, self.staged.value_at(i).clone()));
            i = i + 1;
        }
        r
    }
}

} // verus!
