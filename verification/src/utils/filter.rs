//! Choosing dotfiles by name.

use crate::models::{DotPath, DotfileEntry};
use crate::text::{
    contains, contains_seq, lowercase_of, str_eq, to_lowercase, trim_end, trim_end_slashes,
};
use vstd::prelude::*;
use vstd::string::*;

verus! {

/// How a name is held against a path.
#[derive(Debug, Clone, Copy, PartialEq, Eq, Structural)]
pub enum FilterStrategy {
    /// The path is the name.
    Exact,
    /// The name occurs in the path.
    Contains,
}

/// How dotfiles are chosen.
#[derive(Debug, Clone, Copy)]
pub struct FilterConfig {
    pub strategy: FilterStrategy,
    pub case_sensitive: bool,
}

impl Default for FilterConfig {
    fn default() -> (r: Self)
        ensures
            r.strategy == FilterStrategy::Exact,
            !r.case_sensitive,
    {
        FilterConfig { strategy: FilterStrategy::Exact, case_sensitive: false }
    }
}

/// Whether `target` and `name` match once the slashes at their ends are
/// dropped.
pub open spec fn folded_match(target: Seq<char>, name: Seq<char>, strategy: FilterStrategy) -> bool {
    let t = trim_end(target, '/');
    let n = trim_end(name, '/');
    match strategy {
        FilterStrategy::Exact => t == n,
        FilterStrategy::Contains => contains_seq(t, n),
    }
}

/// Whether the absolute live path `path` matches `name`: both are taken in
/// lower case unless the case counts.
pub open spec fn matches_spec(path: Seq<char>, name: Seq<char>, config: FilterConfig) -> bool {
    if config.case_sensitive {
        folded_match(path, name, config.strategy)
    } else {
        folded_match(lowercase_of(path), lowercase_of(name), config.strategy)
    }
}

/// The places among the first `n` paths that match `name`, in rising order;
/// without a name, every place.
pub open spec fn matching(
    paths: Seq<Seq<char>>,
    n: nat,
    name: Option<Seq<char>>,
    config: FilterConfig,
) -> Seq<int>
    decreases n,
{
    if n == 0 || n > paths.len() {
        Seq::empty()
    } else {
        let before = matching(paths, (n - 1) as nat, name, config);
        if name is None || matches_spec(paths[n - 1], name->0, config) {
            before.push(n - 1)
        } else {
            before
        }
    }
}

/// The absolute live paths of a list of dotfiles.
pub open spec fn live_paths(dotfiles: Seq<(DotPath, DotfileEntry)>) -> Seq<Seq<char>> {
    Seq::new(dotfiles.len(), |i: int| dotfiles[i].0@.abs_path)
}

/// `r` holds the dotfiles at the places `places`, in that order.
pub open spec fn picks(
    r: Seq<(&DotPath, &DotfileEntry)>,
    dotfiles: Seq<(DotPath, DotfileEntry)>,
    places: Seq<int>,
) -> bool {
    &&& r.len() == places.len()
    &&& forall|i: int|
        0 <= i < r.len() ==> 0 <= (#[trigger] places[i]) < dotfiles.len() && *r[i].0
            == dotfiles[places[i]].0 && *r[i].1 == dotfiles[places[i]].1
}

/// Tells whether `target` and `name`, both already in the case to compare
/// them in, match under `strategy`.
pub fn matches_folded(target: &str, name: &str, strategy: FilterStrategy) -> (r: bool)
    ensures
        r == folded_match(target@, name@, strategy),
{
    let t = trim_end_slashes(target);
    let n = trim_end_slashes(name);
    match strategy {
        FilterStrategy::Exact => str_eq(t, n),
        FilterStrategy::Contains => contains(t, n),
    }
}

/// Tells whether a dotfile matches `filter_name`.
pub fn matches_filter(dotfile_path: &DotPath, filter_name: &str, config: &FilterConfig) -> (r:
    bool)
    ensures
        r == matches_spec(dotfile_path@.abs_path, filter_name@, *config),
{
    if config.case_sensitive {
        matches_folded(dotfile_path.abs_path.as_str(), filter_name, config.strategy)
    } else {
        let name = to_lowercase(filter_name);
        let target = to_lowercase(dotfile_path.abs_path.as_str());
        matches_folded(target.as_str(), name.as_str(), config.strategy)
    }
}

/// The dotfiles that match `name`, in their order; without a name, all of
/// them.
pub fn filter_dotfiles<'a>(
    dotfiles: &'a Vec<(DotPath, DotfileEntry)>,
    name: Option<&str>,
    config: &FilterConfig,
) -> (r: Vec<(&'a DotPath, &'a DotfileEntry)>)
    ensures
        picks(
            r@,
            dotfiles@,
            matching(live_paths(dotfiles@), dotfiles@.len(), opt_view(name), *config),
        ),
{    let ghost paths = live_paths(dotfiles@);
    let ghost want = opt_view(name);
    let mut r: Vec<(&'a DotPath, &'a DotfileEntry)> = Vec::new();
    let mut n: usize = 0;
    while n < dotfiles.len()
        invariant
            n <= dotfiles.len(),
            paths == live_paths(dotfiles@),
            want == opt_view(name),
            picks(r@, dotfiles@, matching(paths, n as nat, want, *config)),
        decreases dotfiles.len() - n,
    {
        let keep = match name {
            None => true,
            Some(wanted) => matches_filter(&dotfiles[n].0, wanted, config),
        };
        proof {
            assert(paths[n as int] == dotfiles@[n as int].0@.abs_path);
        }
        let ghost before = matching(paths, n as nat, want, *config);
        if keep {
            r.push((&dotfiles[n].0, &dotfiles[n].1));
            proof {
                let after = before.push(n as int);
                assert forall|i: int| 0 <= i < r@.len() implies 0 <= (#[trigger] after[i])
                    < dotfiles@.len() && *r@[i].0 == dotfiles@[after[i]].0 && *r@[i].1
                    == dotfiles@[after[i]].1 by {
                    if i < before.len() {
                        assert(after[i] == before[i]);
                    }
                }
            }
        }
        n = n + 1;
    }
    r
}

/// The dotfiles whose path is `name`, whatever the case; without a name,
/// all of them.
pub fn filter_dotfiles_exact<'a>(
    dotfiles: &'a Vec<(DotPath, DotfileEntry)>,
    name: Option<&str>,
) -> (r: Vec<(&'a DotPath, &'a DotfileEntry)>)
    ensures
        picks(
            r@,
            dotfiles@,
            matching(live_paths(dotfiles@), dotfiles@.len(), opt_view(name), exact_filter()),
        ),
{    let config = FilterConfig::default();
    proof {
        assert(config == exact_filter());
    }
    filter_dotfiles(dotfiles, name, &config)
}

/// The dotfiles in whose path `name` occurs, whatever the case; without a
/// name, all of them.
pub fn filter_dotfiles_contains<'a>(
    dotfiles: &'a Vec<(DotPath, DotfileEntry)>,
    name: Option<&str>,
) -> (r: Vec<(&'a DotPath, &'a DotfileEntry)>)
    ensures
        picks(
            r@,
            dotfiles@,
            matching(live_paths(dotfiles@), dotfiles@.len(), opt_view(name), contains_filter()),
        ),
{    let config = FilterConfig { strategy: FilterStrategy::Contains, case_sensitive: false };
    filter_dotfiles(dotfiles, name, &config)
}

/// The filter that takes a path that is the name, whatever the case.
pub open spec fn exact_filter() -> FilterConfig {
    FilterConfig { strategy: FilterStrategy::Exact, case_sensitive: false }
}

/// The filter that takes a path in which the name occurs, whatever the
/// case.
pub open spec fn contains_filter() -> FilterConfig {
    FilterConfig { strategy: FilterStrategy::Contains, case_sensitive: false }
}

/// An optional name as a plain sequence.
pub open spec fn opt_view(name: Option<&str>) -> Option<Seq<char>> {
    match name {
        Some(s) => Some(s@),
        None => None,
    }
}

} // verus!
