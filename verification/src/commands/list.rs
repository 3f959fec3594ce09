//! The list of the tracked dotfiles.

use crate::models::path_name::resolve;
use crate::models::Config;
use crate::utils::path::PathEnv;
use vstd::prelude::*;

verus! {

/// One tracked dotfile as the list shows it.
#[derive(Debug, PartialEq, Eq)]
pub struct ListItem {
    /// The name of the dotfile: its home-relative live path.
    pub name: String,
    /// Its place in the repository, as the entry records it.
    pub target: String,
    /// Whether it is staged too.
    pub staged: bool,
}

/// The tracked dotfiles in the order of their names, each with the place
/// that its entry records and with whether a dotfile of the same name is
/// staged.
pub fn list_dotfiles(config: &Config, env: &PathEnv) -> (r: Vec<ListItem>)
    requires
        config.wf(),
        env.wf(),
    ensures
        r@.len() == config.tracked_names().len(),
        forall|i: int|
            0 <= i < r@.len() ==> {
                let name = config.tracked_names()[i];
                let shown = resolve(name, config@.repo_path, config@.staging_path, env@).rel_path;
                &&& (#[trigger] r@[i]).name@ == shown
                &&& r@[i].target@ == config@.dotfiles[name].target
                &&& r@[i].staged == config@.staged.contains_key(shown)
            },
{
    let entries = config.get(env);
    let mut r: Vec<ListItem> = Vec::new();
    let mut i: usize = 0;
    while i < entries.len()
        invariant
            i <= entries.len(),
            entries@.len() == config.tracked_names().len(),
            forall|k: int|
                0 <= k < entries@.len() ==> (#[trigger] entries@[k]).0@ == resolve(
                    config.tracked_names()[k],
                    config@.repo_path,
                    config@.staging_path,
                    env@,
                ) && entries@[k].1@ == config@.dotfiles[config.tracked_names()[k]],
            r@.len() == i,
            forall|k: int|
                0 <= k < i ==> {
                    let name = config.tracked_names()[k];
                    let shown = resolve(
                        name,
                        config@.repo_path,
                        config@.staging_path,
                        env@,
                    ).rel_path;
                    &&& (#[trigger] r@[k]).name@ == shown
                    &&& r@[k].target@ == config@.dotfiles[name].target
                    &&& r@[k].staged == config@.staged.contains_key(shown)
                },
        decreases entries.len() - i,
    {
        let name = entries[i].0.display();
        let staged = config.is_staged(name.as_str());
        r.push(ListItem { name, target: entries[i].1.target.clone(), staged });
        i = i + 1;
    }
    r
}

} // verus!
