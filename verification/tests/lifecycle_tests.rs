use std::collections::BTreeMap;

use dotzilla::commands::commit::backup_of;
use dotzilla::commands::init::InitStep;
use dotzilla::commands::link::{already_linked, LinkStep};
use dotzilla::commands::list::list_dotfiles;
use dotzilla::commands::plan::{
    action_failed, describe_action, manifest_to_keep, BatchReport, FsAction, Outcome, PathFacts,
};
use dotzilla::commands::remove::{needs_confirmation, RemoveStep};
use dotzilla::commands::status::{tracked_label, StatusLabel};
use dotzilla::commands::unlink::UnlinkStep;
use dotzilla::commands::{
    add_dotfile, commit_dotfiles, commit_entry, init_repo, link_dotfiles, link_entry,
    remove_dotfile, stage_dotfile, unlink_dotfiles, unlink_entry, unstage_dotfile,
};
use dotzilla::error::{DotError, ErrorKind};
use dotzilla::models::{Config, DotPath, DotfileStatus};
use dotzilla::utils::path::PathEnv;
use dotzilla::utils::path_compare::{compare_paths, CompareResult, Snapshot};
use dotzilla::utils::tree::FsNode;

/// What one path of the small filesystem holds.
#[derive(Debug, Clone, PartialEq)]
enum Node {
    File(Vec<u8>),
    Link(String),
}

/// A filesystem of files and links, kept in memory. Directories are not
/// kept: they are there as far as something stands below them.
#[derive(Debug, Clone, PartialEq)]
struct Disk {
    nodes: BTreeMap<String, Node>,
    removals: usize,
}

impl Disk {
    fn new() -> Disk {
        Disk { nodes: BTreeMap::new(), removals: 0 }
    }

    fn write(&mut self, path: &str, content: &str) {
        self.nodes.insert(String::from(path), Node::File(content.as_bytes().to_vec()));
    }

    fn content(&self, path: &str) -> Option<Vec<u8>> {
        match self.nodes.get(path) {
            Some(Node::File(c)) => Some(c.clone()),
            Some(Node::Link(t)) => self.content(t),
            None => None,
        }
    }

    fn facts(&self, path: &str) -> PathFacts {
        let is_symlink = matches!(self.nodes.get(path), Some(Node::Link(_)));
        let link_target = match self.nodes.get(path) {
            Some(Node::Link(t)) => Some(t.clone()),
            _ => None,
        };
        let present = self.content(path).is_some();
        PathFacts { present, is_dir: false, is_file: present, is_symlink, link_target }
    }

    fn snapshot(&self, path: &str) -> Snapshot {
        Snapshot {
            path: String::from(path),
            link: self.facts(path).link_target,
            node: self.content(path).map(FsNode::File),
        }
    }

    fn apply(&mut self, action: &FsAction) -> Result<(), String> {
        match action {
            FsAction::CreateDirAll(_) | FsAction::CreateParentDirs(_) => Ok(()),
            FsAction::CopyFile { from, to } => match self.content(from) {
                Some(c) => {
                    self.nodes.insert(to.clone(), Node::File(c));
                    Ok(())
                }
                None => Err(format!("nothing to copy at {}", from)),
            },
            FsAction::CopyDir { from, .. } => Err(format!("{} is no directory", from)),
            FsAction::Rename { from, to } => match self.nodes.remove(from) {
                Some(n) => {
                    self.nodes.insert(to.clone(), n);
                    Ok(())
                }
                None => Err(format!("nothing to move at {}", from)),
            },
            FsAction::RemoveFile(p) => match self.nodes.remove(p) {
                Some(_) => {
                    self.removals += 1;
                    Ok(())
                }
                None => Err(format!("nothing to delete at {}", p)),
            },
            FsAction::RemoveDirAll(p) => Err(format!("{} is no directory", p)),
            FsAction::Symlink { target, link } => {
                if self.nodes.contains_key(link) {
                    return Err(format!("{} is in the way", link));
                }
                self.nodes.insert(link.clone(), Node::Link(target.clone()));
                Ok(())
            }
        }
    }

    /// Carries out a plan in order and stops at the first action that
    /// fails; the action at `fail_at` fails whatever the disk holds.
    fn run(&mut self, plan: &[FsAction], fail_at: Option<usize>) -> Result<(), usize> {
        for (i, action) in plan.iter().enumerate() {
            if fail_at == Some(i) || self.apply(action).is_err() {
                return Err(i);
            }
        }
        Ok(())
    }
}

fn env() -> PathEnv {
    PathEnv::new(Some(String::from("/home/u")), String::from("/home/u"))
}

fn repo() -> Config {
    Config::new(String::from("/home/u/dotfiles"))
}

const LIVE: &str = "/home/u/.vimrc";
const REPO: &str = "/home/u/dotfiles/.vimrc";
const STAGED: &str = "/home/u/dotfiles/.staging/.vimrc";
const BACKUP: &str = "/home/u/.vimrc-dz-bpk";

fn rename(from: &str, to: &str) -> FsAction {
    FsAction::Rename { from: String::from(from), to: String::from(to) }
}

#[test]
fn add_copies_the_source_and_tracks_it() {
    let mut disk = Disk::new();
    disk.write(LIVE, "set nocompatible");
    let mut config = repo();
    let p = DotPath::new(&config, "~/.vimrc", &env());
    let plan = add_dotfile(&mut config, &p, &disk.facts(LIVE)).unwrap();
    assert_eq!(
        plan,
        vec![
            FsAction::CreateParentDirs(String::from(REPO)),
            FsAction::CopyFile { from: String::from(LIVE), to: String::from(REPO) },
        ]
    );
    assert_eq!(disk.run(&plan, None), Ok(()));
    assert_eq!(disk.content(REPO), Some(b"set nocompatible".to_vec()));
    let entry = config.get_dotfile(&p).unwrap();
    assert_eq!(entry.source, "~/.vimrc");
    assert_eq!(entry.target, REPO);
    assert_eq!(entry.status, DotfileStatus::Managed);
}

#[test]
fn add_of_a_directory_copies_the_tree() {
    let mut config = repo();
    let p = DotPath::new(&config, "~/.config/nvim", &env());
    let facts = PathFacts {
        present: true,
        is_dir: true,
        is_file: false,
        is_symlink: false,
        link_target: None,
    };
    let plan = add_dotfile(&mut config, &p, &facts).unwrap();
    assert_eq!(
        plan,
        vec![
            FsAction::CreateParentDirs(String::from("/home/u/dotfiles/.config/nvim")),
            FsAction::CopyDir {
                from: String::from("/home/u/.config/nvim"),
                to: String::from("/home/u/dotfiles/.config/nvim"),
            },
        ]
    );
}

#[test]
fn add_without_a_source_is_refused() {
    let disk = Disk::new();
    let mut config = repo();
    let p = DotPath::new(&config, "~/.vimrc", &env());
    let r = add_dotfile(&mut config, &p, &disk.facts(LIVE));
    assert_eq!(r, Err(DotError::SourceNotFound(String::from(LIVE))));
    assert_eq!(config.tracked_count(), 0);
}

#[test]
fn stage_needs_a_tracked_dotfile_and_a_source() {
    let mut disk = Disk::new();
    let mut config = repo();
    let p = DotPath::new(&config, "~/.vimrc", &env());
    assert_eq!(
        stage_dotfile(&mut config, &p, &disk.facts(LIVE)),
        Err(DotError::NoSuchDotfile(String::from("~/.vimrc")))
    );
    disk.write(LIVE, "a");
    add_dotfile(&mut config, &p, &disk.facts(LIVE)).unwrap();
    let gone = Disk::new();
    let r = stage_dotfile(&mut config, &p, &gone.facts(LIVE));
    assert_eq!(r.as_ref().map_err(|e| e.kind()), Err(ErrorKind::SourceNotFound));
    assert_eq!(config.staged_count(), 0);
    let plan = stage_dotfile(&mut config, &p, &disk.facts(LIVE)).unwrap();
    assert_eq!(
        plan,
        vec![
            FsAction::CreateParentDirs(String::from(STAGED)),
            FsAction::CopyFile { from: String::from(LIVE), to: String::from(STAGED) },
        ]
    );
    assert_eq!(config.get_staged_dotfile(p.clone()).unwrap().status, DotfileStatus::Staged);
    assert_eq!(config.get_dotfile(&p).unwrap().status, DotfileStatus::Managed);
}

#[test]
fn unstage_removes_the_staged_copy() {
    let mut disk = Disk::new();
    disk.write(LIVE, "a");
    let mut config = repo();
    let p = DotPath::new(&config, "~/.vimrc", &env());
    assert_eq!(
        unstage_dotfile(&mut config, &p, &disk.facts(STAGED)),
        Err(DotError::NoSuchDotfile(String::from("~/.vimrc")))
    );
    add_dotfile(&mut config, &p, &disk.facts(LIVE)).unwrap();
    let plan = stage_dotfile(&mut config, &p, &disk.facts(LIVE)).unwrap();
    disk.run(&plan, None).unwrap();
    let plan = unstage_dotfile(&mut config, &p, &disk.facts(STAGED)).unwrap();
    assert_eq!(plan, vec![FsAction::RemoveFile(String::from(STAGED))]);
    disk.run(&plan, None).unwrap();
    assert_eq!(disk.content(STAGED), None);
    assert_eq!(config.staged_count(), 0);
    assert!(config.is_tracked("~/.vimrc"));
    // staged in the manifest, but no copy on disk
    stage_dotfile(&mut config, &p, &disk.facts(LIVE)).unwrap();
    assert_eq!(unstage_dotfile(&mut config, &p, &disk.facts(STAGED)), Ok(Vec::new()));
}

#[test]
fn round_trip_add_stage_commit() {
    let mut disk = Disk::new();
    disk.write(LIVE, "what was there at first");
    let mut config = repo();
    let p = DotPath::new(&config, "~/.vimrc", &env());

    let plan = add_dotfile(&mut config, &p, &disk.facts(LIVE)).unwrap();
    disk.run(&plan, None).unwrap();
    let plan = stage_dotfile(&mut config, &p, &disk.facts(LIVE)).unwrap();
    disk.run(&plan, None).unwrap();

    let staged = commit_dotfiles(&config, &env()).unwrap();
    assert_eq!(staged.len(), 1);
    for (dotpath, _) in &staged {
        let plan = commit_entry(
            &mut config,
            dotpath,
            &disk.facts(&dotpath.abs_path),
            &disk.facts(&dotpath.abs_target_staged),
        )
        .unwrap();
        assert_eq!(
            plan,
            vec![
                FsAction::CreateParentDirs(String::from(LIVE)),
                rename(LIVE, BACKUP),
                rename(STAGED, LIVE),
                FsAction::RemoveFile(String::from(BACKUP)),
            ]
        );
        disk.run(&plan, None).unwrap();
    }

    assert_eq!(disk.content(LIVE), Some(b"what was there at first".to_vec()));
    assert_eq!(disk.content(BACKUP), None);
    assert_eq!(disk.content(STAGED), None);
    assert_eq!(
        compare_paths(&disk.snapshot(LIVE), &disk.snapshot(REPO)),
        Ok(CompareResult::Equal)
    );
    let entry = config.get_dotfile(&p).unwrap();
    assert_eq!(entry.status, DotfileStatus::Managed);
    assert_eq!(
        tracked_label(entry, &disk.snapshot(LIVE), &disk.snapshot(REPO)),
        Ok(StatusLabel::InSync)
    );
    assert_eq!(config.staged_count(), 0);
    assert_eq!(config.tracked_count(), 1);
}

#[test]
fn a_failed_commit_leaves_the_backup() {
    let mut disk = Disk::new();
    disk.write(LIVE, "first");
    let mut config = repo();
    let p = DotPath::new(&config, "~/.vimrc", &env());
    let plan = add_dotfile(&mut config, &p, &disk.facts(LIVE)).unwrap();
    disk.run(&plan, None).unwrap();
    let plan = stage_dotfile(&mut config, &p, &disk.facts(LIVE)).unwrap();
    disk.run(&plan, None).unwrap();
    disk.write(LIVE, "edited after staging");
    let on_disk = config.save();

    let plan =
        commit_entry(&mut config, &p, &disk.facts(LIVE), &disk.facts(STAGED)).unwrap();
    let failing = plan.iter().position(|a| *a == rename(STAGED, LIVE)).unwrap();
    assert_eq!(disk.run(&plan, Some(failing)), Err(failing));

    assert_eq!(disk.content(BACKUP), Some(b"edited after staging".to_vec()));
    assert_eq!(disk.content(LIVE), None);
    assert_eq!(disk.content(STAGED), Some(b"first".to_vec()));
    assert_eq!(disk.removals, 0);
    // the manifest on disk was not written: the entry is still staged there
    let kept = Config::load("/home/u/dotfiles", Some(on_disk)).unwrap();
    assert!(kept.is_staged("~/.vimrc"));
    // the live content comes back by moving the backup
    disk.run(&[rename(BACKUP, LIVE)], None).unwrap();
    assert_eq!(disk.content(LIVE), Some(b"edited after staging".to_vec()));
}

#[test]
fn a_commit_fails_before_anything_is_lost_when_the_backup_cannot_be_made() {
    let mut disk = Disk::new();
    disk.write(LIVE, "live");
    disk.write(STAGED, "staged");
    let mut config = repo();
    let p = DotPath::new(&config, "~/.vimrc", &env());
    add_dotfile(&mut config, &p, &disk.facts(LIVE)).unwrap();
    stage_dotfile(&mut config, &p, &disk.facts(LIVE)).unwrap();
    let plan =
        commit_entry(&mut config, &p, &disk.facts(LIVE), &disk.facts(STAGED)).unwrap();
    assert_eq!(disk.run(&plan, Some(1)), Err(1));
    assert_eq!(disk.content(LIVE), Some(b"live".to_vec()));
    assert_eq!(disk.content(STAGED), Some(b"staged".to_vec()));
    assert_eq!(disk.content(BACKUP), None);
}

#[test]
fn commit_to_an_empty_live_path_makes_no_backup() {
    let mut disk = Disk::new();
    disk.write(LIVE, "x");
    let mut config = repo();
    let p = DotPath::new(&config, "~/.vimrc", &env());
    add_dotfile(&mut config, &p, &disk.facts(LIVE)).unwrap();
    let plan = stage_dotfile(&mut config, &p, &disk.facts(LIVE)).unwrap();
    disk.run(&plan, None).unwrap();
    disk.run(&[FsAction::RemoveFile(String::from(LIVE))], None).unwrap();
    let plan =
        commit_entry(&mut config, &p, &disk.facts(LIVE), &disk.facts(STAGED)).unwrap();
    assert_eq!(
        plan,
        vec![FsAction::CreateParentDirs(String::from(LIVE)), rename(STAGED, LIVE)]
    );
    disk.run(&plan, None).unwrap();
    assert_eq!(disk.content(LIVE), Some(b"x".to_vec()));
}

#[test]
fn commit_passes_over_an_entry_without_a_staged_copy() {
    let mut disk = Disk::new();
    disk.write(LIVE, "x");
    let mut config = repo();
    let p = DotPath::new(&config, "~/.vimrc", &env());
    add_dotfile(&mut config, &p, &disk.facts(LIVE)).unwrap();
    stage_dotfile(&mut config, &p, &disk.facts(LIVE)).unwrap();
    let plan =
        commit_entry(&mut config, &p, &disk.facts(LIVE), &disk.facts(STAGED)).unwrap();
    assert_eq!(plan, Vec::new());
    assert!(config.is_staged("~/.vimrc"));
    // what is not staged cannot be committed
    let other = DotPath::new(&config, "~/.bashrc", &env());
    assert_eq!(
        commit_entry(&mut config, &other, &disk.facts(LIVE), &disk.facts(STAGED)),
        Err(DotError::NoSuchDotfile(String::from("~/.bashrc")))
    );
}

#[test]
fn commit_with_nothing_tracked_is_refused() {
    let config = repo();
    assert_eq!(commit_dotfiles(&config, &env()), Err(DotError::NothingToCommit));
}

#[test]
fn commit_with_nothing_staged_is_refused_whatever_is_tracked() {
    let mut disk = Disk::new();
    disk.write(LIVE, "x");
    let mut config = repo();
    let p = DotPath::new(&config, "~/.vimrc", &env());
    add_dotfile(&mut config, &p, &disk.facts(LIVE)).unwrap();
    assert_eq!(commit_dotfiles(&config, &env()), Err(DotError::NothingToCommit));
}

#[test]
fn a_dotfile_that_is_staged_and_no_longer_tracked_is_committed() {
    let mut disk = Disk::new();
    disk.write(LIVE, "first");
    let mut config = repo();
    let p = DotPath::new(&config, "~/.vimrc", &env());
    let plan = add_dotfile(&mut config, &p, &disk.facts(LIVE)).unwrap();
    disk.run(&plan, None).unwrap();
    let plan = stage_dotfile(&mut config, &p, &disk.facts(LIVE)).unwrap();
    disk.run(&plan, None).unwrap();
    // the tracking ends, the copy in the repository is kept
    assert_eq!(
        remove_dotfile(&mut config, p.clone(), true, false, &disk.facts(REPO)),
        Ok(RemoveStep::Removed(Vec::new()))
    );
    assert_eq!(config.tracked_count(), 0);
    assert!(config.is_staged("~/.vimrc"));
    disk.write(LIVE, "edited");

    let staged = commit_dotfiles(&config, &env()).unwrap();
    assert_eq!(staged.len(), 1);
    assert_eq!(staged[0].0, p);
    assert_eq!(staged[0].1.status, DotfileStatus::Staged);
    let plan =
        commit_entry(&mut config, &staged[0].0, &disk.facts(LIVE), &disk.facts(STAGED)).unwrap();
    disk.run(&plan, None).unwrap();
    assert_eq!(disk.content(LIVE), Some(b"first".to_vec()));
    assert_eq!(disk.content(STAGED), None);
    assert_eq!(disk.content(BACKUP), None);
    assert_eq!(config.staged_count(), 0);
    assert_eq!(config.get_dotfile(&p).unwrap().status, DotfileStatus::Managed);
    assert_eq!(config.get_dotfile(&p).unwrap().source, "~/.vimrc");
}

#[test]
fn backup_name_stands_beside_the_path() {
    assert_eq!(backup_of("/home/u/.vimrc"), "/home/u/.vimrc-dz-bpk");
    assert_eq!(backup_of("/home/u/.config/"), "/home/u/.config-dz-bpk");
}

#[test]
fn link_twice_changes_nothing_the_second_time() {
    let mut disk = Disk::new();
    disk.write(LIVE, "x");
    let mut config = repo();
    let p = DotPath::new(&config, "~/.vimrc", &env());
    let plan = add_dotfile(&mut config, &p, &disk.facts(LIVE)).unwrap();
    disk.run(&plan, None).unwrap();

    let first = link_entry(&p, &disk.facts(LIVE));
    let plan = match first {
        LinkStep::Link(plan) => plan,
        other => panic!("a plain file counted as {:?}", other),
    };
    assert_eq!(
        plan,
        vec![
            FsAction::RemoveFile(String::from(LIVE)),
            FsAction::CreateParentDirs(String::from(LIVE)),
            FsAction::Symlink { target: String::from(REPO), link: String::from(LIVE) },
        ]
    );
    disk.run(&plan, None).unwrap();
    assert_eq!(disk.nodes.get(LIVE), Some(&Node::Link(String::from(REPO))));
    assert_eq!(disk.removals, 1);

    let after_first = disk.clone();
    assert!(already_linked(&p, &disk.facts(LIVE)));
    assert_eq!(link_entry(&p, &disk.facts(LIVE)), LinkStep::AlreadyLinked);
    assert_eq!(link_entry(&p, &disk.facts(LIVE)), LinkStep::AlreadyLinked);
    assert_eq!(disk, after_first);
    assert_eq!(disk.removals, 1);
    assert_eq!(
        compare_paths(&disk.snapshot(LIVE), &disk.snapshot(REPO)),
        Ok(CompareResult::Linked)
    );
}

#[test]
fn link_clears_what_is_in_the_way() {
    let config = repo();
    let p = DotPath::new(&config, "~/.vimrc", &env());
    let facts = |present, is_dir, is_symlink, target: Option<&str>| PathFacts {
        present,
        is_dir,
        is_file: present && !is_dir,
        is_symlink,
        link_target: target.map(String::from),
    };
    let tail = vec![
        FsAction::CreateParentDirs(String::from(LIVE)),
        FsAction::Symlink { target: String::from(REPO), link: String::from(LIVE) },
    ];
    let with = |first: FsAction| {
        let mut v = vec![first];
        v.extend(tail.clone());
        LinkStep::Link(v)
    };
    // nothing there
    assert_eq!(link_entry(&p, &facts(false, false, false, None)), LinkStep::Link(tail.clone()));
    // a directory
    assert_eq!(
        link_entry(&p, &facts(true, true, false, None)),
        with(FsAction::RemoveDirAll(String::from(LIVE)))
    );
    // a link that leads elsewhere, to a directory
    assert_eq!(
        link_entry(&p, &facts(true, true, true, Some("/other"))),
        with(FsAction::RemoveFile(String::from(LIVE)))
    );
    // a link that leads nowhere
    assert_eq!(
        link_entry(&p, &facts(false, false, true, Some("/gone"))),
        with(FsAction::RemoveFile(String::from(LIVE)))
    );
    // a link to the repository copy that is missing is made anew
    assert_eq!(
        link_entry(&p, &facts(false, false, true, Some(REPO))),
        with(FsAction::RemoveFile(String::from(LIVE)))
    );
    // a link to the repository copy that is there
    assert_eq!(link_entry(&p, &facts(true, false, true, Some(REPO))), LinkStep::AlreadyLinked);
}

#[test]
fn unlink_puts_a_copy_in_place_of_the_link() {
    let mut disk = Disk::new();
    disk.write(REPO, "kept in the repository");
    disk.nodes.insert(String::from(LIVE), Node::Link(String::from(REPO)));
    let config = repo();
    let p = DotPath::new(&config, "~/.vimrc", &env());
    let step = unlink_entry(&p, &disk.facts(LIVE), &disk.facts(REPO));
    let plan = match step {
        UnlinkStep::Unlink(plan) => plan,
        other => panic!("unexpected {:?}", other),
    };
    assert_eq!(
        plan,
        vec![
            FsAction::RemoveFile(String::from(LIVE)),
            FsAction::CopyFile { from: String::from(REPO), to: String::from(LIVE) },
        ]
    );
    disk.run(&plan, None).unwrap();
    assert_eq!(disk.nodes.get(LIVE), Some(&Node::File(b"kept in the repository".to_vec())));
    // now a plain file is there: an error for this entry
    assert_eq!(unlink_entry(&p, &disk.facts(LIVE), &disk.facts(REPO)), UnlinkStep::NotALink);
}

#[test]
fn unlink_of_other_links_and_of_nothing() {
    let config = repo();
    let p = DotPath::new(&config, "~/.vimrc", &env());
    let facts = |present, is_dir, is_symlink, target: Option<&str>| PathFacts {
        present,
        is_dir,
        is_file: present && !is_dir,
        is_symlink,
        link_target: target.map(String::from),
    };
    let repo_file = facts(true, false, false, None);
    let repo_dir = facts(true, true, false, None);
    let remove = FsAction::RemoveFile(String::from(LIVE));
    assert_eq!(
        unlink_entry(&p, &facts(false, false, false, None), &repo_file),
        UnlinkStep::NothingThere
    );
    assert_eq!(
        unlink_entry(&p, &facts(true, false, true, Some("/other")), &repo_file),
        UnlinkStep::Unlink(vec![remove.clone()])
    );
    assert_eq!(
        unlink_entry(&p, &facts(false, false, true, Some("/gone")), &repo_file),
        UnlinkStep::Unlink(vec![remove.clone()])
    );
    assert_eq!(
        unlink_entry(&p, &facts(true, true, true, Some(REPO)), &repo_dir),
        UnlinkStep::Unlink(vec![
            remove.clone(),
            FsAction::CopyDir { from: String::from(REPO), to: String::from(LIVE) },
        ])
    );
}

#[test]
fn link_and_unlink_choose_their_dotfiles() {
    let mut config = repo();
    for name in ["~/.vimrc", "~/.bashrc", "~/.config/nvim"] {
        let p = DotPath::new(&config, name, &env());
        let there =
            PathFacts { present: true, is_dir: false, is_file: true, is_symlink: false, link_target: None };
        add_dotfile(&mut config, &p, &there).unwrap();
        if name != "~/.bashrc" {
            stage_dotfile(&mut config, &p, &there).unwrap();
        }
    }
    let managed = config.get(&env());
    let staged = config.get_staged(&env());
    let names = |v: Vec<(&DotPath, &dotzilla::models::DotfileEntry)>| -> Vec<String> {
        v.iter().map(|(p, _)| p.display()).collect()
    };
    assert_eq!(names(link_dotfiles(&managed, &staged, None)), vec!["~/.vimrc", "~/.config/nvim"]);
    assert_eq!(names(link_dotfiles(&managed, &staged, Some("BASH"))), vec!["~/.bashrc"]);
    assert_eq!(names(unlink_dotfiles(&managed, None)).len(), 3);
    assert_eq!(names(unlink_dotfiles(&managed, Some("vim"))), vec!["~/.vimrc", "~/.config/nvim"]);
    assert_eq!(names(unlink_dotfiles(&managed, Some("emacs"))).len(), 0);
}

#[test]
fn batch_failures_are_counted() {
    let outcomes = vec![
        Outcome::Succeeded,
        Outcome::Failed,
        Outcome::Untouched,
        Outcome::Succeeded,
        Outcome::Failed,
        Outcome::Succeeded,
    ];
    assert_eq!(
        BatchReport::tally(&outcomes),
        BatchReport { succeeded: 3, failed: 2, untouched: 1 }
    );
    assert_eq!(
        BatchReport::tally(&Vec::new()),
        BatchReport { succeeded: 0, failed: 0, untouched: 0 }
    );
}

#[test]
fn remove_asks_first_unless_the_copy_is_kept() {
    let mut disk = Disk::new();
    disk.write(LIVE, "x");
    let mut config = repo();
    let p = DotPath::new(&config, "~/.vimrc", &env());
    assert_eq!(
        needs_confirmation(&config, &p, false),
        Err(DotError::NoSuchDotfile(String::from("~/.vimrc")))
    );
    assert_eq!(
        remove_dotfile(&mut config, p.clone(), true, false, &disk.facts(REPO)),
        Err(DotError::NoSuchDotfile(String::from("~/.vimrc")))
    );
    let plan = add_dotfile(&mut config, &p, &disk.facts(LIVE)).unwrap();
    disk.run(&plan, None).unwrap();
    assert_eq!(needs_confirmation(&config, &p, false), Ok(true));
    assert_eq!(needs_confirmation(&config, &p, true), Ok(false));

    assert_eq!(
        remove_dotfile(&mut config, p.clone(), false, false, &disk.facts(REPO)),
        Ok(RemoveStep::Cancelled)
    );
    assert!(config.is_tracked("~/.vimrc"));

    assert_eq!(
        remove_dotfile(&mut config, p.clone(), false, true, &disk.facts(REPO)),
        Ok(RemoveStep::Removed(vec![FsAction::RemoveFile(String::from(REPO))]))
    );
    assert!(!config.is_tracked("~/.vimrc"));

    add_dotfile(&mut config, &p, &disk.facts(LIVE)).unwrap();
    assert_eq!(
        remove_dotfile(&mut config, p.clone(), true, false, &disk.facts(REPO)),
        Ok(RemoveStep::Removed(Vec::new()))
    );
    assert!(!config.is_tracked("~/.vimrc"));

    add_dotfile(&mut config, &p, &disk.facts(LIVE)).unwrap();
    let dir_copy =
        PathFacts { present: true, is_dir: true, is_file: false, is_symlink: false, link_target: None };
    assert_eq!(
        remove_dotfile(&mut config, p.clone(), false, true, &dir_copy),
        Ok(RemoveStep::Removed(vec![FsAction::RemoveDirAll(String::from(REPO))]))
    );
    add_dotfile(&mut config, &p, &disk.facts(LIVE)).unwrap();
    let no_copy = Disk::new();
    assert_eq!(
        remove_dotfile(&mut config, p, false, true, &no_copy.facts(REPO)),
        Ok(RemoveStep::Removed(Vec::new()))
    );
}

#[test]
fn init_makes_what_is_missing() {
    match init_repo(String::from("/r"), false, false, false) {
        InitStep::Created(plan, config) => {
            assert_eq!(
                plan,
                vec![
                    FsAction::CreateDirAll(String::from("/r")),
                    FsAction::CreateDirAll(String::from("/r/.staging")),
                ]
            );
            assert_eq!(config.repo_path(), "/r");
            assert_eq!(config.tracked_count(), 0);
            assert_eq!(config.staged_count(), 0);
        }
        InitStep::AlreadyInitialized(_) => panic!("a new repository counted as set up"),
    }
    match init_repo(String::from("/r"), true, false, true) {
        InitStep::Created(plan, _) => assert_eq!(plan, Vec::new()),
        InitStep::AlreadyInitialized(_) => panic!("a new repository counted as set up"),
    }
    match init_repo(String::from("/r"), true, true, false) {
        InitStep::AlreadyInitialized(plan) => assert_eq!(plan, Vec::new()),
        InitStep::Created(_, _) => panic!("a repository was set up twice"),
    }
}

#[test]
fn list_tells_what_is_staged() {
    let mut config = repo();
    let there =
        PathFacts { present: true, is_dir: false, is_file: true, is_symlink: false, link_target: None };
    for name in ["~/.vimrc", "~/.bashrc"] {
        let p = DotPath::new(&config, name, &env());
        add_dotfile(&mut config, &p, &there).unwrap();
    }
    let p = DotPath::new(&config, "~/.bashrc", &env());
    stage_dotfile(&mut config, &p, &there).unwrap();
    let list = list_dotfiles(&config, &env());
    assert_eq!(list.len(), 2);
    assert_eq!(list[0].name, "~/.vimrc");
    assert_eq!(list[0].target, "/home/u/dotfiles/.vimrc");
    assert!(!list[0].staged);
    assert_eq!(list[1].name, "~/.bashrc");
    assert!(list[1].staged);
    assert_eq!(list_dotfiles(&repo(), &env()), Vec::new());
}

#[test]
fn a_failed_action_names_its_paths() {
    let e = action_failed(&rename(STAGED, LIVE), "permission denied");
    assert_eq!(e.kind(), ErrorKind::Io);
    assert_eq!(
        e,
        DotError::Io(String::from(
            "move /home/u/dotfiles/.staging/.vimrc to /home/u/.vimrc: permission denied"
        ))
    );
    assert_eq!(
        e.describe(),
        "Failed to move /home/u/dotfiles/.staging/.vimrc to /home/u/.vimrc: permission denied"
    );
    let text = |a: FsAction| describe_action(&a);
    assert_eq!(text(FsAction::CreateDirAll(String::from("/r"))), "create directory /r");
    assert_eq!(
        text(FsAction::CreateParentDirs(String::from("/r/x"))),
        "create parent directory of /r/x"
    );
    assert_eq!(
        text(FsAction::CopyFile { from: String::from("/a"), to: String::from("/b") }),
        "copy file /a to /b"
    );
    assert_eq!(
        text(FsAction::CopyDir { from: String::from("/a"), to: String::from("/b") }),
        "copy directory /a to /b"
    );
    assert_eq!(text(FsAction::RemoveFile(String::from("/a"))), "remove file /a");
    assert_eq!(text(FsAction::RemoveDirAll(String::from("/a"))), "remove directory /a");
    assert_eq!(
        text(FsAction::Symlink { target: String::from("/r/x"), link: String::from("/l/x") }),
        "link /l/x to /r/x"
    );
}

/// What the path rules are told of the small filesystem, for the paths
/// given.
fn env_seen(disk: &Disk, paths: &[&str]) -> PathEnv {
    let mut seen = env();
    for path in paths {
        let facts = disk.facts(path);
        let dir = path.rsplit_once('/').map(|(d, _)| d).unwrap_or("");
        let target = if facts.present { facts.link_target.clone().or(Some(String::from(*path))) } else { None };
        if facts.present || facts.is_symlink {
            seen.observe(String::from(*path), facts.is_symlink, Some(dir), target.as_deref());
        }
    }
    seen
}

#[test]
fn a_linked_dotfile_is_linked_when_looked_at_again_and_can_be_unlinked() {
    let mut disk = Disk::new();
    disk.write(LIVE, "x");
    let mut config = repo();
    let first = DotPath::new(&config, "~/.vimrc", &env_seen(&disk, &[LIVE, REPO, STAGED]));
    let plan = add_dotfile(&mut config, &first, &disk.facts(LIVE)).unwrap();
    disk.run(&plan, None).unwrap();
    let plan = match link_entry(&first, &disk.facts(&first.abs_path)) {
        LinkStep::Link(plan) => plan,
        other => panic!("unexpected {:?}", other),
    };
    disk.run(&plan, None).unwrap();
    let linked = disk.clone();

    // a new look at the disk, on which the live path is now a link
    let again = DotPath::new(&config, "~/.vimrc", &env_seen(&disk, &[LIVE, REPO, STAGED]));
    assert_eq!(again, first);
    assert_eq!(again.abs_path, LIVE);
    assert!(config.get_dotfile(&again).is_ok());
    assert_eq!(link_entry(&again, &disk.facts(&again.abs_path)), LinkStep::AlreadyLinked);
    assert_eq!(disk, linked);
    assert_eq!(disk.content(REPO), Some(b"x".to_vec()));

    let plan = match unlink_entry(&again, &disk.facts(&again.abs_path), &disk.facts(&again.abs_target)) {
        UnlinkStep::Unlink(plan) => plan,
        other => panic!("unexpected {:?}", other),
    };
    disk.run(&plan, None).unwrap();
    assert_eq!(disk.nodes.get(LIVE), Some(&Node::File(b"x".to_vec())));
    assert_eq!(disk.content(REPO), Some(b"x".to_vec()));
}

#[test]
fn a_dotfile_outside_home_is_never_linked_to_itself() {
    let mut disk = Disk::new();
    disk.write("/etc/hosts", "127.0.0.1 localhost");
    let config = repo();
    let p = DotPath::new(&config, "/etc/hosts", &env());
    assert_eq!(p.abs_path, p.abs_target);
    assert_eq!(link_entry(&p, &disk.facts("/etc/hosts")), LinkStep::SamePlace);
    let gone = Disk::new();
    assert_eq!(link_entry(&p, &gone.facts("/etc/hosts")), LinkStep::SamePlace);
    let as_link = PathFacts {
        present: true,
        is_dir: false,
        is_file: true,
        is_symlink: true,
        link_target: Some(String::from("/etc/hosts")),
    };
    assert_eq!(link_entry(&p, &as_link), LinkStep::SamePlace);
    assert_eq!(disk.content("/etc/hosts"), Some(b"127.0.0.1 localhost".to_vec()));
}

#[test]
fn no_link_plan_touches_the_repository_copy() {
    let config = repo();
    let p = DotPath::new(&config, "~/.vimrc", &env());
    for present in [true, false] {
        for is_dir in [true, false] {
            for is_symlink in [true, false] {
                for target in [None, Some(REPO), Some("/other")] {
                    let facts = PathFacts {
                        present,
                        is_dir,
                        is_file: present && !is_dir,
                        is_symlink,
                        link_target: target.map(String::from),
                    };
                    if let LinkStep::Link(plan) = link_entry(&p, &facts) {
                        for action in plan {
                            assert_ne!(action, FsAction::RemoveFile(String::from(REPO)));
                            assert_ne!(action, FsAction::RemoveDirAll(String::from(REPO)));
                        }
                    }
                }
            }
        }
    }
}

#[test]
fn a_failed_plan_leaves_the_manifest_untouched() {
    let mut disk = Disk::new();
    disk.write(LIVE, "live");
    let mut config = repo();
    let p = DotPath::new(&config, "~/.vimrc", &env());
    let plan = add_dotfile(&mut config, &p, &disk.facts(LIVE)).unwrap();
    disk.run(&plan, None).unwrap();
    let plan = stage_dotfile(&mut config, &p, &disk.facts(LIVE)).unwrap();
    disk.run(&plan, None).unwrap();

    // the move of the staged copy into place fails
    let before = config.duplicate();
    assert_eq!(before.tracked_count(), 1);
    assert_eq!(before.staged_count(), 1);
    let plan = commit_entry(&mut config, &p, &disk.facts(LIVE), &disk.facts(STAGED)).unwrap();
    assert!(!config.is_staged("~/.vimrc"));
    let outcome = disk
        .run(&plan, Some(2))
        .map_err(|i| action_failed(&plan[i], "no space left on device"));
    assert_eq!(outcome.as_ref().map_err(|e| e.kind()), Err(ErrorKind::Io));
    let kept = manifest_to_keep(before, config, &outcome);
    assert!(kept.is_staged("~/.vimrc"));
    assert_eq!(kept.get_staged_dotfile(p.clone()).unwrap().status, DotfileStatus::Staged);
    assert_eq!(kept.get_dotfile(&p).unwrap().status, DotfileStatus::Managed);
    assert_eq!(kept.repo_path(), "/home/u/dotfiles");

    // the backup is put back, and the commit succeeds at the next try
    disk.run(&[rename(BACKUP, LIVE)], None).unwrap();
    let mut config = kept;
    let before = config.duplicate();
    let plan = commit_entry(&mut config, &p, &disk.facts(LIVE), &disk.facts(STAGED)).unwrap();
    let outcome = disk.run(&plan, None).map_err(|i| action_failed(&plan[i], "failed"));
    let kept = manifest_to_keep(before, config, &outcome);
    assert!(!kept.is_staged("~/.vimrc"));
    assert_eq!(kept.get_dotfile(&p).unwrap().status, DotfileStatus::Managed);
    assert_eq!(disk.content(LIVE), Some(b"live".to_vec()));
}

#[test]
fn a_copy_of_the_manifest_holds_the_same_entries_in_the_same_order() {
    let mut config = repo();
    let there =
        PathFacts { present: true, is_dir: false, is_file: true, is_symlink: false, link_target: None };
    for name in ["~/.zshrc", "~/.bashrc", "~/.vimrc"] {
        let p = DotPath::new(&config, name, &env());
        add_dotfile(&mut config, &p, &there).unwrap();
    }
    let p = DotPath::new(&config, "~/.bashrc", &env());
    stage_dotfile(&mut config, &p, &there).unwrap();
    let copy = config.duplicate();
    assert_eq!(copy.repo_path(), config.repo_path());
    assert_eq!(copy.staging_path(), config.staging_path());
    assert_eq!(copy.get(&env()), config.get(&env()));
    assert_eq!(copy.get_staged(&env()), config.get_staged(&env()));
    assert_eq!(copy.tracked_count(), 3);
    assert_eq!(copy.staged_count(), 1);
}

#[test]
fn a_dotfile_outside_home_is_not_copied_onto_itself() {
    let mut disk = Disk::new();
    disk.write("/etc/hosts", "127.0.0.1 localhost");
    let mut config = repo();
    let p = DotPath::new(&config, "/etc/hosts", &env());
    let plan = add_dotfile(&mut config, &p, &disk.facts("/etc/hosts")).unwrap();
    assert_eq!(plan, vec![FsAction::CreateParentDirs(String::from("/etc/hosts"))]);
    disk.run(&plan, None).unwrap();
    let plan = stage_dotfile(&mut config, &p, &disk.facts("/etc/hosts")).unwrap();
    assert_eq!(plan, vec![FsAction::CreateParentDirs(String::from("/etc/hosts"))]);
    assert_eq!(disk.content("/etc/hosts"), Some(b"127.0.0.1 localhost".to_vec()));
    assert!(config.is_tracked("/etc/hosts"));
}
