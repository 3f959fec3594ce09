use dotzilla::error::{DotError, ErrorKind};
use dotzilla::models::{
    manifest_path, manifest_temp_path, Config, DotPath, DotfileEntry, DotfileStatus, Manifest,
};
use dotzilla::table::Table;
use dotzilla::utils::path::PathEnv;

fn env() -> PathEnv {
    PathEnv::new(Some(String::from("/home/u")), String::from("/home/u"))
}

fn config() -> Config {
    Config::new(String::from("/home/u/dotfiles"))
}

#[test]
fn new_manifest_is_empty() {
    let c = config();
    assert_eq!(c.repo_path(), "/home/u/dotfiles");
    assert_eq!(c.staging_path(), "/home/u/dotfiles/.staging");
    assert_eq!(c.tracked_count(), 0);
    assert_eq!(c.staged_count(), 0);
    assert!(c.get(&env()).is_empty());
    assert!(c.get_staged(&env()).is_empty());
    assert_eq!(manifest_path("/home/u/dotfiles"), "/home/u/dotfiles/.dotzilla.json");
    assert_eq!(manifest_temp_path("/home/u/dotfiles/"), "/home/u/dotfiles/.dotzilla.json.tmp");
}

#[test]
fn entry_from_dotpath_is_untracked() {
    let c = config();
    let p = DotPath::new(&c, "~/.vimrc", &env());
    let e = DotfileEntry::from_dotpath(&p);
    assert_eq!(e.source, "~/.vimrc");
    assert_eq!(e.target, "/home/u/dotfiles/.vimrc");
    assert_eq!(e.status, DotfileStatus::Untracked);
    let s = e.with_status(DotfileStatus::Staged);
    assert_eq!(s.status, DotfileStatus::Staged);
    assert_eq!(s.source, e.source);
    assert_eq!(e.clone(), e);
}

#[test]
fn add_get_remove() {
    let mut c = config();
    let p = DotPath::new(&c, "~/.vimrc", &env());
    match c.get_dotfile(&p) {
        Err(e) => {
            assert_eq!(e.kind(), ErrorKind::NoSuchDotfile);
            assert_eq!(e, DotError::NoSuchDotfile(String::from("~/.vimrc")));
        }
        Ok(_) => panic!("nothing is tracked yet"),
    }
    c.add(&p, DotfileEntry::from_dotpath(&p).with_status(DotfileStatus::Managed));
    assert!(c.is_tracked("~/.vimrc"));
    assert!(!c.is_staged("~/.vimrc"));
    assert_eq!(c.get_dotfile(&p).unwrap().status, DotfileStatus::Managed);
    // another spelling of the same file finds the same entry
    let q = DotPath::new(&c, "/home/u/.vimrc", &env());
    assert_eq!(c.get_dotfile(&q).unwrap().source, "~/.vimrc");
    // adding again replaces
    c.add(&q, DotfileEntry::from_dotpath(&q).with_status(DotfileStatus::Modified));
    assert_eq!(c.tracked_count(), 1);
    assert_eq!(c.get_dotfile(&p).unwrap().status, DotfileStatus::Modified);
    assert_eq!(c.remove(p.clone()), Ok(()));
    assert_eq!(c.tracked_count(), 0);
    assert_eq!(c.remove(p), Err(DotError::NoSuchDotfile(String::from("~/.vimrc"))));
}

#[test]
fn staged_and_tracked_are_kept_apart() {
    let mut c = config();
    let p = DotPath::new(&c, "~/.vimrc", &env());
    c.stage(&p, DotfileEntry::from_dotpath(&p).with_status(DotfileStatus::Staged));
    assert!(c.is_staged("~/.vimrc"));
    assert!(!c.is_tracked("~/.vimrc"));
    assert!(c.get_dotfile(&p).is_err());
    assert_eq!(c.get_staged_dotfile(p.clone()).unwrap().status, DotfileStatus::Staged);
    c.add(&p, DotfileEntry::from_dotpath(&p).with_status(DotfileStatus::Managed));
    assert_eq!(c.unstage(&p), Ok(()));
    assert!(c.is_tracked("~/.vimrc"));
    assert_eq!(c.unstage(&p), Err(DotError::NoSuchDotfile(String::from("~/.vimrc"))));
    assert!(c.get_staged_dotfile(p).is_err());
}

#[test]
fn get_lists_in_order_of_insertion() {
    let mut c = config();
    for name in ["~/.zshrc", "~/.bashrc", "~/.vimrc"] {
        let p = DotPath::new(&c, name, &env());
        c.add(&p, DotfileEntry::from_dotpath(&p));
    }
    let listed = c.get(&env());
    let names: Vec<String> = listed.iter().map(|(p, _)| p.display()).collect();
    assert_eq!(names, vec!["~/.zshrc", "~/.bashrc", "~/.vimrc"]);
    assert_eq!(listed[1].0.abs_path, "/home/u/.bashrc");
    assert_eq!(listed[1].1.target, "/home/u/dotfiles/.bashrc");
}

#[test]
fn load_without_a_manifest_is_refused() {
    match Config::load("/home/u/dotfiles", None) {
        Err(e) => {
            assert_eq!(e.kind(), ErrorKind::RepositoryNotFound);
            assert_eq!(e, DotError::RepositoryNotFound(String::from("/home/u/dotfiles")));
        }
        Ok(_) => panic!("a repository without a manifest was opened"),
    }
}

#[test]
fn save_then_load_gives_the_same_manifest() {
    let mut c = config();
    let a = DotPath::new(&c, "~/.vimrc", &env());
    let b = DotPath::new(&c, "~/.bashrc", &env());
    c.add(&a, DotfileEntry::from_dotpath(&a).with_status(DotfileStatus::Managed));
    c.add(&b, DotfileEntry::from_dotpath(&b).with_status(DotfileStatus::Managed));
    c.stage(&b, DotfileEntry::from_dotpath(&b).with_status(DotfileStatus::Staged));
    let stored = c.save();
    assert_eq!(stored.dotfiles.len(), 2);
    assert_eq!(stored.dotfiles[0].0, "~/.vimrc");
    assert_eq!(stored.staged.len(), 1);
    let again = Config::load("/elsewhere", Some(stored)).unwrap();
    assert_eq!(again.repo_path(), "/elsewhere");
    assert_eq!(again.staging_path(), "/elsewhere/.staging");
    assert_eq!(again.tracked_count(), 2);
    assert_eq!(again.staged_count(), 1);
    assert_eq!(again.get_dotfile(&a).unwrap().target, "/home/u/dotfiles/.vimrc");
    assert_eq!(again.get_staged_dotfile(b).unwrap().status, DotfileStatus::Staged);
}

#[test]
fn load_takes_the_later_of_two_entries_with_one_name() {
    let first = DotfileEntry::new(String::from("~/.x"), String::from("/r/one"), DotfileStatus::Managed);
    let second = DotfileEntry::new(String::from("~/.x"), String::from("/r/two"), DotfileStatus::Modified);
    let stored = Manifest {
        dotfiles: vec![(String::from("~/.x"), first), (String::from("~/.x"), second)],
        staged: Vec::new(),
    };
    let c = Config::load("/r", Some(stored)).unwrap();
    assert_eq!(c.tracked_count(), 1);
    let p = DotPath::new(&c, "~/.x", &PathEnv::new(None, String::from("/")));
    assert_eq!(c.get_dotfile(&p).unwrap().target, "/r/two");
}

#[test]
fn table_keeps_first_place_of_a_key() {
    let mut t: Table<u32> = Table::new();
    t.insert(String::from("b"), 1);
    t.insert(String::from("a"), 2);
    t.insert(String::from("b"), 3);
    assert_eq!(t.len(), 2);
    assert_eq!(t.key_at(0), "b");
    assert_eq!(*t.value_at(0), 3);
    assert_eq!(t.get("a"), Some(&2));
    assert_eq!(t.get("c"), None);
    assert!(t.contains_key("b"));
    assert_eq!(t.remove("b"), Some(3));
    assert_eq!(t.remove("b"), None);
    assert_eq!(t.key_at(0), "a");
    assert_eq!(t.len(), 1);
}

#[test]
fn every_error_says_what_it_is_about() {
    assert_eq!(
        DotError::NoSuchDotfile(String::from("~/.x")).describe(),
        "No such dotfile: ~/.x"
    );
    assert_eq!(
        DotError::SourceNotFound(String::from("/p")).describe(),
        "Dotfile does not exist: /p"
    );
    assert_eq!(DotError::UnsupportedTool(String::from("ed")).describe(), "Unsupported diff tool: ed");
    assert_eq!(DotError::NothingToCommit.kind(), ErrorKind::NothingToCommit);
    assert_eq!(DotError::ToolFailed(String::from("meld")).kind(), ErrorKind::ToolFailed);
    assert_eq!(DotError::Unreadable(String::from("/p")).kind(), ErrorKind::Unreadable);
    assert_eq!(
        DotError::CommandNotFound(String::from("vim")).describe(),
        "Command not found in PATH: vim"
    );
    assert_eq!(
        DotError::RepositoryNotFound(String::from("/r")).kind(),
        ErrorKind::RepositoryNotFound
    );
}
