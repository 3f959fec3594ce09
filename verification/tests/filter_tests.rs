use dotzilla::models::{Config, DotPath, DotfileEntry, DotfileStatus};
use dotzilla::utils::filter::{
    filter_dotfiles, filter_dotfiles_contains, filter_dotfiles_exact, matches_filter,
    matches_folded, FilterConfig, FilterStrategy,
};
use dotzilla::utils::path::PathEnv;

fn create_test_dotpath(name: &str) -> DotPath {
    let config = Config::new(String::from("/tmp/test"));
    let env = PathEnv::new(None, String::new());
    DotPath::new(&config, name, &env)
}

fn entry_for(path: &DotPath) -> DotfileEntry {
    DotfileEntry::new(path.rel_path.clone(), path.target.clone(), DotfileStatus::Managed)
}

#[test]
fn test_exact_match() {
    let config = FilterConfig {
        strategy: FilterStrategy::Exact,
        case_sensitive: false,
    };

    let dotpath = create_test_dotpath("vimrc");

    assert!(matches_filter(&dotpath, "vimrc", &config));
    assert!(matches_filter(&dotpath, "VIMRC", &config));
    assert!(!matches_filter(&dotpath, "vim", &config));
    assert!(!matches_filter(&dotpath, "vimrc_backup", &config));
}

#[test]
fn test_contains_match() {
    let config = FilterConfig {
        strategy: FilterStrategy::Contains,
        case_sensitive: false,
    };

    let dotpath = create_test_dotpath("vimrc");

    assert!(matches_filter(&dotpath, "vim", &config));
    assert!(matches_filter(&dotpath, "VIM", &config));
    assert!(matches_filter(&dotpath, "mrc", &config));
    assert!(matches_filter(&dotpath, "vimrc", &config));
    assert!(!matches_filter(&dotpath, "emacs", &config));
}

#[test]
fn test_case_sensitive() {
    let config = FilterConfig {
        strategy: FilterStrategy::Exact,
        case_sensitive: true,
    };

    let dotpath = create_test_dotpath("vimrc");

    assert!(matches_filter(&dotpath, "vimrc", &config));
    assert!(!matches_filter(&dotpath, "VIMRC", &config));
    assert!(!matches_filter(&dotpath, "Vimrc", &config));
}

#[test]
fn default_filter_is_exact_and_ignores_case() {
    let config = FilterConfig::default();
    assert_eq!(config.strategy, FilterStrategy::Exact);
    assert!(!config.case_sensitive);
}

#[test]
fn trailing_slashes_do_not_count() {
    assert!(matches_folded("/home/u/.config/", "/home/u/.config", FilterStrategy::Exact));
    assert!(matches_folded("/home/u/.config", "/home/u/.config///", FilterStrategy::Exact));
    assert!(matches_folded("/home/u/.config/nvim/", "config/nvim//", FilterStrategy::Contains));
    assert!(!matches_folded("/home/u/.config", "/home/u/.config/x", FilterStrategy::Exact));
}

#[test]
fn empty_name_is_contained_everywhere() {
    assert!(matches_folded("abc", "", FilterStrategy::Contains));
    assert!(matches_folded("", "", FilterStrategy::Contains));
    assert!(!matches_folded("", "a", FilterStrategy::Contains));
    assert!(matches_folded("abc", "c", FilterStrategy::Contains));
    assert!(matches_folded("abc", "abc", FilterStrategy::Contains));
    assert!(!matches_folded("abc", "abcd", FilterStrategy::Contains));
}

#[test]
fn case_sensitive_contains() {
    let config = FilterConfig { strategy: FilterStrategy::Contains, case_sensitive: true };
    let dotpath = create_test_dotpath("Vimrc");
    assert!(matches_filter(&dotpath, "Vim", &config));
    assert!(!matches_filter(&dotpath, "vim", &config));
}

#[test]
fn filter_keeps_order_and_takes_all_without_a_name() {
    let names = ["bashrc", "vimrc", "gvimrc", "zshrc"];
    let mut list: Vec<(DotPath, DotfileEntry)> = Vec::new();
    for n in names {
        let p = create_test_dotpath(n);
        let e = entry_for(&p);
        list.push((p, e));
    }

    let all = filter_dotfiles_contains(&list, None);
    assert_eq!(all.len(), 4);
    assert_eq!(all[0].0.abs_path, "bashrc");
    assert_eq!(all[3].0.abs_path, "zshrc");

    let vim = filter_dotfiles_contains(&list, Some("VIM"));
    assert_eq!(vim.len(), 2);
    assert_eq!(vim[0].0.abs_path, "vimrc");
    assert_eq!(vim[1].0.abs_path, "gvimrc");
    assert_eq!(vim[1].1.source, "gvimrc");

    let exact = filter_dotfiles_exact(&list, Some("Vimrc"));
    assert_eq!(exact.len(), 1);
    assert_eq!(exact[0].0.abs_path, "vimrc");

    let sensitive = FilterConfig { strategy: FilterStrategy::Exact, case_sensitive: true };
    assert_eq!(filter_dotfiles(&list, Some("Vimrc"), &sensitive).len(), 0);
    assert_eq!(filter_dotfiles(&list, Some("zshrc"), &sensitive).len(), 1);
    assert_eq!(filter_dotfiles(&list, None, &sensitive).len(), 4);
}

#[test]
fn exact_match_is_held_against_the_whole_absolute_path() {
    let config = Config::new(String::from("/tmp/test"));
    let env = PathEnv::new(Some(String::from("/home/u")), String::from("/home/u/work"));
    let dotpath = DotPath::new(&config, "vimrc", &env);
    assert_eq!(dotpath.abs_path, "/home/u/work/vimrc");

    let exact = FilterConfig { strategy: FilterStrategy::Exact, case_sensitive: false };
    assert!(!matches_filter(&dotpath, "vimrc", &exact));
    assert!(!matches_filter(&dotpath, "work/vimrc", &exact));
    assert!(matches_filter(&dotpath, "/home/u/work/vimrc", &exact));
    assert!(matches_filter(&dotpath, "/HOME/U/WORK/VIMRC/", &exact));

    let sensitive = FilterConfig { strategy: FilterStrategy::Exact, case_sensitive: true };
    assert!(!matches_filter(&dotpath, "vimrc", &sensitive));
    assert!(matches_filter(&dotpath, "/home/u/work/vimrc", &sensitive));
    assert!(!matches_filter(&dotpath, "/home/u/work/VIMRC", &sensitive));

    let contains = FilterConfig { strategy: FilterStrategy::Contains, case_sensitive: false };
    assert!(matches_filter(&dotpath, "vimrc", &contains));
    assert!(matches_filter(&dotpath, "WORK/vim", &contains));
    assert!(!matches_filter(&dotpath, "emacs", &contains));
}
