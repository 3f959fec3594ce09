use dotzilla::models::{Config, DotPath};
use dotzilla::text::{
    char_is_white, chars_of, concat_str, contains, join, last_segment, path_is_absolute,
    replace_prefix, starts_with, str_eq, str_lt, trim_dot_slash, trim_end_slashes, trim_white,
};
use dotzilla::utils::path::{
    expand_tilde, expand_tilde_in, expand_tilde_with, get_full_path, reduce_path_to_home,
    replace_home, PathEnv,
};

fn env_at(home: &str, cwd: &str) -> PathEnv {
    PathEnv::new(Some(String::from(home)), String::from(cwd))
}

#[test]
fn test_expand_tilde() {
    let path = "~/";
    let expanded_path = expand_tilde(path);
    assert!(std::path::Path::new(&expanded_path).exists());
}

#[test]
fn expand_tilde_leaves_other_paths_alone() {
    assert_eq!(expand_tilde("/etc/hosts"), "/etc/hosts");
    assert_eq!(expand_tilde("relative/x"), "relative/x");
    assert_eq!(expand_tilde(""), "");
}

#[test]
fn expand_tilde_with_given_home() {
    assert_eq!(expand_tilde_with("~/.vimrc", Some("/home/u")), "/home/u/.vimrc");
    assert_eq!(expand_tilde_with("~", Some("/home/u")), "/home/u");
    assert_eq!(expand_tilde_with("~x", Some("/home/u")), "/home/ux");
    assert_eq!(expand_tilde_with("~/.vimrc", None), "~/.vimrc");
    assert_eq!(expand_tilde_with("a~b", Some("/home/u")), "a~b");
    let env = env_at("/home/u", "/work");
    assert_eq!(expand_tilde_in("~/a/~", &env), "/home/u/a/~");
}

#[test]
fn full_path_of_missing_paths_is_taken_from_the_working_directory() {
    let env = env_at("/home/u", "/work/dir");
    assert_eq!(get_full_path("file", &env), "/work/dir/file");
    assert_eq!(get_full_path("./file", &env), "/work/dir/file");
    assert_eq!(get_full_path("././a/b", &env), "/work/dir/a/b");
    assert_eq!(get_full_path("/abs/file", &env), "/abs/file");
    assert_eq!(get_full_path("~/x", &env), "/home/u/x");
    let slash = env_at("/home/u", "/");
    assert_eq!(get_full_path("file", &slash), "/file");
}

#[test]
fn full_path_of_existing_paths_is_their_real_location() {
    let mut env = env_at("/home/u", "/work");
    env.record(String::from("link"), String::from("/data/real"));
    assert_eq!(get_full_path("link", &env), "/data/real");
    assert_eq!(get_full_path("other", &env), "/work/other");
    env.record(String::from("link"), String::from("/data/newer"));
    assert_eq!(get_full_path("link", &env), "/data/newer");
    assert_eq!(env.real_path("link"), Some("/data/newer"));
    assert_eq!(env.real_path("nothing"), None);
    assert_eq!(env.home(), Some("/home/u"));
    assert_eq!(env.cwd(), "/work");
}

#[test]
fn reduce_and_replace_home() {
    let env = env_at("/home/u", "/home/u/src");
    assert_eq!(reduce_path_to_home("/home/u/.config", &env), "~/.config");
    assert_eq!(reduce_path_to_home("notes", &env), "~/src/notes");
    assert_eq!(reduce_path_to_home("/etc/hosts", &env), "/etc/hosts");
    assert_eq!(reduce_path_to_home("~/kept", &env), "~/kept");
    assert_eq!(replace_home("/home/u/.config", "/repo", &env), "/repo/.config");
    assert_eq!(replace_home("/etc/hosts", "/repo", &env), "/etc/hosts");
    let homeless = PathEnv::new(None, String::from("/work"));
    assert_eq!(reduce_path_to_home("/home/u/.config", &homeless), "/home/u/.config");
    assert_eq!(replace_home("x", "/repo", &homeless), "/work/x");
}

#[test]
fn detect_keeps_the_working_directory() {
    let env = PathEnv::detect(String::from("/somewhere"));
    assert_eq!(env.cwd(), "/somewhere");
    assert_eq!(env.real_path("/somewhere"), None);
}

#[test]
fn resolve_gives_all_six_projections() {
    let config = Config::new(String::from("/home/u/dotfiles"));
    let env = env_at("/home/u", "/home/u");
    let p = DotPath::new(&config, "~/.vimrc", &env);
    assert_eq!(p.rel_path, "~/.vimrc");
    assert_eq!(p.abs_path, "/home/u/.vimrc");
    assert_eq!(p.target, "/home/u/dotfiles/.vimrc");
    assert_eq!(p.abs_target, "/home/u/dotfiles/.vimrc");
    assert_eq!(p.target_staged, "/home/u/dotfiles/.staging/.vimrc");
    assert_eq!(p.abs_target_staged, "/home/u/dotfiles/.staging/.vimrc");
    assert_eq!(p.to_name(), "~/.vimrc");
    assert_eq!(p.display(), "~/.vimrc");
}

#[test]
fn spellings_of_one_file_resolve_alike() {
    let config = Config::new(String::from("/home/u/dotfiles"));
    let env = env_at("/home/u", "/home/u");
    let tilde = DotPath::new(&config, "~/.vimrc", &env);
    let absolute = DotPath::new(&config, "/home/u/.vimrc", &env);
    let relative = DotPath::new(&config, ".vimrc", &env);
    let dotted = DotPath::new(&config, "./.vimrc", &env);
    assert_eq!(tilde, absolute);
    assert_eq!(tilde, relative);
    assert_eq!(tilde, dotted);
    assert_eq!(DotPath::from_path(&config, &String::from("~/.vimrc"), &env), tilde);
}

#[test]
fn resolving_the_rendered_name_changes_nothing() {
    let config = Config::new(String::from("/home/u/dotfiles"));
    let mut env = env_at("/home/u", "/home/u/work");
    env.record(String::from("/home/u/.bashrc"), String::from("/home/u/.bashrc"));
    env.record(String::from("linked"), String::from("/home/u/real/linked"));
    env.record(String::from("/home/u/work/linked"), String::from("/home/u/real/linked"));
    env.record(String::from("/home/u/real/linked"), String::from("/home/u/real/linked"));
    for name in ["~/.bashrc", "/home/u/.bashrc", "notes.txt", "./a/b", "/etc/hosts", "linked", "~"] {
        let first = DotPath::new(&config, name, &env);
        let second = DotPath::new(&config, &first.display(), &env);
        assert_eq!(first, second, "name {}", name);
    }
}

#[test]
fn a_path_outside_home_keeps_its_place() {
    let config = Config::new(String::from("/home/u/dotfiles"));
    let env = env_at("/home/u", "/home/u");
    let p = DotPath::new(&config, "/etc/hosts", &env);
    assert_eq!(p.rel_path, "/etc/hosts");
    assert_eq!(p.target, "/etc/hosts");
    assert_eq!(p.target_staged, "/etc/hosts");
}

#[test]
fn lookups_name_the_three_paths_asked_for() {
    let config = Config::new(String::from("/home/u/dotfiles"));
    let env = env_at("/home/u", "/home/u");
    let asked = DotPath::lookups(&config, "~/.vimrc", &env);
    assert_eq!(
        asked,
        vec![
            String::from("/home/u/.vimrc"),
            String::from("/home/u/dotfiles/.vimrc"),
            String::from("/home/u/dotfiles/.staging/.vimrc"),
        ]
    );
}

#[test]
fn text_helpers() {
    assert_eq!(chars_of("aé𝄞"), vec!['a', 'é', '𝄞']);
    assert!(str_eq("abc", "abc"));
    assert!(!str_eq("abc", "abd"));
    assert!(!str_eq("abc", "ab"));
    assert!(starts_with("~/x", "~/"));
    assert!(starts_with("x", ""));
    assert!(!starts_with("x", "xy"));
    assert_eq!(replace_prefix("~/x", 1, "/home/u"), "/home/u/x");
    assert_eq!(concat_str("a", "b"), "ab");
    assert_eq!(trim_end_slashes("/a/b///"), "/a/b");
    assert_eq!(trim_end_slashes("///"), "");
    assert_eq!(trim_end_slashes("a"), "a");
    assert_eq!(trim_dot_slash("././a"), "a");
    assert_eq!(trim_dot_slash("./"), "");
    assert_eq!(trim_dot_slash(".a"), ".a");
    assert!(contains("hello", "ell"));
    assert!(!contains("hello", "elo"));
    assert!(path_is_absolute("/x"));
    assert!(!path_is_absolute("x"));
    assert!(!path_is_absolute(""));
    assert_eq!(join("/a", "b"), "/a/b");
    assert_eq!(join("/a/", "b"), "/a/b");
    assert_eq!(join("/a", "/b"), "/b");
    assert_eq!(join("", "b"), "b");
    assert_eq!(join("/a", ""), "/a/");
    assert!(str_lt("a", "b"));
    assert!(str_lt("a", "ab"));
    assert!(!str_lt("ab", "a"));
    assert!(!str_lt("a", "a"));
    assert!(str_lt("", "a"));
    assert!(str_lt("a/b", "a0"));
    assert_eq!(last_segment("/usr/bin/dotzilla"), "dotzilla");
    assert_eq!(last_segment("dotzilla"), "dotzilla");
    assert_eq!(last_segment("dir/"), "");
    assert_eq!(last_segment(""), "");
}

fn env_with_files(names: &[&str]) -> PathEnv {
    let mut env = env_at("/home/u", "/home/u/work");
    for name in names {
        let full = format!("/home/u/work/{}", name);
        env.record(format!("./{}", name), full.clone());
        env.record(String::from(*name), full.clone());
        env.record(full.clone(), full);
    }
    env
}

#[test]
fn test_get_full_path() {
    let files = ["Cargo.toml", "src", ".gitignore"];
    let env = env_with_files(&files);
    for file in files {
        let file_name = "./".to_string() + file;
        let full_path = get_full_path(&file_name, &env);
        assert!(env.real_path(&full_path).is_some());
        println!("File: {:?} -> {:?}", file_name, full_path);
    }
}

#[test]
fn test_compact_path() {
    let files = ["Cargo.toml", "src", ".gitignore"];
    let env = env_with_files(&files);
    for file in files {
        let full_path = get_full_path(file, &env);
        let compacted_path = reduce_path_to_home(&full_path, &env);
        println!("File: {:?} -> {:?}", file, compacted_path);
        assert_ne!(compacted_path, full_path);
    }
}

#[test]
fn a_link_is_known_at_its_own_place() {
    let mut env = env_at("/home/u", "/home/u");
    env.observe(String::from("/home/u/.vimrc"), true, Some("/home/u"), Some("/repo/.vimrc"));
    assert_eq!(env.real_path("/home/u/.vimrc"), Some("/home/u/.vimrc"));
    // what is no link stands at its real location
    env.observe(String::from("/home/u/via/.bashrc"), false, Some("/elsewhere"), Some("/data/.bashrc"));
    assert_eq!(env.real_path("/home/u/via/.bashrc"), Some("/data/.bashrc"));
    // a link in a directory that is reached through a link
    env.observe(String::from("/home/u/via/.zshrc"), true, Some("/data"), None);
    assert_eq!(env.real_path("/home/u/via/.zshrc"), Some("/data/.zshrc"));
    // a link that is named without a directory
    env.observe(String::from(".profile"), true, Some("/home/u"), None);
    assert_eq!(env.real_path(".profile"), Some("/home/u/.profile"));
    // nothing could be had
    env.observe(String::from("/gone"), false, None, None);
    env.observe(String::from("/gone/link"), true, None, Some("/x"));
    assert_eq!(env.real_path("/gone"), None);
    assert_eq!(env.real_path("/gone/link"), None);
    assert_eq!(env.home(), Some("/home/u"));
    assert_eq!(env.cwd(), "/home/u");
}

#[test]
fn a_linked_dotfile_keeps_its_places() {
    let config = Config::new(String::from("/home/u/dotfiles"));
    let before = env_at("/home/u", "/home/u");
    let plain = DotPath::new(&config, "~/.vimrc", &before);
    let mut after = env_at("/home/u", "/home/u");
    after.observe(
        String::from("/home/u/.vimrc"),
        true,
        Some("/home/u"),
        Some("/home/u/dotfiles/.vimrc"),
    );
    after.observe(
        String::from("/home/u/dotfiles/.vimrc"),
        false,
        None,
        Some("/home/u/dotfiles/.vimrc"),
    );
    let linked = DotPath::new(&config, "~/.vimrc", &after);
    assert_eq!(linked, plain);
    assert_eq!(linked.abs_path, "/home/u/.vimrc");
    assert_eq!(linked.rel_path, "~/.vimrc");
    assert_eq!(linked.abs_target, "/home/u/dotfiles/.vimrc");
}

#[test]
fn white_space_is_what_the_standard_library_takes_for_it() {
    for n in 0..=0x10FFFFu32 {
        if let Some(c) = char::from_u32(n) {
            assert_eq!(char_is_white(c), c.is_whitespace(), "U+{:04X}", n);
        }
    }
}

#[test]
fn trimming_takes_white_space_from_both_ends() {
    let samples = [
        "",
        " ",
        "yes",
        "  yes",
        "yes \n",
        "\t y e s \r\n",
        "\u{a0}\u{2003}no\u{3000}\u{85}",
        " \n\t ",
        "a\u{200b}",
        "\u{feff}x ",
        " é ",
    ];
    for s in samples {
        assert_eq!(trim_white(s), s.trim(), "{:?}", s);
    }
    assert_eq!(trim_white("  a b  "), "a b");
    assert_eq!(trim_white("\n"), "");
}
