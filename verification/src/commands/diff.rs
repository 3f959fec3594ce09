//! Differences between the repository copy of a dotfile and the live one.

use crate::error::{DotError, ErrorKind};
use crate::models::DotPath;
use crate::text::{lemma_lex_total, lemma_lex_transitive, lex_lt, str_eq, str_lt};
use crate::utils::diff_tools::{
    command_line, command_view, kdiff3_command, meld_command, vimdiff_command, vscode_command,
};
use crate::utils::path_compare::{compare_file, has_path, Snapshot};
use crate::utils::tree::{
    child_path, dirs_of, entered, file_views, files_in, files_of, is_hidden, path_views,
    walk_into, DirEntry, FileEntry, FsNode,
};
use vstd::prelude::*;
use vstd::string::*;

verus! {

/// What happened to a file, seen from the live side.
#[derive(Debug, Clone, Copy, PartialEq, Eq, Structural)]
pub enum DiffStatus {
    /// Only the live tree has it.
    Added,
    /// Both trees have it, with different content.
    Modified,
    /// Only the repository has it.
    Removed,
}

/// One line of a tree diff.
#[derive(Debug, PartialEq, Eq)]
pub struct DiffLine {
    pub path: String,
    pub status: DiffStatus,
}

impl View for DiffLine {
    type V = (Seq<char>, DiffStatus);

    open spec fn view(&self) -> (Seq<char>, DiffStatus) {
        (self.path@, self.status)
    }
}

/// The lines of a list, each as its path and status.
pub open spec fn line_views(lines: Seq<DiffLine>) -> Seq<(Seq<char>, DiffStatus)> {
    Seq::new(lines.len(), |i: int| lines[i]@)
}

/// The files of a directory tree that are not hidden and stand in no hidden
/// directory. What is not a directory has none.
pub open spec fn visible_files(node: FsNode) -> Seq<(Seq<char>, Seq<u8>)> {
    if node is Dir {
        files_of(node, Seq::empty(), true)
    } else {
        Seq::empty()
    }
}

/// The directories of a directory tree that are not hidden and stand in no
/// hidden directory.
pub open spec fn visible_dirs(node: FsNode) -> Seq<Seq<char>> {
    if node is Dir {
        dirs_of(node, Seq::empty(), true)
    } else {
        Seq::empty()
    }
}

/// Something visible stands at `path` in the tree.
pub open spec fn stands_at(node: FsNode, path: Seq<char>) -> bool {
    has_path(visible_files(node), path) || visible_dirs(node).contains(path)
}

/// Some file of the list stands at the path of `file` with other content.
pub open spec fn clashes(files: Seq<(Seq<char>, Seq<u8>)>, file: (Seq<char>, Seq<u8>)) -> bool {
    exists|j: int| 0 <= j < files.len() && (#[trigger] files[j]).0 == file.0 && files[j].1 != file.1
}

/// Some file of the repository stands at `path` and a live file stands there
/// with other content.
pub open spec fn modified_at(repo: FsNode, local: FsNode, path: Seq<char>) -> bool {
    exists|i: int|
        0 <= i < visible_files(repo).len() && (#[trigger] visible_files(repo)[i]).0 == path
            && clashes(visible_files(local), visible_files(repo)[i])
}

/// What the diff says of one file of the repository.
pub open spec fn entry_status(file: (Seq<char>, Seq<u8>), local: FsNode) -> Option<DiffStatus> {
    if !stands_at(local, file.0) {
        Some(DiffStatus::Removed)
    } else if clashes(visible_files(local), file) {
        Some(DiffStatus::Modified)
    } else {
        None
    }
}

/// What the diff says of `path`: removed if a file of the repository stands
/// there and nothing stands there in the live tree; modified if files stand
/// there in both, with different content; added if a live file stands
/// there and nothing stands there in the repository; else nothing.
pub open spec fn diff_status(repo: FsNode, local: FsNode, path: Seq<char>) -> Option<DiffStatus> {
    if has_path(visible_files(repo), path) {
        if !stands_at(local, path) {
            Some(DiffStatus::Removed)
        } else if modified_at(repo, local, path) {
            Some(DiffStatus::Modified)
        } else {
            None
        }
    } else if has_path(visible_files(local), path) && !stands_at(repo, path) {
        Some(DiffStatus::Added)
    } else {
        None
    }
}

/// The lines stand in strictly rising order of their paths.
pub open spec fn sorted_lines(lines: Seq<(Seq<char>, DiffStatus)>) -> bool {
    forall|i: int, j: int|
        0 <= i < j < lines.len() ==> lex_lt((#[trigger] lines[i]).0, (#[trigger] lines[j]).0)
}

/// A path has a hidden part if it, or a part of it after a slash, starts
/// with a dot.
pub open spec fn has_hidden_part(path: Seq<char>) -> bool {
    is_hidden(path) || exists|i: int|
        0 <= i < path.len() - 1 && (#[trigger] path[i]) == '/' && path[i + 1] == '.'
}

/// A name without a slash.
pub open spec fn plain_name(name: Seq<char>) -> bool {
    forall|i: int| 0 <= i < name.len() ==> (#[trigger] name[i]) != '/'
}

/// Every entry of the tree, at every depth, has a name without a slash.
pub open spec fn plain_tree(node: FsNode) -> bool
    decreases node,
{
    match node {
        FsNode::File(_) => true,
        FsNode::Dir(entries) => plain_entries(entries@, entries@.len()),
    }
}

/// The first `n` entries, and all below them, have names without a slash.
pub open spec fn plain_entries(entries: Seq<DirEntry>, n: nat) -> bool
    decreases entries, n,
{
    if n == 0 || n > entries.len() {
        true
    } else {
        plain_entries(entries, (n - 1) as nat) && plain_name(entries[n - 1].name@) && plain_tree(
            entries[n - 1].node,
        )
    }
}

/// The path of a visible entry of a directory without a hidden part has no
/// hidden part.
pub proof fn lemma_child_not_hidden(prefix: Seq<char>, name: Seq<char>)
    requires
        !has_hidden_part(prefix),
        plain_name(name),
        !is_hidden(name),
    ensures
        !has_hidden_part(child_path(prefix, name)),
{
    let path = child_path(prefix, name);
    if prefix.len() > 0 {
        assert(path[0] == prefix[0]);
        assert forall|i: int| 0 <= i < path.len() - 1 && (#[trigger] path[i]) == '/' implies path[i
            + 1] != '.' by {
            if i + 1 < prefix.len() {
                assert(path[i] == prefix[i] && path[i + 1] == prefix[i + 1]);
            } else if i + 1 == prefix.len() {
                assert(path[i + 1] == '/');
            } else if i == prefix.len() {
                assert(path[i + 1] == name[0]);
            } else {
                assert(path[i] == name[i - prefix.len() - 1]);
            }
        }
    }
}

/// Hidden entries are left out at every depth: in a tree whose names hold no
/// slash, no file that the walk lists while it skips hidden entries has a
/// hidden part in its path.
pub proof fn lemma_walk_skips_hidden(node: FsNode, prefix: Seq<char>, i: int)
    requires
        plain_tree(node),
        !has_hidden_part(prefix),
        0 <= i < files_of(node, prefix, true).len(),
    ensures
        !has_hidden_part(files_of(node, prefix, true)[i].0),
    decreases node,
{
    match node {
        FsNode::File(_) => {},
        FsNode::Dir(entries) => {
            lemma_entries_skip_hidden(entries@, entries@.len(), prefix, i);
        },
    }
}

/// The same for the first `n` entries of a directory.
pub proof fn lemma_entries_skip_hidden(entries: Seq<DirEntry>, n: nat, prefix: Seq<char>, i: int)
    requires
        plain_entries(entries, n),
        !has_hidden_part(prefix),
        0 <= i < files_in(entries, n, prefix, true).len(),
    ensures
        !has_hidden_part(files_in(entries, n, prefix, true)[i].0),
    decreases entries, n,
{
    if n == 0 || n > entries.len() {
    } else {
        let entry = entries[n - 1];
        let before = files_in(entries, (n - 1) as nat, prefix, true);
        if i < before.len() {
            lemma_entries_skip_hidden(entries, (n - 1) as nat, prefix, i);
        } else {
            assert(entered(entry.name@, true));
            let path = child_path(prefix, entry.name@);
            lemma_child_not_hidden(prefix, entry.name@);
            lemma_walk_skips_hidden(entry.node, path, i - before.len());
        }
    }
}

/// No path of which the diff says something has a hidden part, where the
/// names of both trees hold no slash.
pub proof fn lemma_diff_skips_hidden(repo: FsNode, local: FsNode, path: Seq<char>)
    requires
        plain_tree(repo),
        plain_tree(local),
        diff_status(repo, local, path) is Some,
    ensures
        !has_hidden_part(path),
{
    let empty = Seq::<char>::empty();
    if has_path(visible_files(repo), path) {
        let i = choose|i: int|
            0 <= i < visible_files(repo).len() && (#[trigger] visible_files(repo)[i]).0 == path;
        lemma_walk_skips_hidden(repo, empty, i);
    } else {
        let i = choose|i: int|
            0 <= i < visible_files(local).len() && (#[trigger] visible_files(local)[i]).0 == path;
        lemma_walk_skips_hidden(local, empty, i);
    }
}

/// The visible files and directories of a directory tree; nothing for what
/// is not a directory.
pub fn collect_files(node: &FsNode) -> (r: (Vec<FileEntry>, Vec<String>))
    ensures
        file_views(r.0@) == visible_files(*node),
        path_views(r.1@) == visible_dirs(*node),
{
    let mut files: Vec<FileEntry> = Vec::new();
    let mut dirs: Vec<String> = Vec::new();
    proof {
        assert(file_views(files@) =~= Seq::<(Seq<char>, Seq<u8>)>::empty());
        assert(path_views(dirs@) =~= Seq::<Seq<char>>::empty());
    }
    if let FsNode::Dir(_) = node {
        proof {
            reveal_strlit("");
            assert(""@ =~= Seq::<char>::empty());
        }
        walk_into(node, "", true, &mut files, &mut dirs);
        proof {
            assert(file_views(files@) =~= visible_files(*node));
            assert(path_views(dirs@) =~= visible_dirs(*node));
        }
    }
    (files, dirs)
}

fn holds_path(paths: &Vec<String>, path: &str) -> (r: bool)
    ensures
        r == path_views(paths@).contains(path@),
{
    let ghost v = path_views(paths@);
    let mut i: usize = 0;
    while i < paths.len()
        invariant
            i <= paths.len(),
            v == path_views(paths@),
            forall|k: int| 0 <= k < i ==> v[k] != path@,
        decreases paths.len() - i,
    {
        proof {
            assert(v[i as int] == paths@[i as int]@);
        }
        if str_eq(paths[i].as_str(), path) {
            return true;
        }
        i = i + 1;
    }
    false
}

/// Tells whether a file of `files` stands at the path of `file`, and whether
/// one stands there with other content.
fn probe_file(files: &Vec<FileEntry>, file: &FileEntry) -> (r: (bool, bool))
    ensures
        r.0 == has_path(file_views(files@), file.path@),
        r.1 == clashes(file_views(files@), file@),
{
    let ghost v = file_views(files@);
    let mut found = false;
    let mut clash = false;
    let mut j: usize = 0;
    while j < files.len()
        invariant
            j <= files.len(),
            v == file_views(files@),
            found == exists|k: int| 0 <= k < j && (#[trigger] v[k]).0 == file.path@,
            clash == exists|k: int|
                0 <= k < j && (#[trigger] v[k]).0 == file.path@ && v[k].1 != file.content@,
        decreases files.len() - j,
    {
        proof {
            assert(v[j as int] == files@[j as int]@);
        }
        if str_eq(files[j].path.as_str(), file.path.as_str()) {
            found = true;
            if !compare_file(&files[j].content, &file.content) {
                clash = true;
            }
        }
        j = j + 1;
    }
    (found, clash)
}

fn has_line(lines: &Vec<DiffLine>, path: &str) -> (r: bool)
    ensures
        r == exists|k: int| 0 <= k < lines@.len() && (#[trigger] line_views(lines@)[k]).0 == path@,
{
    let ghost v = line_views(lines@);
    let mut i: usize = 0;
    while i < lines.len()
        invariant
            i <= lines.len(),
            v == line_views(lines@),
            forall|k: int| 0 <= k < i ==> (#[trigger] v[k]).0 != path@,
        decreases lines.len() - i,
    {
        proof {
            assert(v[i as int] == lines@[i as int]@);
        }
        if str_eq(lines[i].path.as_str(), path) {
            return true;
        }
        i = i + 1;
    }
    false
}

/// Puts `line` at its place among lines that are sorted by path.
fn insert_sorted(lines: &mut Vec<DiffLine>, line: DiffLine)
    requires
        sorted_lines(line_views(old(lines)@)),
        forall|k: int|
            0 <= k < old(lines)@.len() ==> (#[trigger] line_views(old(lines)@)[k]).0 != line.path@,
    ensures
        sorted_lines(line_views(final(lines)@)),
        forall|e: (Seq<char>, DiffStatus)|
            line_views(final(lines)@).contains(e) <==> line_views(old(lines)@).contains(e) || e
                == line@,
{
    let ghost before = line_views(lines@);
    let ghost x = line@;
    let mut k: usize = 0;
    while k < lines.len() && str_lt(lines[k].path.as_str(), line.path.as_str())
        invariant
            k <= lines.len(),
            before == line_views(lines@),
            x == line@,
            forall|i: int| 0 <= i < k ==> lex_lt((#[trigger] before[i]).0, x.0),
        decreases lines.len() - k,
    {
        proof {
            assert(before[k as int] == lines@[k as int]@);
        }
        k = k + 1;
    }
    proof {
        if k < lines.len() {
            assert(before[k as int] == lines@[k as int]@);
            lemma_lex_total(before[k as int].0, x.0);
            assert(lex_lt(x.0, before[k as int].0));
        }
    }
    lines.insert(k, line);
    proof {
        let after = line_views(lines@);
        assert(after =~= before.insert(k as int, x));
        assert forall|i: int, j: int| 0 <= i < j < after.len() implies lex_lt(
            (#[trigger] after[i]).0,
            (#[trigger] after[j]).0,
        ) by {
            if j < k {
                assert(after[i] == before[i] && after[j] == before[j]);
            } else if j == k {
                assert(after[i] == before[i]);
            } else if i < k {
                assert(after[i] == before[i] && after[j] == before[j - 1]);
            } else if i == k {
                assert(after[j] == before[j - 1]);
                if j - 1 > k {
                    assert(lex_lt(before[k as int].0, before[j - 1].0));
                    lemma_lex_transitive(x.0, before[k as int].0, before[j - 1].0);
                }
            } else {
                assert(after[i] == before[i - 1] && after[j] == before[j - 1]);
            }
        }
        assert forall|e: (Seq<char>, DiffStatus)| after.contains(e) <==> before.contains(e) || e
            == x by {
            if after.contains(e) {
                let i = choose|i: int| 0 <= i < after.len() && after[i] == e;
                if i < k {
                    assert(before[i] == e);
                } else if i > k {
                    assert(before[i - 1] == e);
                }
            }
            if before.contains(e) {
                let i = choose|i: int| 0 <= i < before.len() && before[i] == e;
                if i < k {
                    assert(after[i] == e);
                } else {
                    assert(after[i + 1] == e);
                }
            }
            if e == x {
                assert(after[k as int] == e);
            }
        }
    }
}

/// The diff of two directory trees: one line for each path of which
/// `diff_status` says something, with what it says, in rising order of the
/// paths. Hidden entries are left out at every depth.
pub fn compare_directories(repo: &FsNode, local: &FsNode) -> (r: Vec<DiffLine>)
    ensures
        sorted_lines(line_views(r@)),
        forall|e: (Seq<char>, DiffStatus)| #[trigger]
            line_views(r@).contains(e) <==> diff_status(*repo, *local, e.0) == Some(e.1),
        plain_tree(*repo) && plain_tree(*local) ==> forall|i: int|
            0 <= i < r@.len() ==> !has_hidden_part((#[trigger] r@[i]).path@),
{
    let (repo_files, repo_dirs) = collect_files(repo);
    let (local_files, local_dirs) = collect_files(local);
    let ghost rf = visible_files(*repo);
    let ghost lf = visible_files(*local);
    let mut lines: Vec<DiffLine> = Vec::new();
    let mut n: usize = 0;
    while n < repo_files.len()
        invariant
            n <= repo_files.len(),
            rf == visible_files(*repo),
            lf == visible_files(*local),
            file_views(repo_files@) == rf,
            file_views(local_files@) == lf,
            path_views(local_dirs@) == visible_dirs(*local),
            sorted_lines(line_views(lines@)),
            forall|e: (Seq<char>, DiffStatus)| #[trigger]
                line_views(lines@).contains(e) ==> diff_status(*repo, *local, e.0) == Some(e.1),
            forall|k: int|
                0 <= k < n && entry_status(#[trigger] rf[k], *local) is Some ==> line_views(
                    lines@,
                ).contains((rf[k].0, diff_status(*repo, *local, rf[k].0)->0)),
        decreases repo_files.len() - n,
    {
        let file = &repo_files[n];
        let ghost before = line_views(lines@);
        proof {
            assert(rf[n as int] == file@);
        }
        let (found, clash) = probe_file(&local_files, file);
        let there = found || holds_path(&local_dirs, file.path.as_str());
        let status = if !there {
            Some(DiffStatus::Removed)
        } else if clash {
            Some(DiffStatus::Modified)
        } else {
            None
        };
        proof {
            assert(status == entry_status(rf[n as int], *local));
        }
        if let Some(st) = status {
            proof {
                assert(has_path(rf, file.path@));
                assert(diff_status(*repo, *local, file.path@) == Some(st));
            }
            if !has_line(&lines, file.path.as_str()) {
                insert_sorted(&mut lines, DiffLine { path: file.path.clone(), status: st });
            } else {
                proof {
                    let k = choose|k: int|
                        0 <= k < lines@.len() && (#[trigger] before[k]).0 == file.path@;
                    assert(before.contains(before[k]));
                    assert(before[k] == (file.path@, st));
                }
            }
        }
        n = n + 1;
    }
    let mut m: usize = 0;
    while m < local_files.len()
        invariant
            m <= local_files.len(),
            rf == visible_files(*repo),
            lf == visible_files(*local),
            file_views(repo_files@) == rf,
            file_views(local_files@) == lf,
            path_views(repo_dirs@) == visible_dirs(*repo),
            sorted_lines(line_views(lines@)),
            forall|e: (Seq<char>, DiffStatus)| #[trigger]
                line_views(lines@).contains(e) ==> diff_status(*repo, *local, e.0) == Some(e.1),
            forall|k: int|
                0 <= k < rf.len() && entry_status(#[trigger] rf[k], *local) is Some ==> line_views(
                    lines@,
                ).contains((rf[k].0, diff_status(*repo, *local, rf[k].0)->0)),
            forall|k: int|
                0 <= k < m && !stands_at(*repo, (#[trigger] lf[k]).0) ==> line_views(
                    lines@,
                ).contains((lf[k].0, DiffStatus::Added)),
        decreases local_files.len() - m,
    {
        let file = &local_files[m];
        let ghost before = line_views(lines@);
        proof {
            assert(lf[m as int] == file@);
        }
        let (found, _) = probe_file(&repo_files, file);
        let there = found || holds_path(&repo_dirs, file.path.as_str());
        if !there {
            proof {
                assert(has_path(lf, file.path@));
                assert(diff_status(*repo, *local, file.path@) == Some(DiffStatus::Added));
            }
            if !has_line(&lines, file.path.as_str()) {
                insert_sorted(
                    &mut lines,
                    DiffLine { path: file.path.clone(), status: DiffStatus::Added },
                );
            } else {
                proof {
                    let k = choose|k: int|
                        0 <= k < lines@.len() && (#[trigger] before[k]).0 == file.path@;
                    assert(before.contains(before[k]));
                    assert(before[k] == (file.path@, DiffStatus::Added));
                }
            }
        }
        m = m + 1;
    }
    proof {
        let v = line_views(lines@);
        assert forall|e: (Seq<char>, DiffStatus)| diff_status(*repo, *local, e.0) == Some(
            e.1,
        ) implies #[trigger] v.contains(e) by {
            let p = e.0;
            if has_path(rf, p) {
                if !stands_at(*local, p) {
                    let i = choose|i: int| 0 <= i < rf.len() && (#[trigger] rf[i]).0 == p;
                    assert(entry_status(rf[i], *local) is Some);
                } else {
                    let i = choose|i: int|
                        0 <= i < rf.len() && (#[trigger] rf[i]).0 == p && clashes(lf, rf[i]);
                    assert(entry_status(rf[i], *local) is Some);
                }
            } else {
                let j = choose|j: int| 0 <= j < lf.len() && (#[trigger] lf[j]).0 == p;
                assert(!stands_at(*repo, lf[j].0));
            }
        }
        if plain_tree(*repo) && plain_tree(*local) {
            assert forall|i: int| 0 <= i < lines@.len() implies !has_hidden_part(
                (#[trigger] lines@[i]).path@,
            ) by {
                assert(v[i] == lines@[i]@);
                assert(v.contains(v[i]));
                lemma_diff_skips_hidden(*repo, *local, v[i].0);
            }
        }
    }
    lines
}

/// The patch that `diffy` makes of two texts, as it prints it.
pub uninterp spec fn patch_text(before: Seq<char>, after: Seq<char>) -> Seq<char>;

/// Calls `diffy::create_patch` and prints the patch. The contract only
/// names the result: the same two texts always give the same patch.
#[verifier::external_body]
fn create_patch_text(before: &str, after: &str) -> (r: String)
    ensures
        r@ == patch_text(before@, after@),
{
    diffy::create_patch(before, after).to_string()
}

/// The difference between the repository text of a dotfile and its live
/// text: nothing where they are the same, else the patch that leads from
/// the repository text to the live one.
pub fn diff_files(local_content: &str, repo_content: &str) -> (r: Option<String>)
    ensures
        match r {
            None => local_content@ == repo_content@,
            Some(p) => local_content@ != repo_content@ && p@ == patch_text(
                repo_content@,
                local_content@,
            ),
        },
{
    if str_eq(local_content, repo_content) {
        None
    } else {
        Some(create_patch_text(repo_content, local_content))
    }
}

/// The diff programs that the library knows.
#[derive(Debug, Clone, Copy, PartialEq, Eq, Structural)]
pub enum DiffTool {
    Vimdiff,
    Meld,
    Kdiff3,
    Vscode,
    Diff,
}

/// The diff program that a name stands for.
pub open spec fn tool_named(name: Seq<char>) -> Option<DiffTool> {
    if name == "vimdiff"@ {
        Some(DiffTool::Vimdiff)
    } else if name == "meld"@ {
        Some(DiffTool::Meld)
    } else if name == "kdiff3"@ {
        Some(DiffTool::Kdiff3)
    } else if name == "vscode"@ || name == "code"@ {
        Some(DiffTool::Vscode)
    } else if name == "diff"@ || name == "git-diff"@ {
        Some(DiffTool::Diff)
    } else {
        None
    }
}

/// The diff program that a name stands for; an unknown name is refused.
pub fn parse_tool(name: &str) -> (r: Result<DiffTool, DotError>)
    ensures
        match r {
            Ok(t) => tool_named(name@) == Some(t),
            Err(e) => tool_named(name@) is None && e.kind() == ErrorKind::UnsupportedTool
                && e.spec_subject() == name@,
        },
{
    if str_eq(name, "vimdiff") {
        Ok(DiffTool::Vimdiff)
    } else if str_eq(name, "meld") {
        Ok(DiffTool::Meld)
    } else if str_eq(name, "kdiff3") {
        Ok(DiffTool::Kdiff3)
    } else if str_eq(name, "vscode") || str_eq(name, "code") {
        Ok(DiffTool::Vscode)
    } else if str_eq(name, "diff") || str_eq(name, "git-diff") {
        Ok(DiffTool::Diff)
    } else {
        Err(DotError::UnsupportedTool(String::from_str(name)))
    }
}

/// The command line of the plain `diff`: in colour, and through the whole
/// tree where both sides are directories.
pub open spec fn diff_command_line(file1: Seq<char>, file2: Seq<char>, both_dirs: bool) -> (
    Seq<char>,
    Seq<Seq<char>>,
) {
    if both_dirs {
        ("diff"@, seq!["-r"@, "--color=always"@, file1, file2])
    } else {
        ("diff"@, seq!["--color=always"@, file1, file2])
    }
}

/// The command line of the plain `diff`.
pub fn diff_command(file1: &str, file2: &str, both_dirs: bool) -> (r: (String, Vec<String>))
    ensures
        command_view(r) == diff_command_line(file1@, file2@, both_dirs),
{
    let mut args: Vec<String> = Vec::new();
    if both_dirs {
        args.push(String::from_str("-r"));
    }
    args.push(String::from_str("--color=always"));
    args.push(String::from_str(file1));
    args.push(String::from_str(file2));
    let r = (String::from_str("diff"), args);
    proof {
        assert(command_view(r).1 =~= diff_command_line(file1@, file2@, both_dirs).1);
    }
    r
}

/// The command line that runs the diff program `tool_name` on two paths.
/// An unknown program is refused, and so is one that is not installed;
/// which are installed depends on the machine.
pub fn use_external_diff_tool(
    tool_name: &str,
    repo_path: &str,
    local_path: &str,
    both_dirs: bool,
) -> (r: Result<(String, Vec<String>), DotError>)
    ensures
        tool_named(tool_name@) is None ==> r is Err,
        match r {
            Ok(c) => match tool_named(tool_name@) {
                Some(DiffTool::Vimdiff) => command_view(c) == command_line(
                    "vim"@,
                    Some("-d"@),
                    repo_path@,
                    local_path@,
                ),
                Some(DiffTool::Meld) => command_view(c) == command_line(
                    "meld"@,
                    None,
                    repo_path@,
                    local_path@,
                ),
                Some(DiffTool::Kdiff3) => command_view(c) == command_line(
                    "kdiff3"@,
                    None,
                    repo_path@,
                    local_path@,
                ),
                Some(DiffTool::Vscode) => command_view(c) == command_line(
                    "code"@,
                    Some("--diff"@),
                    repo_path@,
                    local_path@,
                ) || command_view(c) == command_line(
                    "codium"@,
                    Some("--diff"@),
                    repo_path@,
                    local_path@,
                ),
                Some(DiffTool::Diff) => command_view(c) == diff_command_line(
                    repo_path@,
                    local_path@,
                    both_dirs,
                ),
                None => false,
            },
            Err(e) => if tool_named(tool_name@) is None {
                e.kind() == ErrorKind::UnsupportedTool && e.spec_subject() == tool_name@
            } else {
                e.kind() == ErrorKind::CommandNotFound && tool_named(tool_name@) != Some(
                    DiffTool::Diff,
                )
            },
        },
{
    match parse_tool(tool_name) {
        Err(e) => Err(e),
        Ok(DiffTool::Vimdiff) => vimdiff_command(repo_path, local_path),
        Ok(DiffTool::Meld) => meld_command(repo_path, local_path),
        Ok(DiffTool::Kdiff3) => kdiff3_command(repo_path, local_path),
        Ok(DiffTool::Vscode) => vscode_command(repo_path, local_path),
        Ok(DiffTool::Diff) => Ok(diff_command(repo_path, local_path, both_dirs)),
    }
}

/// What the end of a diff program means: a failure status is an error,
/// except from the plain `diff`, which ends so whenever it found a
/// difference.
pub fn external_diff_result(tool_name: &str, success: bool) -> (r: Result<(), DotError>)
    ensures
        match r {
            Ok(_) => success || tool_named(tool_name@) == Some(DiffTool::Diff),
            Err(e) => !success && tool_named(tool_name@) != Some(DiffTool::Diff) && e.kind()
                == ErrorKind::ToolFailed && e.spec_subject() == tool_name@,
        },
{
    if success {
        return Ok(());
    }
    match parse_tool(tool_name) {
        Ok(DiffTool::Diff) => Ok(()),
        _ => Err(DotError::ToolFailed(String::from_str(tool_name))),
    }
}

/// How the difference of a dotfile is to be shown.
#[derive(Debug, PartialEq, Eq)]
pub enum DiffStep {
    /// Nothing is at the live path.
    LocalMissing,
    /// Nothing is at the place in the repository.
    RepoMissing,
    /// Both are directories: the lines of their diff, none if they hold the
    /// same.
    Tree(Vec<DiffLine>),
    /// A diff program is to be run on the two paths, in this order.
    External { tool: String, first: String, second: String, both_dirs: bool },
    /// Both are files: their texts are to be compared.
    Files,
    /// One is a directory and the other a file: they cannot be compared.
    KindMismatch { repo_is_dir: bool },
}

/// The lines of the diff of what is at two places, the repository side
/// first; none where nothing is at one of them.
pub fn diff_directories(repo: &Snapshot, local: &Snapshot) -> (r: Vec<DiffLine>)
    ensures
        sorted_lines(line_views(r@)),
        forall|e: (Seq<char>, DiffStatus)| #[trigger]
            line_views(r@).contains(e) <==> repo.is_present() && local.is_present() && diff_status(
                repo.node->0,
                local.node->0,
                e.0,
            ) == Some(e.1),
{
    match (&repo.node, &local.node) {
        (Some(a), Some(b)) => compare_directories(a, b),
        _ => {
            let none: Vec<DiffLine> = Vec::new();
            proof {
                assert(line_views(none@) =~= Seq::<(Seq<char>, DiffStatus)>::empty());
            }
            none
        },
    }
}

/// Decides how the difference of a dotfile is shown. `live` tells what is
/// at its live path and `repo` what is at its place in the repository. Two
/// directories are compared by the program that was asked for, or else line
/// by line; anything else goes to the program that was asked for; without
/// one, two files are compared as texts and a file and a directory not at
/// all.
pub fn show_diff(dotfile_path: &DotPath, tool: Option<&str>, live: &Snapshot, repo: &Snapshot) -> (r:
    DiffStep)
    ensures
        match r {
            DiffStep::LocalMissing => !live.is_present(),
            DiffStep::RepoMissing => live.is_present() && !repo.is_present(),
            DiffStep::Tree(lines) => {
                &&& live.is_dir() && repo.is_dir() && tool is None
                &&& sorted_lines(line_views(lines@))
                &&& forall|e: (Seq<char>, DiffStatus)| #[trigger]
                    line_views(lines@).contains(e) <==> diff_status(
                        repo.node->0,
                        live.node->0,
                        e.0,
                    ) == Some(e.1)
            },
            DiffStep::External { tool: t, first, second, both_dirs } => {
                &&& live.is_present() && repo.is_present()
                &&& tool matches Some(name) && t@ == name@
                &&& both_dirs == (live.is_dir() && repo.is_dir())
                &&& first@ == if both_dirs {
                    dotfile_path@.abs_target
                } else {
                    dotfile_path@.abs_path
                }
                &&& second@ == if both_dirs {
                    dotfile_path@.abs_path
                } else {
                    dotfile_path@.abs_target
                }
            },
            DiffStep::Files => live.is_file() && repo.is_file() && tool is None,
            DiffStep::KindMismatch { repo_is_dir } => live.is_present() && repo.is_present()
                && tool is None && live.is_dir() != repo.is_dir() && repo_is_dir == repo.is_dir(),
        },
{
    if live.node.is_none() {
        return DiffStep::LocalMissing;
    }
    if repo.node.is_none() {
        return DiffStep::RepoMissing;
    }
    let both_dirs = live.holds_dir() && repo.holds_dir();
    if let Some(name) = tool {
        let (first, second) = if both_dirs {
            (dotfile_path.abs_target.clone(), dotfile_path.abs_path.clone())
        } else {
            (dotfile_path.abs_path.clone(), dotfile_path.abs_target.clone())
        };
        return DiffStep::External { tool: String::from_str(name), first, second, both_dirs };
    }
    if both_dirs {
        return DiffStep::Tree(diff_directories(repo, live));
    }
    if !live.holds_dir() && !repo.holds_dir() {
        return DiffStep::Files;
    }
    DiffStep::KindMismatch { repo_is_dir: repo.holds_dir() }
}

} // verus!
