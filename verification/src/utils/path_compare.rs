//! Comparison of two places: equal, different, or one a link to the other.

use crate::error::{DotError, ErrorKind};
use crate::text::str_eq;
use crate::utils::tree::{file_views, files_of, walk_into, FileEntry, FsNode};
use vstd::prelude::*;
use vstd::string::*;

verus! {

/// How two places compare.
#[derive(Debug, Clone, Copy, PartialEq, Eq, Structural)]
pub enum CompareResult {
    Equal,
    NotEqual,
    Linked,
}

/// What was found at a path.
#[derive(Debug, PartialEq, Eq)]
pub struct Snapshot {
    /// The path that was looked at.
    pub path: String,
    /// Where the path points, if it is itself a symbolic link.
    pub link: Option<String>,
    /// What the path leads to, links followed; `None` if nothing is there.
    pub node: Option<FsNode>,
}

impl Snapshot {
    /// Something is there.
    pub open spec fn is_present(&self) -> bool {
        self.node is Some
    }

    /// A directory is there.
    pub open spec fn is_dir(&self) -> bool {
        self.node matches Some(FsNode::Dir(_))
    }

    /// A file is there.
    pub open spec fn is_file(&self) -> bool {
        self.node matches Some(FsNode::File(_))
    }

    /// Tells whether a directory is there.
    pub fn holds_dir(&self) -> (r: bool)
        ensures
            r == self.is_dir(),
    {
        match &self.node {
            Some(FsNode::Dir(_)) => true,
            _ => false,
        }
    }
}

/// One of the two is a symbolic link that points at the path of the other.
pub open spec fn linked_spec(a: Snapshot, b: Snapshot) -> bool {
    ||| a.link matches Some(t) && t@ == b.path@
    ||| b.link matches Some(t) && t@ == a.path@
}

/// Some file of the list has the path `path`.
pub open spec fn has_path(files: Seq<(Seq<char>, Seq<u8>)>, path: Seq<char>) -> bool {
    exists|j: int| 0 <= j < files.len() && (#[trigger] files[j]).0 == path
}

/// Two lists hold the same files: as many, under the same paths, and with
/// the same content wherever the paths agree.
pub open spec fn same_files(
    fa: Seq<(Seq<char>, Seq<u8>)>,
    fb: Seq<(Seq<char>, Seq<u8>)>,
) -> bool {
    &&& fa.len() == fb.len()
    &&& forall|i: int| 0 <= i < fa.len() ==> has_path(fb, (#[trigger] fa[i]).0)
    &&& forall|j: int| 0 <= j < fb.len() ==> has_path(fa, (#[trigger] fb[j]).0)
    &&& forall|i: int, j: int|
        0 <= i < fa.len() && 0 <= j < fb.len() && (#[trigger] fa[i]).0 == (#[trigger] fb[j]).0
            ==> fa[i].1 == fb[j].1
}

/// How `a` and `b` compare, where they can be compared: different if only
/// one exists or only one is a directory; linked if one points at the other;
/// else equal exactly if two files hold the same bytes, or two directories
/// hold the same files. Two places where nothing is cannot be compared.
pub open spec fn compare_spec(a: Snapshot, b: Snapshot) -> Option<CompareResult> {
    if a.is_present() != b.is_present() || a.is_dir() != b.is_dir() {
        Some(CompareResult::NotEqual)
    } else if linked_spec(a, b) {
        Some(CompareResult::Linked)
    } else {
        match (a.node, b.node) {
            (Some(FsNode::File(x)), Some(FsNode::File(y))) => Some(
                if x@ == y@ {
                    CompareResult::Equal
                } else {
                    CompareResult::NotEqual
                },
            ),
            (Some(x), Some(y)) => Some(
                if same_files(files_of(x, Seq::empty(), false), files_of(y, Seq::empty(), false)) {
                    CompareResult::Equal
                } else {
                    CompareResult::NotEqual
                },
            ),
            _ => None,
        }
    }
}

/// Tells whether two files hold the same bytes. The lengths are compared
/// first.
pub fn compare_file(a: &Vec<u8>, b: &Vec<u8>) -> (r: bool)
    ensures
        r == (a@ == b@),
{
    if a.len() != b.len() {
        return false;
    }
    let mut i: usize = 0;
    while i < a.len()
        invariant
            a.len() == b.len(),
            i <= a.len(),
            forall|k: int| 0 <= k < i ==> a@[k] == b@[k],
        decreases a.len() - i,
    {
        if a[i] != b[i] {
            return false;
        }
        i = i + 1;
    }
    proof {
        assert(a@ =~= b@);
    }
    true
}

/// Every file below `node`, with its path relative to `node`. Hidden entries
/// are walked like any other.
pub fn walk_dir(node: &FsNode) -> (r: Vec<FileEntry>)
    ensures
        file_views(r@) == files_of(*node, Seq::empty(), false),
{
    let mut files: Vec<FileEntry> = Vec::new();
    let mut dirs: Vec<String> = Vec::new();
    proof {
        reveal_strlit("");
        assert(""@ =~= Seq::<char>::empty());
        assert(file_views(files@) =~= Seq::<(Seq<char>, Seq<u8>)>::empty());
    }
    walk_into(node, "", false, &mut files, &mut dirs);
    proof {
        assert(file_views(files@) =~= files_of(*node, Seq::empty(), false));
    }
    files
}

/// Tells whether one of the two is a symbolic link to the other.
pub fn linked_paths(a: &Snapshot, b: &Snapshot) -> (r: bool)
    ensures
        r == linked_spec(*a, *b),
{
    if let Some(t) = &a.link {
        if str_eq(t.as_str(), b.path.as_str()) {
            return true;
        }
    }
    if let Some(t) = &b.link {
        if str_eq(t.as_str(), a.path.as_str()) {
            return true;
        }
    }
    false
}

/// Tells whether some file of `files` has the path `path`, and whether every
/// such file has the content `content`.
fn find_path(files: &Vec<FileEntry>, path: &str, content: &Vec<u8>) -> (r: (bool, bool))
    ensures
        r.0 == has_path(file_views(files@), path@),
        r.1 == forall|j: int|
            0 <= j < files@.len() && (#[trigger] file_views(files@)[j]).0 == path@ ==> file_views(
                files@,
            )[j].1 == content@,
{
    let ghost v = file_views(files@);
    let mut found = false;
    let mut agree = true;
    let mut j: usize = 0;
    while j < files.len()
        invariant
            j <= files.len(),
            v == file_views(files@),
            found == exists|k: int| 0 <= k < j && (#[trigger] v[k]).0 == path@,
            agree == forall|k: int| 0 <= k < j && (#[trigger] v[k]).0 == path@ ==> v[k].1 == content@,
        decreases files.len() - j,
    {
        proof {
            assert(v[j as int] == files@[j as int]@);
        }
        if str_eq(files[j].path.as_str(), path) {
            found = true;
            if !compare_file(&files[j].content, content) {
                agree = false;
            }
        }
        j = j + 1;
    }
    (found, agree)
}

/// Tells whether two lists hold the same files.
pub fn same_listing(fa: &Vec<FileEntry>, fb: &Vec<FileEntry>) -> (r: bool)
    ensures
        r == same_files(file_views(fa@), file_views(fb@)),
{
    let ghost va = file_views(fa@);
    let ghost vb = file_views(fb@);
    if fa.len() != fb.len() {
        return false;
    }
    let mut i: usize = 0;
    while i < fa.len()
        invariant
            i <= fa.len(),
            va == file_views(fa@),
            vb == file_views(fb@),
            forall|k: int| 0 <= k < i ==> has_path(vb, (#[trigger] va[k]).0),
            forall|k: int, j: int|
                0 <= k < i && 0 <= j < vb.len() && (#[trigger] va[k]).0 == (#[trigger] vb[j]).0
                    ==> va[k].1 == vb[j].1,
        decreases fa.len() - i,
    {
        let (found, agree) = find_path(fb, fa[i].path.as_str(), &fa[i].content);
        proof {
            assert(va[i as int] == fa@[i as int]@);
        }
        if !found || !agree {
            return false;
        }
        i = i + 1;
    }
    let mut j: usize = 0;
    while j < fb.len()
        invariant
            j <= fb.len(),
            va == file_views(fa@),
            vb == file_views(fb@),
            va.len() == vb.len(),
            forall|k: int| 0 <= k < va.len() ==> has_path(vb, (#[trigger] va[k]).0),
            forall|k: int, j: int|
                0 <= k < va.len() && 0 <= j < vb.len() && (#[trigger] va[k]).0 == (
                #[trigger] vb[j]).0 ==> va[k].1 == vb[j].1,
            forall|k: int| 0 <= k < j ==> has_path(va, (#[trigger] vb[k]).0),
        decreases fb.len() - j,
    {
        let (found, _) = find_path(fa, fb[j].path.as_str(), &fb[j].content);
        proof {
            assert(vb[j as int] == fb@[j as int]@);
        }
        if !found {
            return false;
        }
        j = j + 1;
    }
    true
}

/// Compares two places. Where nothing is at either, there is nothing to
/// read, and the path of the first is reported.
pub fn compare_paths(a: &Snapshot, b: &Snapshot) -> (r: Result<CompareResult, DotError>)
    ensures
        match r {
            Ok(c) => compare_spec(*a, *b) == Some(c),
            Err(e) => compare_spec(*a, *b) is None && e.kind() == ErrorKind::Unreadable
                && e.spec_subject() == a.path@,
        },
{
    if a.node.is_some() != b.node.is_some() || a.holds_dir() != b.holds_dir() {
        return Ok(CompareResult::NotEqual);
    }
    if linked_paths(a, b) {
        return Ok(CompareResult::Linked);
    }
    match (&a.node, &b.node) {
        (Some(FsNode::File(x)), Some(FsNode::File(y))) => {
            if compare_file(x, y) {
                Ok(CompareResult::Equal)
            } else {
                Ok(CompareResult::NotEqual)
            }
        },
        (Some(x), Some(y)) => {
            let fa = walk_dir(x);
            let fb = walk_dir(y);
            if same_listing(&fa, &fb) {
                Ok(CompareResult::Equal)
            } else {
                Ok(CompareResult::NotEqual)
            }
        },
        _ => Err(DotError::Unreadable(a.path.clone())),
    }
}

} // verus!
