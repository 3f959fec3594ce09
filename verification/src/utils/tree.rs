//! A directory tree as a value, and the lists of what stands in it.

use crate::text::concat_str;
use vstd::prelude::*;
use vstd::string::*;

verus! {

/// A file with its content, or a directory with its entries.
#[derive(Debug, PartialEq, Eq)]
pub enum FsNode {
    File(Vec<u8>),
    Dir(Vec<DirEntry>),
}

/// One entry of a directory.
#[derive(Debug, PartialEq, Eq)]
pub struct DirEntry {
    pub name: String,
    pub node: FsNode,
}

/// A file of a tree, with its path relative to the root of the tree.
#[derive(Debug, PartialEq, Eq)]
pub struct FileEntry {
    pub path: String,
    pub content: Vec<u8>,
}

impl View for FileEntry {
    type V = (Seq<char>, Seq<u8>);

    open spec fn view(&self) -> (Seq<char>, Seq<u8>) {
        (self.path@, self.content@)
    }
}

/// The files of a list, each as its path and content.
pub open spec fn file_views(files: Seq<FileEntry>) -> Seq<(Seq<char>, Seq<u8>)> {
    Seq::new(files.len(), |i: int| files[i]@)
}

/// The paths of a list.
pub open spec fn path_views(paths: Seq<String>) -> Seq<Seq<char>> {
    Seq::new(paths.len(), |i: int| paths[i]@)
}

/// A name that starts with a dot.
pub open spec fn is_hidden(name: Seq<char>) -> bool {
    name.len() > 0 && name[0] == '.'
}

/// An entry that the walk enters: every one, or every one that is not hidden.
pub open spec fn entered(name: Seq<char>, skip_hidden: bool) -> bool {
    !(skip_hidden && is_hidden(name))
}

/// The path of the entry `name` of the directory at `prefix`; the root of
/// the tree has the empty path.
pub open spec fn child_path(prefix: Seq<char>, name: Seq<char>) -> Seq<char> {
    if prefix.len() == 0 {
        name
    } else {
        prefix + seq!['/'] + name
    }
}

/// The files below `node`, which stands at `prefix`, in the order of the
/// walk: each with its path and content.
pub open spec fn files_of(node: FsNode, prefix: Seq<char>, skip_hidden: bool) -> Seq<
    (Seq<char>, Seq<u8>),
>
    decreases node,
{
    match node {
        FsNode::File(content) => seq![(prefix, content@)],
        FsNode::Dir(entries) => files_in(entries@, entries@.len(), prefix, skip_hidden),
    }
}

/// The files below the first `n` entries of a directory at `prefix`.
pub open spec fn files_in(
    entries: Seq<DirEntry>,
    n: nat,
    prefix: Seq<char>,
    skip_hidden: bool,
) -> Seq<(Seq<char>, Seq<u8>)>
    decreases entries, n,
{
    if n == 0 || n > entries.len() {
        Seq::empty()
    } else {
        let entry = entries[n - 1];
        let before = files_in(entries, (n - 1) as nat, prefix, skip_hidden);
        if entered(entry.name@, skip_hidden) {
            before + files_of(entry.node, child_path(prefix, entry.name@), skip_hidden)
        } else {
            before
        }
    }
}

/// The directories below `node`, which stands at `prefix`, in the order of
/// the walk. The node itself is not among them.
pub open spec fn dirs_of(node: FsNode, prefix: Seq<char>, skip_hidden: bool) -> Seq<Seq<char>>
    decreases node,
{
    match node {
        FsNode::File(_) => Seq::empty(),
        FsNode::Dir(entries) => dirs_in(entries@, entries@.len(), prefix, skip_hidden),
    }
}

/// The directories among and below the first `n` entries of a directory at
/// `prefix`.
pub open spec fn dirs_in(
    entries: Seq<DirEntry>,
    n: nat,
    prefix: Seq<char>,
    skip_hidden: bool,
) -> Seq<Seq<char>>
    decreases entries, n,
{
    if n == 0 || n > entries.len() {
        Seq::empty()
    } else {
        let entry = entries[n - 1];
        let before = dirs_in(entries, (n - 1) as nat, prefix, skip_hidden);
        if entered(entry.name@, skip_hidden) {
            let path = child_path(prefix, entry.name@);
            let own = if entry.node is Dir {
                seq![path]
            } else {
                Seq::empty()
            };
            before + own + dirs_of(entry.node, path, skip_hidden)
        } else {
            before
        }
    }
}

/// Tells whether a name starts with a dot.
pub fn name_is_hidden(name: &str) -> (r: bool)
    ensures
        r == is_hidden(name@),
{
    let n: usize = name.unicode_len();
    n > 0 && name.get_char(0) == '.'
}

/// The path of the entry `name` of the directory at `prefix`.
pub fn child_of(prefix: &str, name: &str) -> (r: String)
    ensures
        r@ == child_path(prefix@, name@),
{
    let n: usize = prefix.unicode_len();
    if n == 0 {
        return String::from_str(name);
    }
    proof {
        reveal_strlit("/");
        assert("/"@ =~= seq!['/']);
    }
    let mut r = concat_str(prefix, "/");
    r.append(name);
    r
}

/// A copy of `bytes`.
pub fn copy_bytes(bytes: &Vec<u8>) -> (r: Vec<u8>)
    ensures
        r@ == bytes@,
{
    let mut r: Vec<u8> = Vec::new();
    let mut i: usize = 0;
    while i < bytes.len()
        invariant
            i <= bytes.len(),
            r@ == bytes@.subrange(0, i as int),
        decreases bytes.len() - i,
    {
        r.push(bytes[i]);
        proof {
            assert(r@ =~= bytes@.subrange(0, i + 1));
        }
        i = i + 1;
    }
    proof {
        assert(bytes@.subrange(0, bytes.len() as int) =~= bytes@);
    }
    r
}

/// Walks `node`, which stands at `prefix`, and adds what it finds to `files`
/// and `dirs`.
pub fn walk_into(
    node: &FsNode,
    prefix: &str,
    skip_hidden: bool,
    files: &mut Vec<FileEntry>,
    dirs: &mut Vec<String>,
)
    ensures
        file_views(final(files)@) == file_views(old(files)@) + files_of(
            *node,
            prefix@,
            skip_hidden,
        ),
        path_views(final(dirs)@) == path_views(old(dirs)@) + dirs_of(*node, prefix@, skip_hidden),
    decreases node,
{
    match node {
        FsNode::File(content) => {
            files.push(FileEntry { path: String::from_str(prefix), content: copy_bytes(content) });
            proof {
                assert(file_views(files@) =~= file_views(old(files)@) + seq![(prefix@, content@)]);
                assert(path_views(dirs@) =~= path_views(old(dirs)@) + Seq::<Seq<char>>::empty());
            }
        },
        FsNode::Dir(entries) => {
            let mut i: usize = 0;
            proof {
                assert(file_views(files@) =~= file_views(old(files)@) + Seq::<
                    (Seq<char>, Seq<u8>),
                >::empty());
                assert(path_views(dirs@) =~= path_views(old(dirs)@) + Seq::<Seq<char>>::empty());
            }
            while i < entries.len()
                invariant
                    i <= entries.len(),
                    *node == FsNode::Dir(*entries),
                    file_views(files@) == file_views(old(files)@) + files_in(
                        entries@,
                        i as nat,
                        prefix@,
                        skip_hidden,
                    ),
                    path_views(dirs@) == path_views(old(dirs)@) + dirs_in(
                        entries@,
                        i as nat,
                        prefix@,
                        skip_hidden,
                    ),
                decreases entries.len() - i,
            {
                let entry = &entries[i];
                let ghost files_before = file_views(files@);
                let ghost dirs_before = path_views(dirs@);
                if !(skip_hidden && name_is_hidden(entry.name.as_str())) {
                    let path = child_of(prefix, entry.name.as_str());
                    if let FsNode::Dir(_) = entry.node {
                        dirs.push(path.clone());
                    }
                    let ghost dirs_mid = path_views(dirs@);
                    proof {
                        let own: Seq<Seq<char>> = if entry.node is Dir {
                            seq![path@]
                        } else {
                            Seq::empty()
                        };
                        assert(dirs_mid =~= dirs_before + own);
                    }
                    proof {
                        assert(node->Dir_0 == *entries);
                        assert(decreases_to!(*node => node->Dir_0));
                        assert(decreases_to!(*entries => entries[i as int]));
                    }
                    walk_into(&entry.node, path.as_str(), skip_hidden, files, dirs);
                    proof {
                        let own: Seq<Seq<char>> = if entry.node is Dir {
                            seq![path@]
                        } else {
                            Seq::empty()
                        };
                        assert(file_views(files@) =~= file_views(old(files)@) + (files_in(
                            entries@,
                            i as nat,
                            prefix@,
                            skip_hidden,
                        ) + files_of(entry.node, path@, skip_hidden)));
                        assert(path_views(dirs@) =~= path_views(old(dirs)@) + (dirs_in(
                            entries@,
                            i as nat,
                            prefix@,
                            skip_hidden,
                        ) + own + dirs_of(entry.node, path@, skip_hidden)));
                    }
                }
                i = i + 1;
            }
        },
    }
}

} // verus!
