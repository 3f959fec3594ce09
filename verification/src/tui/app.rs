//! What the terminal front end shows and how the keys change it.

use crate::commands::add::{copy_plan, tracked_entry};
use crate::commands::plan::{plan_view, FsAction, PathFacts};
use crate::error::{DotError, ErrorKind};
use crate::models::path_name::resolve;
use crate::models::{Config, ConfigView, DotPath, DotfileEntry, EntryView};
use crate::text::{concat_str, lemma_lex_irreflexive, lemma_lex_transitive, lex_lt, str_eq, str_lt};
use crate::utils::path::{EnvView, PathEnv};
use vstd::prelude::*;
use vstd::seq_lib::to_multiset_insert;
use vstd::string::*;

verus! {

/// The pages of the front end.
#[derive(Debug, Clone, Copy, PartialEq, Eq, Structural)]
pub enum Tab {
    Managed,
    Staged,
    Help,
}

/// The dialog that is open, if any.
#[derive(Debug, Clone, PartialEq)]
pub enum DialogState {
    Closed,
    AddFile,
    Confirm(String),
}

/// What the caller has to do after the enter key.
#[derive(Debug, PartialEq, Eq)]
pub enum EnterStep {
    /// Nothing.
    Nothing,
    /// Track the dotfile at this path, then report how that went.
    Add(String),
    /// Write the manifest to disk.
    Save,
}

/// The state of the front end.
pub struct App {
    pub config: Config,
    pub repo_path: String,
    pub current_tab: Tab,
    pub tracked_dotfiles: Vec<(DotPath, DotfileEntry)>,
    pub staged_dotfiles: Vec<(DotPath, DotfileEntry)>,
    pub selected_tracked: usize,
    pub selected_staged: usize,
    pub dialog_state: DialogState,
    pub input_text: String,
    pub message: Option<String>,
    pub error_message: Option<String>,
}

/// The dotfiles stand in rising order of their names.
pub open spec fn sorted_by_name(list: Seq<(DotPath, DotfileEntry)>) -> bool {
    forall|i: int, j: int|
        0 <= i < j < list.len() ==> !lex_lt(
            (#[trigger] list[j]).0@.rel_path,
            (#[trigger] list[i]).0@.rel_path,
        )
}

/// The place that comes after `selected` among `len` lines, going round.
pub open spec fn next_place(selected: usize, len: nat) -> int {
    if len == 0 {
        selected as int
    } else {
        (selected + 1) % (len as int)
    }
}

/// The place that comes before `selected` among `len` lines, going round.
pub open spec fn previous_place(selected: usize, len: nat) -> int {
    if len == 0 {
        selected as int
    } else if selected == 0 {
        len - 1
    } else {
        selected - 1
    }
}

/// The place that stays selected when the list has `len` lines: the last
/// line if the place lies behind it.
pub open spec fn clamped(selected: usize, len: nat) -> int {
    if selected >= len && len > 0 {
        len - 1
    } else {
        selected as int
    }
}

/// The tab after `tab`.
pub open spec fn tab_after(tab: Tab) -> Tab {
    match tab {
        Tab::Managed => Tab::Staged,
        Tab::Staged => Tab::Help,
        Tab::Help => Tab::Managed,
    }
}

/// The tab before `tab`.
pub open spec fn tab_before(tab: Tab) -> Tab {
    match tab {
        Tab::Managed => Tab::Help,
        Tab::Staged => Tab::Managed,
        Tab::Help => Tab::Staged,
    }
}

/// Going to the next tab and back, or back and on, leads to the same tab,
/// and three steps lead round.
pub proof fn lemma_tabs_cycle(tab: Tab)
    ensures
        tab_before(tab_after(tab)) == tab,
        tab_after(tab_before(tab)) == tab,
        tab_after(tab_after(tab_after(tab))) == tab,
{
}

/// An optional text as a plain sequence.
pub open spec fn text_view(o: Option<String>) -> Option<Seq<char>> {
    match o {
        Some(s) => Some(s@),
        None => None,
    }
}

fn copy_pair(p: &(DotPath, DotfileEntry)) -> (r: (DotPath, DotfileEntry))
    ensures
        r == *p,
{
    (p.0.clone(), p.1.clone())
}

/// The same dotfiles in rising order of their names; dotfiles of one name
/// keep their order.
pub fn sort_by_name(list: &Vec<(DotPath, DotfileEntry)>) -> (r: Vec<(DotPath, DotfileEntry)>)
    ensures
        sorted_by_name(r@),
        r@.to_multiset() == list@.to_multiset(),
        r@.len() == list@.len(),
{
    let mut r: Vec<(DotPath, DotfileEntry)> = Vec::new();
    let mut n: usize = 0;
    proof {
        assert(list@.subrange(0, 0) =~= r@);
    }
    while n < list.len()
        invariant
            n <= list.len(),
            sorted_by_name(r@),
            r@.to_multiset() == list@.subrange(0, n as int).to_multiset(),
            r@.len() == n,
        decreases list.len() - n,
    {
        let item = copy_pair(&list[n]);
        let ghost x = item.0@.rel_path;
        let ghost before = r@;
        let mut k: usize = 0;
        while k < r.len() && !str_lt(item.0.rel_path.as_str(), r[k].0.rel_path.as_str())
            invariant
                k <= r.len(),
                x == item.0@.rel_path,
                forall|i: int| 0 <= i < k ==> !lex_lt(x, (#[trigger] r@[i]).0@.rel_path),
            decreases r.len() - k,
        {
            k = k + 1;
        }
        r.insert(k, item);
        proof {
            let after = r@;
            assert(after =~= before.insert(k as int, item));
            to_multiset_insert(before, k as int, item);
            let prefix = list@.subrange(0, n as int);
            assert(list@.subrange(0, n + 1) =~= prefix.push(list@[n as int]));
            vstd::seq_lib::to_multiset_build(prefix, list@[n as int]);
            assert forall|i: int, j: int| 0 <= i < j < after.len() implies !lex_lt(
                (#[trigger] after[j]).0@.rel_path,
                (#[trigger] after[i]).0@.rel_path,
            ) by {
                if j < k {
                    assert(after[i] == before[i] && after[j] == before[j]);
                } else if j == k {
                    assert(after[i] == before[i]);
                } else if i < k {
                    assert(after[i] == before[i] && after[j] == before[j - 1]);
                } else if i == k {
                    assert(after[j] == before[j - 1]);
                    let y = before[k as int].0@.rel_path;
                    let z = before[j - 1].0@.rel_path;
                    assert(lex_lt(x, y));
                    if lex_lt(z, x) {
                        lemma_lex_transitive(z, x, y);
                        if j - 1 == k {
                            lemma_lex_irreflexive(y);
                        }
                    }
                } else {
                    assert(after[i] == before[i - 1] && after[j] == before[j - 1]);
                }
            }
        }
        n = n + 1;
    }
    proof {
        assert(list@.subrange(0, list.len() as int) =~= list@);
    }
    r
}

/// `item` is the dotfile of one of `names`, with the entry that `entries`
/// holds under that name.
pub open spec fn listed_item(
    item: (DotPath, DotfileEntry),
    names: Seq<Seq<char>>,
    entries: Map<Seq<char>, EntryView>,
    config: ConfigView,
    env: EnvView,
) -> bool {
    exists|k: int|
        0 <= k < names.len() && item.0@ == resolve(
            #[trigger] names[k],
            config.repo_path,
            config.staging_path,
            env,
        ) && item.1@ == entries[names[k]]
}

/// One of the dotfiles of `list` is the dotfile of `name`, with the entry
/// that `entries` holds under it.
pub open spec fn lists_name(
    list: Seq<(DotPath, DotfileEntry)>,
    name: Seq<char>,
    entries: Map<Seq<char>, EntryView>,
    config: ConfigView,
    env: EnvView,
) -> bool {
    exists|i: int|
        0 <= i < list.len() && (#[trigger] list[i]).0@ == resolve(
            name,
            config.repo_path,
            config.staging_path,
            env,
        ) && list[i].1@ == entries[name]
}

/// `list` shows the dotfiles of `names`: sorted by name, as many as there
/// are names, each the dotfile of one of them, and each of them listed.
pub open spec fn shows(
    list: Seq<(DotPath, DotfileEntry)>,
    names: Seq<Seq<char>>,
    entries: Map<Seq<char>, EntryView>,
    config: ConfigView,
    env: EnvView,
) -> bool {
    &&& sorted_by_name(list)
    &&& list.len() == names.len()
    &&& forall|i: int|
        0 <= i < list.len() ==> listed_item(#[trigger] list[i], names, entries, config, env)
    &&& forall|k: int|
        0 <= k < names.len() ==> lists_name(list, #[trigger] names[k], entries, config, env)
}

/// A sorted rearrangement of the dotfiles of `names` shows them.
proof fn lemma_sorted_shows(
    plain: Seq<(DotPath, DotfileEntry)>,
    sorted: Seq<(DotPath, DotfileEntry)>,
    names: Seq<Seq<char>>,
    entries: Map<Seq<char>, EntryView>,
    config: ConfigView,
    env: EnvView,
)
    requires
        plain.len() == names.len(),
        forall|i: int|
            0 <= i < plain.len() ==> (#[trigger] plain[i]).0@ == resolve(
                names[i],
                config.repo_path,
                config.staging_path,
                env,
            ) && plain[i].1@ == entries[names[i]],
        sorted_by_name(sorted),
        sorted.to_multiset() == plain.to_multiset(),
        sorted.len() == plain.len(),
    ensures
        shows(sorted, names, entries, config, env),
{
    assert forall|i: int| 0 <= i < sorted.len() implies listed_item(
        #[trigger] sorted[i],
        names,
        entries,
        config,
        env,
    ) by {
        let item = sorted[i];
        sorted.to_multiset_ensures();
        plain.to_multiset_ensures();
        assert(sorted.contains(item));
        assert(sorted.to_multiset().count(item) > 0);
        assert(plain.to_multiset().count(item) > 0);
        assert(plain.contains(item));
        let k = plain.index_of(item);
        assert(plain[k] == item);
        assert(item.0@ == resolve(names[k], config.repo_path, config.staging_path, env));
    }
    assert forall|k: int| 0 <= k < names.len() implies lists_name(
        sorted,
        #[trigger] names[k],
        entries,
        config,
        env,
    ) by {
        let item = plain[k];
        sorted.to_multiset_ensures();
        plain.to_multiset_ensures();
        assert(plain.contains(item));
        assert(plain.to_multiset().count(item) > 0);
        assert(sorted.to_multiset().count(item) > 0);
        assert(sorted.contains(item));
        let i = sorted.index_of(item);
        assert(sorted[i] == item);
    }
}

fn clamp(selected: usize, len: usize) -> (r: usize)
    ensures
        r == clamped(selected, len as nat),
{
    if selected >= len && len > 0 {
        len - 1
    } else {
        selected
    }
}

impl App {
    /// The manifest is in order, and no selection stands at the very end
    /// of the range of its type.
    pub open spec fn wf(&self) -> bool {
        &&& self.config.wf()
        &&& self.selected_tracked < usize::MAX
        &&& self.selected_staged < usize::MAX
    }

    /// The front end for a manifest that was just read, on its first tab,
    /// with nothing selected beyond the first line, no dialog and no
    /// message.
    pub fn new(repo_path: String, config: Config, env: &PathEnv) -> (r: Self)
        requires
            config.wf(),
            env.wf(),
        ensures
            r.wf(),
            r.config == config,
            r.repo_path == repo_path,
            r.current_tab == Tab::Managed,
            r.selected_tracked == 0,
            r.selected_staged == 0,
            r.dialog_state == DialogState::Closed,
            r.input_text@.len() == 0,
            r.message is None,
            r.error_message is None,
            r.lists_current(env@),
    {
        let mut app = App {
            config,
            repo_path,
            current_tab: Tab::Managed,
            tracked_dotfiles: Vec::new(),
            staged_dotfiles: Vec::new(),
            selected_tracked: 0,
            selected_staged: 0,
            dialog_state: DialogState::Closed,
            input_text: String::new(),
            message: None,
            error_message: None,
        };
        app.refresh(env);
        app
    }

    /// The two lists show what the manifest holds: they are sorted by name
    /// and hold the tracked and the staged dotfiles.
    pub open spec fn lists_current(&self, env: EnvView) -> bool {
        &&& shows(
            self.tracked_dotfiles@,
            self.config.tracked_names(),
            self.config@.dotfiles,
            self.config@,
            env,
        )
        &&& shows(
            self.staged_dotfiles@,
            self.config.staged_names(),
            self.config@.staged,
            self.config@,
            env,
        )
    }

    /// Brings the two lists up to date with the manifest, and moves a
    /// selection that lies behind the end of its list to the last line.
    pub fn refresh(&mut self, env: &PathEnv)
        requires
            old(self).wf(),
            env.wf(),
        ensures
            final(self).wf(),
            final(self).lists_current(env@),
            final(self).selected_tracked == clamped(
                old(self).selected_tracked,
                final(self).tracked_dotfiles@.len(),
            ),
            final(self).selected_staged == clamped(
                old(self).selected_staged,
                final(self).staged_dotfiles@.len(),
            ),
            final(self).config == old(self).config,
            final(self).repo_path == old(self).repo_path,
            final(self).current_tab == old(self).current_tab,
            final(self).dialog_state == old(self).dialog_state,
            final(self).input_text == old(self).input_text,
            final(self).message == old(self).message,
            final(self).error_message == old(self).error_message,
    {
        let managed = self.config.get(env);
        let staged = self.config.get_staged(env);
        let sorted_managed = sort_by_name(&managed);
        let sorted_staged = sort_by_name(&staged);
        proof {
            lemma_sorted_shows(
                managed@,
                sorted_managed@,
                self.config.tracked_names(),
                self.config@.dotfiles,
                self.config@,
                env@,
            );
            lemma_sorted_shows(
                staged@,
                sorted_staged@,
                self.config.staged_names(),
                self.config@.staged,
                self.config@,
                env@,
            );
        }
        self.tracked_dotfiles = sorted_managed;
        self.staged_dotfiles = sorted_staged;
        self.selected_tracked = clamp(self.selected_tracked, self.tracked_dotfiles.len());
        self.selected_staged = clamp(self.selected_staged, self.staged_dotfiles.len());
    }

    /// Takes a manifest that was read anew and brings the lists up to date.
    pub fn reload(&mut self, config: Config, env: &PathEnv)
        requires
            old(self).wf(),
            config.wf(),
            env.wf(),
        ensures
            final(self).wf(),
            final(self).config == config,
            final(self).lists_current(env@),
            final(self).current_tab == old(self).current_tab,
            final(self).dialog_state == old(self).dialog_state,
            final(self).input_text == old(self).input_text,
            final(self).message == old(self).message,
            final(self).error_message == old(self).error_message,
    {
        self.config = config;
        self.refresh(env);
    }

    /// Selects the next line of the list that is shown, going from the last
    /// to the first.
    pub fn next(&mut self)
        requires
            old(self).wf(),
        ensures
            final(self).wf(),
            final(self).selected_tracked == if old(self).current_tab == Tab::Managed {
                next_place(old(self).selected_tracked, old(self).tracked_dotfiles@.len())
            } else {
                old(self).selected_tracked as int
            },
            final(self).selected_staged == if old(self).current_tab == Tab::Staged {
                next_place(old(self).selected_staged, old(self).staged_dotfiles@.len())
            } else {
                old(self).selected_staged as int
            },
            final(self).unchanged_but_selection(*old(self)),
    {
        match self.current_tab {
            Tab::Managed => {
                if self.tracked_dotfiles.len() > 0 {
                    self.selected_tracked = (self.selected_tracked + 1)
                        % self.tracked_dotfiles.len();
                }
            },
            Tab::Staged => {
                if self.staged_dotfiles.len() > 0 {
                    self.selected_staged = (self.selected_staged + 1) % self.staged_dotfiles.len();
                }
            },
            Tab::Help => {},
        }
    }

    /// Everything but the two selections is as in `other`.
    pub open spec fn unchanged_but_selection(&self, other: App) -> bool {
        &&& self.config == other.config
        &&& self.repo_path == other.repo_path
        &&& self.current_tab == other.current_tab
        &&& self.tracked_dotfiles == other.tracked_dotfiles
        &&& self.staged_dotfiles == other.staged_dotfiles
        &&& self.dialog_state == other.dialog_state
        &&& self.input_text == other.input_text
        &&& self.message == other.message
        &&& self.error_message == other.error_message
    }

    /// Selects the line before, going from the first to the last.
    pub fn previous(&mut self)
        requires
            old(self).wf(),
        ensures
            final(self).wf(),
            final(self).selected_tracked == if old(self).current_tab == Tab::Managed {
                previous_place(old(self).selected_tracked, old(self).tracked_dotfiles@.len())
            } else {
                old(self).selected_tracked as int
            },
            final(self).selected_staged == if old(self).current_tab == Tab::Staged {
                previous_place(old(self).selected_staged, old(self).staged_dotfiles@.len())
            } else {
                old(self).selected_staged as int
            },
            final(self).unchanged_but_selection(*old(self)),
    {
        match self.current_tab {
            Tab::Managed => {
                if self.tracked_dotfiles.len() > 0 {
                    self.selected_tracked = if self.selected_tracked == 0 {
                        self.tracked_dotfiles.len() - 1
                    } else {
                        self.selected_tracked - 1
                    };
                }
            },
            Tab::Staged => {
                if self.staged_dotfiles.len() > 0 {
                    self.selected_staged = if self.selected_staged == 0 {
                        self.staged_dotfiles.len() - 1
                    } else {
                        self.selected_staged - 1
                    };
                }
            },
            Tab::Help => {},
        }
    }

    /// Everything but the tab is as in `other`.
    pub open spec fn unchanged_but_tab(&self, other: App) -> bool {
        &&& self.config == other.config
        &&& self.repo_path == other.repo_path
        &&& self.tracked_dotfiles == other.tracked_dotfiles
        &&& self.staged_dotfiles == other.staged_dotfiles
        &&& self.selected_tracked == other.selected_tracked
        &&& self.selected_staged == other.selected_staged
        &&& self.dialog_state == other.dialog_state
        &&& self.input_text == other.input_text
        &&& self.message == other.message
        &&& self.error_message == other.error_message
    }

    /// Goes to the next tab.
    pub fn next_tab(&mut self)
        ensures
            final(self).current_tab == tab_after(old(self).current_tab),
            final(self).unchanged_but_tab(*old(self)),
    {
        self.current_tab = match self.current_tab {
            Tab::Managed => Tab::Staged,
            Tab::Staged => Tab::Help,
            Tab::Help => Tab::Managed,
        };
    }

    /// Goes to the tab before.
    pub fn previous_tab(&mut self)
        ensures
            final(self).current_tab == tab_before(old(self).current_tab),
            final(self).unchanged_but_tab(*old(self)),
    {
        self.current_tab = match self.current_tab {
            Tab::Managed => Tab::Help,
            Tab::Staged => Tab::Managed,
            Tab::Help => Tab::Staged,
        };
    }

    /// Everything but the dialog, the input and the messages is as in
    /// `other`.
    pub open spec fn same_content(&self, other: App) -> bool {
        &&& self.config == other.config
        &&& self.repo_path == other.repo_path
        &&& self.current_tab == other.current_tab
        &&& self.tracked_dotfiles == other.tracked_dotfiles
        &&& self.staged_dotfiles == other.staged_dotfiles
        &&& self.selected_tracked == other.selected_tracked
        &&& self.selected_staged == other.selected_staged
    }

    /// Opens the dialog that asks for a path, with an empty input.
    pub fn show_add_dialog(&mut self)
        ensures
            final(self).dialog_state == DialogState::AddFile,
            final(self).input_text@.len() == 0,
            final(self).same_content(*old(self)),
            final(self).message == old(self).message,
            final(self).error_message == old(self).error_message,
    {
        self.dialog_state = DialogState::AddFile;
        self.input_text = String::new();
    }

    /// Closes the dialog, if one is open, with its input, and clears both
    /// messages.
    pub fn handle_escape(&mut self)
        ensures
            final(self).dialog_state == DialogState::Closed,
            final(self).input_text@ == if old(self).dialog_state == DialogState::Closed {
                old(self).input_text@
            } else {
                Seq::empty()
            },
            final(self).message is None,
            final(self).error_message is None,
            final(self).same_content(*old(self)),
    {
        let open = match &self.dialog_state {
            DialogState::Closed => false,
            _ => true,
        };
        if open {
            self.dialog_state = DialogState::Closed;
            self.input_text = String::new();
        }
        self.message = None;
        self.error_message = None;
    }

    /// Adds a character to the input of the dialog that asks for a path.
    pub fn handle_char_input(&mut self, c: char)
        ensures
            final(self).input_text@ == if old(self).dialog_state == DialogState::AddFile {
                old(self).input_text@.push(c)
            } else {
                old(self).input_text@
            },
            final(self).dialog_state == old(self).dialog_state,
            final(self).same_content(*old(self)),
            final(self).message == old(self).message,
            final(self).error_message == old(self).error_message,
    {
        if let DialogState::AddFile = self.dialog_state {
            let next = push_char(self.input_text.as_str(), c);
            self.input_text = next;
        }
    }

    /// Takes the last character from the input of the dialog that asks for
    /// a path.
    pub fn handle_backspace(&mut self)
        ensures
            final(self).input_text@ == if old(self).dialog_state == DialogState::AddFile
                && old(self).input_text@.len() > 0 {
                old(self).input_text@.drop_last()
            } else {
                old(self).input_text@
            },
            final(self).dialog_state == old(self).dialog_state,
            final(self).same_content(*old(self)),
            final(self).message == old(self).message,
            final(self).error_message == old(self).error_message,
    {
        if let DialogState::AddFile = self.dialog_state {
            let n: usize = self.input_text.as_str().unicode_len();
            if n > 0 {
                let shorter = String::from_str(self.input_text.as_str().substring_char(0, n - 1));
                proof {
                    assert(shorter@ =~= self.input_text@.drop_last());
                }
                self.input_text = shorter;
            }
        }
    }
}

/// Calls `String::push` on a copy of `s`: the result is `s` with `c` at its
/// end, as the documentation of the standard library says.
#[verifier::external_body]
fn push_char(s: &str, c: char) -> (r: String)
    ensures
        r@ == s@.push(c),
{
    let mut r = String::from(s);
    r.push(c);
    r
}

/// What the selected line is called, where a line of a list is selected.
pub open spec fn selected_name(app: App) -> Option<Seq<char>> {
    match app.current_tab {
        Tab::Managed => if app.selected_tracked < app.tracked_dotfiles@.len() {
            Some(app.tracked_dotfiles@[app.selected_tracked as int].0@.rel_path)
        } else {
            None
        },
        Tab::Staged => if app.selected_staged < app.staged_dotfiles@.len() {
            Some(app.staged_dotfiles@[app.selected_staged as int].0@.rel_path)
        } else {
            None
        },
        Tab::Help => None,
    }
}

/// The manifest without the selected dotfile: without its tracked entry on
/// the first tab, without its staged entry on the second.
pub open spec fn without_selected(app: App) -> ConfigView {
    match (app.current_tab, selected_name(app)) {
        (Tab::Managed, Some(name)) => ConfigView {
            dotfiles: app.config@.dotfiles.remove(name),
            ..app.config@
        },
        (Tab::Staged, Some(name)) => ConfigView {
            staged: app.config@.staged.remove(name),
            ..app.config@
        },
        _ => app.config@,
    }
}

/// The manifest holds the selected dotfile in the set that the tab shows.
pub open spec fn holds_selected(app: App) -> bool {
    match (app.current_tab, selected_name(app)) {
        (Tab::Managed, Some(name)) => app.config@.dotfiles.contains_key(name),
        (Tab::Staged, Some(name)) => app.config@.staged.contains_key(name),
        _ => false,
    }
}

/// The manifest after the key that stages and unstages: on the first tab
/// the selected dotfile is staged with the entry that the list shows, on
/// the second it leaves the staged set.
pub open spec fn toggled(app: App) -> ConfigView {
    match (app.current_tab, selected_name(app)) {
        (Tab::Managed, Some(name)) => ConfigView {
            staged: app.config@.staged.insert(
                name,
                app.tracked_dotfiles@[app.selected_tracked as int].1@,
            ),
            ..app.config@
        },
        (Tab::Staged, Some(name)) => ConfigView {
            staged: app.config@.staged.remove(name),
            ..app.config@
        },
        _ => app.config@,
    }
}

impl App {
    /// Everything but the manifest and the two messages is as in `other`.
    pub open spec fn same_screen(&self, other: App) -> bool {
        &&& self.repo_path == other.repo_path
        &&& self.current_tab == other.current_tab
        &&& self.tracked_dotfiles == other.tracked_dotfiles
        &&& self.staged_dotfiles == other.staged_dotfiles
        &&& self.selected_tracked == other.selected_tracked
        &&& self.selected_staged == other.selected_staged
        &&& self.dialog_state == other.dialog_state
        &&& self.input_text == other.input_text
    }

    /// Takes the selected dotfile out of the set that the tab shows: out of
    /// the tracked set on the first tab, out of the staged set on the
    /// second. Without a selected line nothing changes. A dotfile that the
    /// manifest does not hold there is refused.
    pub fn remove_selected(&mut self) -> (r: Result<(), DotError>)
        requires
            old(self).wf(),
        ensures
            final(self).wf(),
            final(self).same_screen(*old(self)),
            final(self).config@ == without_selected(*old(self)),
            match r {
                Ok(_) => match selected_name(*old(self)) {
                    Some(name) => {
                        &&& holds_selected(*old(self))
                        &&& text_view(final(self).message) == Some(
                            if old(self).current_tab == Tab::Managed {
                                "Removed dotfile: "@ + name
                            } else {
                                "Unstaged dotfile: "@ + name
                            },
                        )
                        &&& final(self).error_message is None
                    },
                    None => final(self).message == old(self).message && final(self).error_message
                        == old(self).error_message,
                },
                Err(e) => {
                    &&& selected_name(*old(self)) is Some
                    &&& !holds_selected(*old(self))
                    &&& e.kind() == ErrorKind::NoSuchDotfile
                    &&& e.spec_subject() == selected_name(*old(self))->0
                    &&& final(self).message == old(self).message
                    &&& final(self).error_message == old(self).error_message
                },
            },
    {
        match self.current_tab {
            Tab::Managed => {
                if self.selected_tracked < self.tracked_dotfiles.len() {
                    let dot_path = self.tracked_dotfiles[self.selected_tracked].0.clone();
                    let name = dot_path.display();
                    match self.config.remove(dot_path) {
                        Ok(_) => {},
                        Err(e) => {
                            return Err(e);
                        },
                    }
                    self.message = Some(concat_str("Removed dotfile: ", name.as_str()));
                    self.error_message = None;
                }
            },
            Tab::Staged => {
                if self.selected_staged < self.staged_dotfiles.len() {
                    let dot_path = self.staged_dotfiles[self.selected_staged].0.clone();
                    match self.config.unstage(&dot_path) {
                        Ok(_) => {},
                        Err(e) => {
                            return Err(e);
                        },
                    }
                    self.message = Some(concat_str("Unstaged dotfile: ", dot_path.rel_path.as_str()));
                    self.error_message = None;
                }
            },
            Tab::Help => {},
        }
        Ok(())
    }

    /// Stages the selected dotfile on the first tab, with the entry that
    /// the list shows, and unstages it on the second. Without a selected
    /// line nothing changes. A dotfile to unstage that is not staged is
    /// refused.
    pub fn toggle_stage_selected(&mut self) -> (r: Result<(), DotError>)
        requires
            old(self).wf(),
        ensures
            final(self).wf(),
            final(self).same_screen(*old(self)),
            final(self).config@ == toggled(*old(self)),
            match r {
                Ok(_) => match selected_name(*old(self)) {
                    Some(name) => {
                        &&& old(self).current_tab == Tab::Staged ==> holds_selected(*old(self))
                        &&& text_view(final(self).message) == Some(
                            if old(self).current_tab == Tab::Managed {
                                "Staged dotfile: "@ + name
                            } else {
                                "Unstaged dotfile: "@ + name
                            },
                        )
                        &&& final(self).error_message is None
                    },
                    None => final(self).message == old(self).message && final(self).error_message
                        == old(self).error_message,
                },
                Err(e) => {
                    &&& old(self).current_tab == Tab::Staged
                    &&& selected_name(*old(self)) is Some
                    &&& !holds_selected(*old(self))
                    &&& e.kind() == ErrorKind::NoSuchDotfile
                    &&& e.spec_subject() == selected_name(*old(self))->0
                    &&& final(self).message == old(self).message
                    &&& final(self).error_message == old(self).error_message
                },
            },
    {
        match self.current_tab {
            Tab::Managed => {
                if self.selected_tracked < self.tracked_dotfiles.len() {
                    let dot_path = self.tracked_dotfiles[self.selected_tracked].0.clone();
                    let entry = self.tracked_dotfiles[self.selected_tracked].1.clone();
                    self.config.stage(&dot_path, entry);
                    self.message = Some(concat_str("Staged dotfile: ", dot_path.rel_path.as_str()));
                    self.error_message = None;
                }
            },
            Tab::Staged => {
                if self.selected_staged < self.staged_dotfiles.len() {
                    let dot_path = self.staged_dotfiles[self.selected_staged].0.clone();
                    match self.config.unstage(&dot_path) {
                        Ok(_) => {},
                        Err(e) => {
                            return Err(e);
                        },
                    }
                    self.message = Some(concat_str("Unstaged dotfile: ", dot_path.rel_path.as_str()));
                    self.error_message = None;
                }
            },
            Tab::Help => {},
        }
        Ok(())
    }

    /// Starts tracking the dotfile that `path` names, in the manifest of
    /// the front end. `source` tells what is at its live path. The plan
    /// copies the live content to the repository; a path at which nothing
    /// is is refused and changes nothing.
    pub fn add_dotfile(&mut self, path: &str, env: &PathEnv, source: &PathFacts) -> (r: Result<
        Vec<FsAction>,
        DotError,
    >)
        requires
            old(self).wf(),
            env.wf(),
        ensures
            final(self).wf(),
            final(self).same_screen(*old(self)),
            final(self).message == old(self).message,
            final(self).error_message == old(self).error_message,
            ({
                let dotpath = resolve(
                    path@,
                    old(self).config@.repo_path,
                    old(self).config@.staging_path,
                    env@,
                );
                match r {
                    Ok(plan) => {
                        &&& source.present
                        &&& plan_view(plan@) == copy_plan(
                            dotpath.abs_target,
                            dotpath.abs_path,
                            dotpath.abs_target,
                            source.is_dir,
                        )
                        &&& final(self).config@ == (ConfigView {
                            dotfiles: old(self).config@.dotfiles.insert(
                                dotpath.rel_path,
                                tracked_entry(dotpath),
                            ),
                            ..old(self).config@
                        })
                    },
                    Err(e) => {
                        &&& !source.present
                        &&& e.kind() == ErrorKind::SourceNotFound
                        &&& e.spec_subject() == dotpath.abs_path
                        &&& final(self).config@ == old(self).config@
                    },
                }
            }),
    {
        let dot_path = DotPath::new(&self.config, path, env);
        crate::commands::add::add_dotfile(&mut self.config, &dot_path, source)
    }

    /// Shows how tracking the dotfile at `path` went.
    pub fn add_finished(&mut self, path: &str, outcome: &Result<(), DotError>)
        ensures
            final(self).config == old(self).config,
            final(self).same_screen(*old(self)),
            match outcome {
                Ok(_) => text_view(final(self).message) == Some("Added dotfile: "@ + path@)
                    && final(self).error_message is None,
                Err(e) => text_view(final(self).error_message) == Some(
                    "Error adding dotfile: "@ + e.spec_describe(),
                ) && final(self).message is None,
            },
    {
        match outcome {
            Ok(_) => {
                self.message = Some(concat_str("Added dotfile: ", path));
                self.error_message = None;
            },
            Err(e) => {
                let text = e.describe();
                self.error_message = Some(concat_str("Error adding dotfile: ", text.as_str()));
                self.message = None;
            },
        }
    }

    fn batch_finished(&mut self, outcome: Result<(), DotError>, text: &str) -> (r: Result<
        (),
        DotError,
    >)
        ensures
            final(self).config == old(self).config,
            final(self).same_screen(*old(self)),
            outcome is Ok ==> r is Ok,
            outcome matches Err(e) ==> r == Err::<(), DotError>(e),
            match outcome {
                Ok(_) => text_view(final(self).message) == Some(text@)
                    && final(self).error_message is None,
                Err(_) => final(self).message == old(self).message && final(self).error_message
                    == old(self).error_message,
            },
    {
        match outcome {
            Ok(_) => {
                self.message = Some(String::from_str(text));
                self.error_message = None;
                Ok(())
            },
            Err(e) => Err(e),
        }
    }

    /// Shows that the staged dotfiles were linked, where they were: a
    /// failure is handed on and nothing changes.
    pub fn link_staged(&mut self, outcome: Result<(), DotError>) -> (r: Result<(), DotError>)
        ensures
            final(self).config == old(self).config,
            final(self).same_screen(*old(self)),
            outcome is Ok ==> r is Ok,
            outcome matches Err(e) ==> r == Err::<(), DotError>(e),
            match outcome {
                Ok(_) => text_view(final(self).message) == Some("Linked all staged dotfiles"@)
                    && final(self).error_message is None,
                Err(_) => final(self).message == old(self).message && final(self).error_message
                    == old(self).error_message,
            },
    {
        self.batch_finished(outcome, "Linked all staged dotfiles")
    }

    /// Shows that the dotfiles were unlinked, where they were: a failure is
    /// handed on and nothing changes.
    pub fn unlink_all(&mut self, outcome: Result<(), DotError>) -> (r: Result<(), DotError>)
        ensures
            final(self).config == old(self).config,
            final(self).same_screen(*old(self)),
            outcome is Ok ==> r is Ok,
            outcome matches Err(e) ==> r == Err::<(), DotError>(e),
            match outcome {
                Ok(_) => text_view(final(self).message) == Some("Unlinked all dotfiles"@)
                    && final(self).error_message is None,
                Err(_) => final(self).message == old(self).message && final(self).error_message
                    == old(self).error_message,
            },
    {
        self.batch_finished(outcome, "Unlinked all dotfiles")
    }

    /// Takes the manifest as the commit left it, shows that the staged
    /// dotfiles were committed and brings the lists up to date. A failure
    /// is handed on and nothing changes.
    pub fn commit_staged(&mut self, outcome: Result<Config, DotError>, env: &PathEnv) -> (r:
        Result<(), DotError>)
        requires
            old(self).wf(),
            env.wf(),
            outcome matches Ok(c) ==> c.wf(),
        ensures
            final(self).wf(),
            match outcome {
                Ok(c) => {
                    &&& r is Ok
                    &&& final(self).config == c
                    &&& final(self).lists_current(env@)
                    &&& text_view(final(self).message) == Some("Committed all staged dotfiles"@)
                    &&& final(self).error_message is None
                    &&& final(self).current_tab == old(self).current_tab
                    &&& final(self).dialog_state == old(self).dialog_state
                    &&& final(self).input_text == old(self).input_text
                },
                Err(e) => r == Err::<(), DotError>(e) && *final(self) == *old(self),
            },
    {
        match outcome {
            Ok(config) => {
                self.config = config;
                self.message = Some(String::from_str("Committed all staged dotfiles"));
                self.error_message = None;
                self.refresh(env);
                Ok(())
            },
            Err(e) => Err(e),
        }
    }

    /// The enter key. In the dialog that asks for a path, a path that is
    /// not empty is handed back to be tracked, and the dialog closes. In a
    /// dialog that asks for a confirmation, the dialog closes, and the
    /// selected dotfile is removed if the removal was what it asked about.
    /// Without a dialog, the selected dotfile of the staged tab is
    /// unstaged.
    pub fn handle_enter(&mut self, env: &PathEnv) -> (r: Result<EnterStep, DotError>)
        requires
            old(self).wf(),
            env.wf(),
        ensures
            final(self).wf(),
            match old(self).dialog_state {
                DialogState::AddFile => if old(self).input_text@.len() == 0 {
                    r matches Ok(EnterStep::Nothing) && *final(self) == *old(self)
                } else {
                    &&& r matches Ok(EnterStep::Add(p)) && p@ == old(self).input_text@
                    &&& final(self).dialog_state == DialogState::Closed
                    &&& final(self).input_text@.len() == 0
                    &&& final(self).same_content(*old(self))
                    &&& final(self).message == old(self).message
                    &&& final(self).error_message == old(self).error_message
                },
                DialogState::Confirm(action) => {
                    &&& r matches Ok(EnterStep::Save)
                    &&& final(self).dialog_state == DialogState::Closed
                    &&& final(self).lists_current(env@)
                    &&& final(self).current_tab == old(self).current_tab
                    &&& final(self).input_text == old(self).input_text
                    &&& if action@ == "remove"@ {
                        &&& final(self).config@ == without_selected(*old(self))
                        &&& if selected_name(*old(self)) is Some && !holds_selected(*old(self)) {
                            &&& text_view(final(self).error_message) == Some(
                                "Error removing dotfile: "@ + "No such dotfile: "@ + selected_name(
                                    *old(self),
                                )->0,
                            )
                            &&& final(self).message == old(self).message
                        } else {
                            text_view(final(self).message) == Some(
                                "Dotfile removed successfully"@,
                            )
                        }
                    } else {
                        &&& final(self).config == old(self).config
                        &&& final(self).message == old(self).message
                        &&& final(self).error_message == old(self).error_message
                    }
                },
                DialogState::Closed => if old(self).current_tab == Tab::Staged {
                    &&& final(self).same_screen(*old(self))
                    &&& final(self).config@ == toggled(*old(self))
                    &&& match r {
                        Ok(step) => step is Save && (selected_name(*old(self)) is Some
                            ==> holds_selected(*old(self))),
                        Err(e) => selected_name(*old(self)) is Some && !holds_selected(
                            *old(self),
                        ) && e.kind() == ErrorKind::NoSuchDotfile,
                    }
                } else {
                    r matches Ok(EnterStep::Nothing) && *final(self) == *old(self)
                },
            },
    {
        let confirm_remove = match &self.dialog_state {
            DialogState::AddFile => {
                if self.input_text.as_str().unicode_len() == 0 {
                    return Ok(EnterStep::Nothing);
                }
                let path = self.input_text.clone();
                self.dialog_state = DialogState::Closed;
                self.input_text = String::new();
                return Ok(EnterStep::Add(path));
            },
            DialogState::Confirm(action) => str_eq(action.as_str(), "remove"),
            DialogState::Closed => {
                if let Tab::Staged = self.current_tab {
                    match self.toggle_stage_selected() {
                        Ok(_) => {
                            return Ok(EnterStep::Save);
                        },
                        Err(e) => {
                            return Err(e);
                        },
                    }
                }
                return Ok(EnterStep::Nothing);
            },
        };
        if confirm_remove {
            match self.remove_selected() {
                Ok(_) => {
                    self.message = Some(String::from_str("Dotfile removed successfully"));
                },
                Err(e) => {
                    let text = e.describe();
                    proof {
                        assert(text@ == "No such dotfile: "@ + selected_name(*old(self))->0);
                        assert("Error removing dotfile: "@ + text@ =~= "Error removing dotfile: "@
                            + "No such dotfile: "@ + selected_name(*old(self))->0);
                    }
                    self.error_message = Some(concat_str("Error removing dotfile: ", text.as_str()));
                },
            }
        }
        self.dialog_state = DialogState::Closed;
        self.refresh(env);
        Ok(EnterStep::Save)
    }
}

} // verus!
