//! The browser: the listing as shown (filtered by the search and the
//! hidden-file toggle), the cursor, the marked file, the input line, and
//! the keys that drive them.
use vstd::prelude::*;

use crate::fs::order::{listing_sorted, sort_listing, ListKey, Listed};
use crate::fs_info::duplicate_handler::DuplicatedFileHandleOps;
use crate::fs_info::file_info::FileInfo;
use crate::fs_info::fs_core::{Effect, Event, FileSystemCore};
use crate::fs_info::history::History;
use crate::fs_info::state::StateFlag;
use crate::path::{extension, file_name, std_extension, std_file_name};
use crate::ui::input::KeyCode;
use crate::ui::screen::{dec, join_seq, push_dec_usize};
use crate::ui::widget::canvas::{on_grid, ops_view, split_h_of, split_horizontal, split_v_of, split_vertical, Area, Cons, Op, OpView};
use crate::ui::widget::file_list::{columns_fit, file_list_ops, FileList, FileRow};
use crate::ui::widget::preview::{preview_ops, Preview};
use crate::ui::widget::status::{status_ops, StatusBar};
use crate::ui::text::{contains, occurs_in, pop_char, push_char, std_lowercase, std_trim, to_lowercase, trim};

verus! {

/// What the input line is for.
#[derive(PartialEq, Eq, Clone, Copy, Structural, Debug)]
pub enum InputContext {
    /// No input: keys act on the listing.
    Normal,
    NewFile,
    NewDir,
    Rename,
    ConfirmDelete,
    Search,
}

/// The kind of target of a paste conflict.
#[derive(PartialEq, Eq, Clone, Copy, Structural, Debug)]
pub enum ConflictKind {
    File,
    Dir,
}

/// The dialog that asks how to resolve a paste conflict.
pub struct PasteDialog {
    pub path: String,
    pub kind: ConflictKind,
    pub apply_to_all: bool,
    pub cursor: usize,
    /// The new name being typed, once `Rename` was chosen.
    pub rename_input: Option<String>,
}

/// The labels of the dialog's choices.
pub open spec fn options_of(kind: ConflictKind) -> Seq<Seq<char>> {
    match kind {
        ConflictKind::File => seq!["Overwrite"@, "Rename"@, "Skip"@, "Cancel"@],
        ConflictKind::Dir => seq!["Write In"@, "Rename"@, "Skip"@, "Cancel"@],
    }
}

/// The typed new name, or nothing.
pub open spec fn typed_name(d: PasteDialog) -> Seq<char> {
    match d.rename_input {
        Some(s) => s@,
        None => Seq::empty(),
    }
}

/// The name shown for a path: its final component, or nothing.
pub open spec fn shown_name(p: Seq<char>) -> Seq<char> {
    match std_file_name(p) {
        Some(n) => n,
        None => Seq::empty(),
    }
}

/// The final component of a path, or an empty string.
pub fn name_of(path: &str) -> (s: String)
    ensures
        s@ == shown_name(path@),
{
    match file_name(path) {
        Some(n) => n,
        None => String::new(),
    }
}

impl PasteDialog {
    /// A dialog about `path`, a directory or a file, with the cursor on the
    /// first choice and apply-to-all off.
    pub fn new(path: String, is_dir: bool) -> (d: Self)
        ensures
            d.path == path,
            d.kind == (if is_dir {
                ConflictKind::Dir
            } else {
                ConflictKind::File
            }),
            !d.apply_to_all,
            d.cursor == 0,
            d.rename_input is None,
    {
        PasteDialog {
            path,
            kind: if is_dir {
                ConflictKind::Dir
            } else {
                ConflictKind::File
            },
            apply_to_all: false,
            cursor: 0,
            rename_input: None,
        }
    }

    /// The labels of the choices.
    pub fn options(&self) -> (o: [&'static str; 4])
        ensures
            o@.map_values(|s: &str| s@) == options_of(self.kind),
    {
        let o = match self.kind {
            ConflictKind::File => ["Overwrite", "Rename", "Skip", "Cancel"],
            ConflictKind::Dir => ["Write In", "Rename", "Skip", "Cancel"],
        };
        assert(o@.map_values(|s: &str| s@) =~= options_of(self.kind));
        o
    }

    /// The answer for the choice under the cursor; a rename takes the typed
    /// name.
    pub fn resolve(&self) -> (h: DuplicatedFileHandleOps)
        ensures
            self.cursor == 0 ==> h == (if self.kind == ConflictKind::File {
                DuplicatedFileHandleOps::Overwrite
            } else {
                DuplicatedFileHandleOps::WriteIn
            }),
            self.cursor == 1 ==> (h matches DuplicatedFileHandleOps::Rename(n) && n@ == typed_name(
                *self,
            )),
            self.cursor == 2 ==> h is Skip,
            self.cursor > 2 ==> h is Cancel,
    {
        if self.cursor == 0 {
            match self.kind {
                ConflictKind::File => DuplicatedFileHandleOps::Overwrite,
                ConflictKind::Dir => DuplicatedFileHandleOps::WriteIn,
            }
        } else if self.cursor == 1 {
            DuplicatedFileHandleOps::Rename(
                match &self.rename_input {
                    Some(s) => s.clone(),
                    None => String::new(),
                },
            )
        } else if self.cursor == 2 {
            DuplicatedFileHandleOps::Skip
        } else {
            DuplicatedFileHandleOps::Cancel
        }
    }

    /// The name of the conflicting path, as shown.
    pub fn filename(&self) -> (s: String)
        ensures
            s@ == shown_name(self.path@),
    {
        name_of(self.path.as_str())
    }

    /// One key while the dialog is shown: while a new name is typed, keys
    /// edit it, Enter answers with it and Esc leaves it; otherwise `j`/Down
    /// and `k`/Up move the cursor, `a` or space toggles apply-to-all, Enter
    /// answers (or starts typing a new name on `Rename`) and Esc cancels
    /// everything. The answer and whether it applies to all, once given.
    pub fn handle_key(&mut self, key: KeyCode) -> (r: Option<(DuplicatedFileHandleOps, bool)>)
        ensures
            final(self).path == old(self).path,
            final(self).kind == old(self).kind,
            old(self).rename_input is Some ==> {
                &&& final(self).cursor == old(self).cursor
                &&& final(self).apply_to_all == old(self).apply_to_all
                &&& match key {
                    KeyCode::Char(c) => r is None && (final(self).rename_input matches Some(s) && s@
                        == typed_name(*old(self)).push(c)),
                    KeyCode::Backspace => r is None && (final(self).rename_input matches Some(s)
                        && s@ == (if typed_name(*old(self)).len() > 0 {
                        typed_name(*old(self)).drop_last()
                    } else {
                        typed_name(*old(self))
                    })),
                    KeyCode::Enter => (r matches Some((h, a)) && a == old(self).apply_to_all && (
                    old(self).cursor == 0 ==> h == (if old(self).kind == ConflictKind::File {
                        DuplicatedFileHandleOps::Overwrite
                    } else {
                        DuplicatedFileHandleOps::WriteIn
                    })) && (old(self).cursor == 1 ==> (h matches DuplicatedFileHandleOps::Rename(n)
                        && n@ == typed_name(*old(self)))) && (old(self).cursor == 2 ==> h is Skip)
                        && (old(self).cursor > 2 ==> h is Cancel)) && final(self).rename_input
                        == old(self).rename_input,
                    KeyCode::Esc => r is None && final(self).rename_input is None,
                    _ => r is None && final(self).rename_input == old(self).rename_input,
                }
            },
            old(self).rename_input is None ==> match key {
                KeyCode::Char('j') | KeyCode::Down => r is None && final(self).cursor == (if old(
                    self,
                ).cursor + 1 < 4 {
                    old(self).cursor + 1
                } else {
                    old(self).cursor as int
                }) && final(self).apply_to_all == old(self).apply_to_all
                    && final(self).rename_input is None,
                KeyCode::Char('k') | KeyCode::Up => r is None && final(self).cursor == (if old(
                    self,
                ).cursor > 0 {
                    old(self).cursor - 1
                } else {
                    old(self).cursor as int
                }) && final(self).apply_to_all == old(self).apply_to_all
                    && final(self).rename_input is None,
                KeyCode::Char('a') | KeyCode::Char(' ') => r is None && final(self).cursor == old(
                    self,
                ).cursor && final(self).apply_to_all == !old(self).apply_to_all
                    && final(self).rename_input is None,
                KeyCode::Enter => final(self).cursor == old(self).cursor && final(self).apply_to_all
                    == old(self).apply_to_all && if old(self).cursor == 1 {
                    r is None && (final(self).rename_input matches Some(s) && s@ == shown_name(
                        old(self).path@,
                    ))
                } else {
                    final(self).rename_input is None && (r matches Some((h, a)) && a == old(
                        self,
                    ).apply_to_all && (old(self).cursor == 0 ==> h == (if old(self).kind
                        == ConflictKind::File {
                        DuplicatedFileHandleOps::Overwrite
                    } else {
                        DuplicatedFileHandleOps::WriteIn
                    })) && (old(self).cursor == 2 ==> h is Skip) && (old(self).cursor > 2
                        ==> h is Cancel))
                },
                KeyCode::Esc => r == Some((DuplicatedFileHandleOps::Cancel, true))
                    && final(self).cursor == old(self).cursor && final(self).apply_to_all == old(
                    self,
                ).apply_to_all && final(self).rename_input is None,
                _ => r is None && final(self).cursor == old(self).cursor && final(self).apply_to_all
                    == old(self).apply_to_all && final(self).rename_input is None,
            },
    {
        if self.rename_input.is_some() {
            match key {
                KeyCode::Char(c) => {
                    let mut s = match self.rename_input.take() {
                        Some(s) => s,
                        None => String::new(),
                    };
                    push_char(&mut s, c);
                    self.rename_input = Some(s);
                    None
                },
                KeyCode::Backspace => {
                    let mut s = match self.rename_input.take() {
                        Some(s) => s,
                        None => String::new(),
                    };
                    pop_char(&mut s);
                    self.rename_input = Some(s);
                    None
                },
                KeyCode::Enter => Some((self.resolve(), self.apply_to_all)),
                KeyCode::Esc => {
                    self.rename_input = None;
                    None
                },
                _ => None,
            }
        } else {
            match key {
                KeyCode::Char('j') | KeyCode::Down => {
                    if self.cursor < 3 {
                        self.cursor = self.cursor + 1;
                    }
                    None
                },
                KeyCode::Char('k') | KeyCode::Up => {
                    if self.cursor > 0 {
                        self.cursor = self.cursor - 1;
                    }
                    None
                },
                KeyCode::Char('a') | KeyCode::Char(' ') => {
                    self.apply_to_all = !self.apply_to_all;
                    None
                },
                KeyCode::Enter => {
                    if self.cursor == 1 {
                        self.rename_input = Some(name_of(self.path.as_str()));
                        None
                    } else {
                        Some((self.resolve(), self.apply_to_all))
                    }
                },
                KeyCode::Esc => Some((DuplicatedFileHandleOps::Cancel, true)),
                _ => None,
            }
        }
    }
}

/// What is left to do once the file system operation under way is over.
#[derive(PartialEq, Eq, Clone, Copy, Structural, Debug)]
pub enum AfterOp {
    Nothing,
    /// Build the view of the listing.
    Rebuild,
    /// Build the view and put the cursor on its first entry.
    Reset,
    /// Unmark, then reset the view.
    Unmark,
    /// Clear the search and unmark, then reset the view.
    ClearSearch,
}

/// The browser as plain values.
pub struct AppView {
    pub fs: FileSystemCore,
    pub view: Seq<FileInfo>,
    pub list_pos: usize,
    pub scroll_offset: usize,
    pub marked: Option<usize>,
    pub input_ctx: InputContext,
    pub input_buf: Seq<char>,
    pub show_hidden: bool,
    pub search_query: Seq<char>,
    pub preview_text: Seq<char>,
    pub view_dirty: bool,
    pub should_quit: bool,
    pub stay_on_quit: bool,
    pub after: AfterOp,
}

/// The browser.
pub struct App {
    fs: FileSystemCore,
    view: Vec<FileInfo>,
    list_pos: usize,
    scroll_offset: usize,
    marked: Option<usize>,
    input_ctx: InputContext,
    input_buf: String,
    show_hidden: bool,
    search_query: String,
    preview_text: String,
    view_dirty: bool,
    should_quit: bool,
    stay_on_quit: bool,
    after: AfterOp,
}

impl View for App {
    type V = AppView;

    closed spec fn view(&self) -> AppView {
        AppView {
            fs: self.fs,
            view: self.view@,
            list_pos: self.list_pos,
            scroll_offset: self.scroll_offset,
            marked: self.marked,
            input_ctx: self.input_ctx,
            input_buf: self.input_buf@,
            show_hidden: self.show_hidden,
            search_query: self.search_query@,
            preview_text: self.preview_text@,
            view_dirty: self.view_dirty,
            should_quit: self.should_quit,
            stay_on_quit: self.stay_on_quit,
            after: self.after,
        }
    }
}

/// A name that starts with a dot is hidden.
pub open spec fn is_hidden(name: Seq<char>) -> bool {
    name.len() > 0 && name[0] == '.'
}

/// Whether a file named `name` is shown: hidden names only when hidden
/// files are shown, and, when there is a search, only names whose
/// lower-case form holds the lower-case form of the search.
pub open spec fn visible(name: Seq<char>, show_hidden: bool, search: Seq<char>) -> bool {
    (show_hidden || !is_hidden(name)) && (search.len() == 0 || occurs_in(
        std_lowercase(name),
        std_lowercase(search),
    ))
}

/// The files shown, in the order of the listing.
pub open spec fn view_of(files: Seq<FileInfo>, show_hidden: bool, search: Seq<char>) -> Seq<FileInfo> {
    files.filter(|f: FileInfo| visible(f.name_view(), show_hidden, search))
}

/// The view built anew from the listing.
pub open spec fn rebuilt(v: AppView) -> AppView {
    AppView { view: view_of(v.fs.files_view(), v.show_hidden, v.search_query), ..v }
}

/// The view built anew, with the cursor on its first entry.
pub open spec fn reset(v: AppView) -> AppView {
    AppView { list_pos: 0, view_dirty: true, ..rebuilt(v) }
}

/// What is done once the file system operation is over.
pub open spec fn after_done(v: AppView, a: AfterOp) -> AppView {
    let v = AppView { after: AfterOp::Nothing, ..v };
    match a {
        AfterOp::Nothing => v,
        AfterOp::Rebuild => rebuilt(v),
        AfterOp::Reset => reset(v),
        AfterOp::Unmark => reset(AppView { marked: None, ..v }),
        AfterOp::ClearSearch => reset(AppView { search_query: Seq::empty(), marked: None, ..v }),
    }
}

/// A browser just made at `start` with `history`: its core waits for the
/// listing of `start` (the effect asked for), with no file listed or
/// selected, no clipboard, and "Initializing"; the view is empty, the
/// cursor at the top, nothing marked, no search, hidden files not shown,
/// and the view is to be built once the listing is in.
pub open spec fn started_browser(start: Seq<char>, history: History, v: AppView, eff: Effect) -> bool {
    &&& v.fs.dir_view() == start
    &&& v.fs.history_view() == history
    &&& v.fs.frames_view() == seq![crate::fs_info::fs_core::Frame::Refresh]
    &&& v.fs.files_view() == Seq::<FileInfo>::empty()
    &&& v.fs.selected_view() is None
    &&& v.fs.flag_view() == StateFlag::Operating
    &&& v.fs.info_view() == "Initializing"@
    &&& v.fs.clipboard_view() is None
    &&& v.view == Seq::<FileInfo>::empty()
    &&& v.list_pos == 0
    &&& v.scroll_offset == 0
    &&& v.marked is None
    &&& v.input_ctx == InputContext::Normal
    &&& v.input_buf == Seq::<char>::empty()
    &&& !v.show_hidden
    &&& v.search_query == Seq::<char>::empty()
    &&& v.preview_text == Seq::<char>::empty()
    &&& !v.view_dirty
    &&& !v.should_quit
    &&& v.stay_on_quit
    &&& v.after == AfterOp::Rebuild
    &&& eff matches Effect::List(p) && p@ == start
}

/// One step of the file system operation under way (see
/// `FileSystemCore::resume`): the core takes the step; once the operation
/// is over, what was left to do is done, else nothing else changes.
pub open spec fn resumed(o: AppView, ev: Event, n: AppView, eff: Effect) -> bool {
    &&& crate::fs_info::fs_core::step_post(o.fs, n.fs, ev, eff)
    &&& eff is Done ==> n == after_done((AppView { fs: n.fs, ..o }), o.after)
    &&& !(eff is Done) ==> n == (AppView { fs: n.fs, ..o })
}

/// Whether `name` is shown (see `visible`) under `search`, whose
/// lower-case form is `query`.
fn is_visible(name: &str, show_hidden: bool, search: &str, query: &str) -> (b: bool)
    requires
        query@ == std_lowercase(search@),
    ensures
        b == visible(name@, show_hidden, search@),
{
    let chars = crate::ui::text::chars_of(name);
    let hidden = chars.len() > 0 && chars[0] == '.';
    if !show_hidden && hidden {
        return false;
    }
    if search.is_empty() {
        return true;
    }
    let lower = to_lowercase(name);
    contains(lower.as_str(), query)
}

impl App {
    /// The core is well formed and the cursor can move one further.
    pub closed spec fn wf(&self) -> bool {
        self.fs.wf() && self.list_pos < usize::MAX
    }

    /// A browser at `start_dir` with the given history; the listing of the
    /// directory is read first (drive it with `resume`), then the view is
    /// built.
    pub fn new(start_dir: String, history: History) -> (r: (Self, Effect))
        requires
            history.wf(),
        ensures
            r.0.wf(),
            started_browser(start_dir@, history, r.0@, r.1),
    {
        let (fs, eff) = FileSystemCore::init(start_dir, history);
        let app = App {
            fs,
            view: Vec::new(),
            list_pos: 0,
            scroll_offset: 0,
            marked: None,
            input_ctx: InputContext::Normal,
            input_buf: String::new(),
            show_hidden: false,
            search_query: String::new(),
            preview_text: String::new(),
            view_dirty: false,
            should_quit: false,
            stay_on_quit: true,
            after: AfterOp::Rebuild,
        };
        (app, eff)
    }

    /// Builds the view anew from the listing.
    fn rebuild_view(&mut self)
        ensures
            final(self)@ == rebuilt(old(self)@),
    {
        let query = to_lowercase(self.search_query.as_str());
        let files = self.fs.files();
        let ghost pred = |f: FileInfo| visible(f.name_view(), self.show_hidden, self.search_query@);
        let mut view: Vec<FileInfo> = Vec::new();
        let mut i: usize = 0;
        assert(files@.take(0) =~= Seq::<FileInfo>::empty());
        while i < files.len()
            invariant
                i <= files@.len(),
                query@ == std_lowercase(self.search_query@),
                pred == (|f: FileInfo| visible(f.name_view(), self.show_hidden, self.search_query@)),
                view@ == files@.take(i as int).filter(pred),
            decreases files.len() - i,
        {
            let f = &files[i];
            let keep = is_visible(f.name(), self.show_hidden, self.search_query.as_str(), query.as_str());
            proof {
                reveal(Seq::filter);
                assert(files@.take(i + 1).drop_last() =~= files@.take(i as int));
                assert(files@.take(i + 1).last() == files@[i as int]);
            }
            if keep {
                view.push(f.clone());
            }
            i = i + 1;
        }
        assert(files@.take(files@.len() as int) =~= files@);
        self.view = view;
    }

    /// Builds the view anew and puts the cursor on its first entry.
    fn reset_view(&mut self)
        ensures
            final(self)@ == reset(old(self)@),
    {
        self.rebuild_view();
        self.list_pos = 0;
        self.view_dirty = true;
    }

    /// Does what is left once the file system operation is over.
    fn run_after(&mut self, a: AfterOp)
        ensures
            final(self)@ == after_done(old(self)@, a),
    {
        self.after = AfterOp::Nothing;
        match a {
            AfterOp::Nothing => {},
            AfterOp::Rebuild => self.rebuild_view(),
            AfterOp::Reset => self.reset_view(),
            AfterOp::Unmark => {
                self.marked = None;
                self.reset_view();
            },
            AfterOp::ClearSearch => {
                self.search_query = String::new();
                self.marked = None;
                self.reset_view();
            },
        }
    }

    /// Goes on with a file system operation that was just started: once it
    /// is over, `a` is done.
    fn begin(&mut self, eff: Effect, a: AfterOp) -> (r: Effect)
        ensures
            r == eff,
            eff is Done ==> final(self)@ == after_done(old(self)@, a),
            !(eff is Done) ==> final(self)@ == (AppView { after: a, ..old(self)@ }),
    {
        if matches!(eff, Effect::Done) {
            self.run_after(a);
        } else {
            self.after = a;
        }
        eff
    }

    /// The next step of the file system operation under way (see
    /// `FileSystemCore::resume`); once it is over, what was left to do is
    /// done.
    pub fn resume(&mut self, ev: Event) -> (eff: Effect)
        requires
            old(self).wf(),
        ensures
            final(self).wf(),
            resumed(old(self)@, ev, final(self)@, eff),
    {
        let eff = self.fs.resume(ev);
        if matches!(eff, Effect::Done) {
            let a = self.after;
            self.run_after(a);
        }
        eff
    }

    /// Moves the cursor down (`delta > 0`) or up, wrapping around; an empty
    /// view keeps it at 0.
    fn move_cursor(&mut self, delta: i32)
        requires
            old(self).wf(),
        ensures
            final(self).wf(),
            final(self)@ == (AppView {
                list_pos: moved(old(self)@.view.len(), old(self)@.list_pos, delta > 0),
                ..old(self)@
            }),
    {
        let len = self.view.len();
        if len == 0 {
            self.list_pos = 0;
            return;
        }
        self.list_pos = if delta > 0 {
            if self.list_pos >= len - 1 {
                0
            } else {
                self.list_pos + 1
            }
        } else {
            if self.list_pos == 0 {
                len - 1
            } else {
                self.list_pos - 1
            }
        };
    }

    /// The index in the listing of the file at `path`; 0 when none is.
    fn view_to_orig(&self, path: &String) -> (r: usize)
        ensures
            r == orig_of(self@.fs.files_view(), path@),
    {
        let files = self.fs.files();
        let mut i: usize = 0;
        while i < files.len()
            invariant
                i <= files@.len(),
                files@ == self@.fs.files_view(),
                forall|j: int| 0 <= j < i ==> (#[trigger] files@[j]).path_view() != path@,
            decreases files.len() - i,
        {
            if files[i].path().eq(path) {
                proof {
                    assert(first_with_path(files@, path@, i as int));
                    let c = choose|k: int| first_with_path(files@, path@, k);
                    assert(first_with_path(files@, path@, c));
                    if c < i {
                        assert(files@[c].path_view() != path@);
                    } else if c > i {
                        assert(files@[i as int].path_view() != path@);
                    }
                }
                return i;
            }
            i = i + 1;
        }
        assert(!exists|k: int| first_with_path(files@, path@, k));
        0
    }

    /// Marks the file under the cursor, or unmarks it when it is marked.
    fn toggle_mark(&mut self)
        ensures
            final(self)@ == toggled(old(self)@),
    {
        if self.list_pos >= self.view.len() {
            return;
        }
        let orig = self.view_to_orig(self.view[self.list_pos].path());
        self.marked = if self.marked == Some(orig) {
            None
        } else {
            Some(orig)
        };
    }

    /// Puts the marked file on the clipboard.
    fn copy_marked(&mut self, is_copy: bool)
        requires
            old(self).wf(),
        ensures
            final(self).wf(),
            copy_post(old(self)@, final(self)@, is_copy),
    {
        if let Some(idx) = self.marked {
            let r = self.fs.select(idx);
            let ghost mid = self.fs;
            self.fs.copy_selected(is_copy);
            assert(crate::fs_info::fs_core::selected_as(old(self)@.fs, mid, idx, r));
        }
    }

    /// Starts typing a new name for the marked file, from its name.
    fn start_rename(&mut self)
        ensures
            final(self)@ == renaming(old(self)@),
    {
        let orig = match self.marked {
            Some(i) => i,
            None => return,
        };
        let name = match self.fs.get_file(orig) {
            Some(f) => name_of(f.path()),
            None => return,
        };
        self.input_buf = name;
        self.input_ctx = InputContext::Rename;
    }

    /// Keeps the cursor within the rows the listing shows on a terminal of
    /// `terminal_rows` rows (seven of which frame it).
    pub fn clamp_scroll(&mut self, terminal_rows: usize)
        requires
            old(self).wf(),
        ensures
            final(self).wf(),
            final(self)@ == (AppView {
                scroll_offset: clamped(old(self)@.list_pos, old(self)@.scroll_offset, terminal_rows),
                ..old(self)@
            }),
    {
        let visible = terminal_rows.saturating_sub(7);
        if self.list_pos < self.scroll_offset {
            self.scroll_offset = self.list_pos;
        } else if self.list_pos - self.scroll_offset >= visible {
            self.scroll_offset = self.list_pos - visible + 1;
        }
    }

    /// Leaves the input line.
    fn exit_input(&mut self)
        ensures
            final(self)@ == exited(old(self)@),
    {
        self.input_ctx = InputContext::Normal;
        self.input_buf = String::new();
    }
}

/// Where the cursor goes in a view of `len` entries: down or up by one,
/// wrapping around.
pub open spec fn moved(len: nat, pos: usize, down: bool) -> usize {
    if len == 0 {
        0
    } else if down {
        if pos + 1 >= len {
            0
        } else {
            (pos + 1) as usize
        }
    } else {
        if pos == 0 {
            (len - 1) as usize
        } else {
            (pos - 1) as usize
        }
    }
}

/// `i` is the first index of a file at path `p`.
pub open spec fn first_with_path(files: Seq<FileInfo>, p: Seq<char>, i: int) -> bool {
    &&& 0 <= i < files.len()
    &&& files[i].path_view() == p
    &&& forall|j: int| 0 <= j < i ==> (#[trigger] files[j]).path_view() != p
}

/// The index of the first file at path `p`, or 0 when none is.
pub open spec fn orig_of(files: Seq<FileInfo>, p: Seq<char>) -> usize {
    if exists|i: int| first_with_path(files, p, i) {
        (choose|i: int| first_with_path(files, p, i)) as usize
    } else {
        0
    }
}

/// The file under the cursor marked, or unmarked when it was marked.
pub open spec fn toggled(v: AppView) -> AppView {
    if v.list_pos >= v.view.len() {
        v
    } else {
        let orig = orig_of(v.fs.files_view(), v.view[v.list_pos as int].path_view());
        AppView {
            marked: if v.marked == Some(orig) {
                None
            } else {
                Some(orig)
            },
            ..v
        }
    }
}

/// The marked file, selected, went on the clipboard.
pub open spec fn copy_post(o: AppView, n: AppView, is_copy: bool) -> bool {
    &&& n == AppView { fs: n.fs, ..o }
    &&& match o.marked {
        None => n.fs == o.fs,
        Some(idx) => exists|mid: FileSystemCore, r: Result<(), String>|
            crate::fs_info::fs_core::selected_as(o.fs, mid, idx, r)
                && crate::fs_info::fs_core::copied(mid, n.fs, is_copy),
    }
}

/// The input line holds the name of the marked file, to be renamed.
pub open spec fn renaming(v: AppView) -> AppView {
    match v.marked {
        None => v,
        Some(i) => if i < v.fs.files_view().len() {
            AppView {
                input_buf: shown_name(v.fs.files_view()[i as int].path_view()),
                input_ctx: InputContext::Rename,
                ..v
            }
        } else {
            v
        },
    }
}

/// The first row the listing shows, so that the cursor stays in view.
pub open spec fn clamped(pos: usize, offset: usize, rows: usize) -> usize {
    let visible = if rows >= 7 {
        rows - 7
    } else {
        0
    };
    if pos < offset {
        pos
    } else if pos - offset >= visible {
        (pos - visible + 1) as usize
    } else {
        offset
    }
}

/// The input line left.
pub open spec fn exited(v: AppView) -> AppView {
    AppView { input_ctx: InputContext::Normal, input_buf: Seq::empty(), ..v }
}

/// The browser once a file system operation started with `eff` left the
/// core as `fs`: `a` is done at once when it is over, else left to do.
pub open spec fn began(v: AppView, fs: FileSystemCore, a: AfterOp, eff: Effect) -> AppView {
    if eff is Done {
        after_done(AppView { fs, ..v }, a)
    } else {
        AppView { fs, after: a, ..v }
    }
}

/// `y` or `Y`, as `str::eq_ignore_ascii_case` with `"y"` sees it.
pub open spec fn is_yes(s: Seq<char>) -> bool {
    s.len() == 1 && (s[0] == 'y' || s[0] == 'Y')
}

/// Enter on the input line: the trimmed input becomes the search, or the
/// name of a new file or directory, or the new name of the marked file, or
/// (when it is `y` or `Y`) confirms the removal of the marked file; then
/// the input line is left.
pub open spec fn submit_post(o: AppView, n: AppView, eff: Effect) -> bool {
    let input = std_trim(o.input_buf);
    match o.input_ctx {
        InputContext::Search => n == exited(
            reset(AppView { search_query: input, marked: None, ..o }),
        ) && eff is Done,
        InputContext::NewFile | InputContext::NewDir => if input.len() == 0 {
            n == exited(o) && eff is Done
        } else {
            crate::fs_info::fs_core::started_new_file(
                o.fs,
                n.fs,
                input,
                o.input_ctx == InputContext::NewDir,
                eff,
            ) && n == exited(began(o, n.fs, AfterOp::Reset, eff))
        },
        InputContext::Rename => if input.len() == 0 {
            n == exited(o) && eff is Done
        } else {
            exists|mid: FileSystemCore|
                (match o.marked {
                    None => mid == o.fs,
                    Some(idx) => exists|r: Result<(), String>|
                        crate::fs_info::fs_core::selected_as(o.fs, mid, idx, r),
                }) && crate::fs_info::fs_core::started_rename(mid, n.fs, input, eff) && n == exited(
                    began(o, n.fs, AfterOp::Unmark, eff),
                )
        },
        InputContext::ConfirmDelete => if is_yes(input) {
            exists|mid: FileSystemCore|
                (match o.marked {
                    None => mid == o.fs,
                    Some(idx) => exists|r: Result<(), String>|
                        crate::fs_info::fs_core::selected_as(o.fs, mid, idx, r),
                }) && crate::fs_info::fs_core::started_remove(mid, n.fs, eff) && n == exited(
                    began(o, n.fs, AfterOp::Unmark, eff),
                )
        } else {
            n == exited(o) && eff is Done
        },
        _ => n == exited(o) && eff is Done,
    }
}

/// A key in the listing: `j`/`k` (or Down/Up) move the cursor, `h` (Left)
/// goes to the parent, `l` (Right, Enter) enters the directory under the
/// cursor, space marks, `c`/`x` copy or cut the marked file, `u` undoes,
/// `r` renames the marked file, `d` asks to delete it, `n`/`m` create a
/// file or directory, `/` searches, `.` shows or hides hidden files, Esc
/// clears the search, `q` quits into the current directory and `Q` quits
/// where the browser started.
pub open spec fn normal_post(o: AppView, key: KeyCode, n: AppView, eff: Effect) -> bool {
    let plain = n == o && eff is Done;
    let prompt = |ctx: InputContext| n == (AppView { input_ctx: ctx, input_buf: Seq::empty(), ..o }) && eff is Done;
    match key {
        KeyCode::Char('j') | KeyCode::Down => n == (AppView {
            list_pos: moved(o.view.len(), o.list_pos, true),
            ..o
        }) && eff is Done,
        KeyCode::Char('k') | KeyCode::Up => n == (AppView {
            list_pos: moved(o.view.len(), o.list_pos, false),
            ..o
        }) && eff is Done,
        KeyCode::Char('h') | KeyCode::Left => crate::fs_info::fs_core::started_parent(o.fs, n.fs, eff)
            && n == began(o, n.fs, AfterOp::Unmark, eff),
        KeyCode::Char('l') | KeyCode::Right | KeyCode::Enter => if o.list_pos >= o.view.len()
            || !o.view[o.list_pos as int].dir_view() {
            plain
        } else {
            exists|mid: FileSystemCore, r: Result<(), String>|
                crate::fs_info::fs_core::selected_as(
                    o.fs,
                    mid,
                    orig_of(o.fs.files_view(), o.view[o.list_pos as int].path_view()),
                    r,
                ) && crate::fs_info::fs_core::started_enter(mid, n.fs, eff) && n == began(
                    o,
                    n.fs,
                    AfterOp::ClearSearch,
                    eff,
                )
        },
        KeyCode::Char(' ') => n == toggled(o) && eff is Done,
        KeyCode::Char('c') => copy_post(o, n, true) && eff is Done,
        KeyCode::Char('x') => copy_post(o, n, false) && eff is Done,
        KeyCode::Char('u') => crate::fs_info::fs_core::started_undo(o.fs, n.fs, eff) && n == began(
            o,
            n.fs,
            AfterOp::Nothing,
            eff,
        ),
        KeyCode::Char('r') => n == renaming(o) && eff is Done,
        KeyCode::Char('d') => if o.marked is Some {
            prompt(InputContext::ConfirmDelete)
        } else {
            plain
        },
        KeyCode::Char('n') => prompt(InputContext::NewFile),
        KeyCode::Char('m') => prompt(InputContext::NewDir),
        KeyCode::Char('/') => prompt(InputContext::Search),
        KeyCode::Char('.') => n == reset(
            AppView { show_hidden: !o.show_hidden, search_query: Seq::empty(), ..o },
        ) && eff is Done,
        KeyCode::Esc => if o.search_query.len() > 0 {
            n == reset(AppView { search_query: Seq::empty(), ..o }) && eff is Done
        } else {
            plain
        },
        KeyCode::Char('q') => n == (AppView { should_quit: true, stay_on_quit: false, ..o }) && eff is Done,
        KeyCode::Char('Q') => n == (AppView { should_quit: true, ..o }) && eff is Done,
        _ => plain,
    }
}

/// A key: `v` in the listing pastes the clipboard (then the view is reset);
/// on the input line characters are typed, Backspace erases, Enter submits
/// and Esc leaves; otherwise see `normal_post`.
pub open spec fn key_post(o: AppView, key: KeyCode, n: AppView, eff: Effect) -> bool {
    if key == KeyCode::Char('v') && o.input_ctx == InputContext::Normal {
        crate::fs_info::fs_core::started_paste(o.fs, n.fs, eff) && n == began(
            o,
            n.fs,
            AfterOp::Reset,
            eff,
        )
    } else if o.input_ctx != InputContext::Normal {
        match key {
            KeyCode::Char(c) => n == (AppView { input_buf: o.input_buf.push(c), ..o }) && eff is Done,
            KeyCode::Backspace => n == (AppView {
                input_buf: if o.input_buf.len() > 0 {
                    o.input_buf.drop_last()
                } else {
                    o.input_buf
                },
                ..o
            }) && eff is Done,
            KeyCode::Enter => submit_post(o, n, eff),
            KeyCode::Esc => n == exited(o) && eff is Done,
            _ => n == o && eff is Done,
        }
    } else {
        normal_post(o, key, n, eff)
    }
}

impl App {
    /// Whether no file system operation is under way.
    pub closed spec fn idle(&self) -> bool {
        self.fs.idle_view()
    }

    pub fn is_idle(&self) -> (b: bool)
        ensures
            b == self.idle(),
    {
        self.fs.is_idle()
    }

    /// Enter on the input line.
    fn submit_input(&mut self) -> (eff: Effect)
        requires
            old(self).wf(),
            old(self).idle(),
        ensures
            final(self).wf(),
            submit_post(old(self)@, final(self)@, eff),
    {
        let input = trim(self.input_buf.as_str());
        let eff = match self.input_ctx {
            InputContext::Search => {
                self.search_query = input;
                self.marked = None;
                self.reset_view();
                Effect::Done
            },
            InputContext::NewFile | InputContext::NewDir => {
                if input.as_str().is_empty() {
                    Effect::Done
                } else {
                    let is_dir = self.input_ctx == InputContext::NewDir;
                    let e = self.fs.new_file(input.as_str(), is_dir);
                    self.begin(e, AfterOp::Reset)
                }
            },
            InputContext::Rename => {
                if input.as_str().is_empty() {
                    Effect::Done
                } else {
                    let ghost o = self.fs;
                    if let Some(idx) = self.marked {
                        let r = self.fs.select(idx);
                        assert(crate::fs_info::fs_core::selected_as(o, self.fs, idx, r));
                    }
                    let ghost mid = self.fs;
                    let e = self.fs.rename_selected(input.as_str());
                    self.begin(e, AfterOp::Unmark)
                }
            },
            InputContext::ConfirmDelete => {
                let chars = crate::ui::text::chars_of(input.as_str());
                if chars.len() == 1 && (chars[0] == 'y' || chars[0] == 'Y') {
                    let ghost o = self.fs;
                    if let Some(idx) = self.marked {
                        let r = self.fs.select(idx);
                        assert(crate::fs_info::fs_core::selected_as(o, self.fs, idx, r));
                    }
                    let e = self.fs.remove_selected();
                    self.begin(e, AfterOp::Unmark)
                } else {
                    Effect::Done
                }
            },
            _ => Effect::Done,
        };
        self.exit_input();
        eff
    }

    /// Enters the directory under the cursor.
    fn enter_dir(&mut self) -> (eff: Effect)
        requires
            old(self).wf(),
            old(self).idle(),
        ensures
            final(self).wf(),
            normal_post(old(self)@, KeyCode::Enter, final(self)@, eff),
    {
        if self.list_pos >= self.view.len() || !self.view[self.list_pos].is_dir() {
            return Effect::Done;
        }
        let path = self.view[self.list_pos].path().clone();
        let orig = self.view_to_orig(&path);
        let r = self.fs.select(orig);
        let ghost mid = self.fs;
        let e = self.fs.enter_selected();
        assert(crate::fs_info::fs_core::selected_as(old(self)@.fs, mid, orig, r));
        self.begin(e, AfterOp::ClearSearch)
    }

    /// A key in the listing.
    fn handle_normal(&mut self, key: KeyCode) -> (eff: Effect)
        requires
            old(self).wf(),
            old(self).idle(),
        ensures
            final(self).wf(),
            normal_post(old(self)@, key, final(self)@, eff),
    {
        match key {
            KeyCode::Char('j') | KeyCode::Down => {
                self.move_cursor(1);
                Effect::Done
            },
            KeyCode::Char('k') | KeyCode::Up => {
                self.move_cursor(-1);
                Effect::Done
            },
            KeyCode::Char('h') | KeyCode::Left => {
                let e = self.fs.parent_dir();
                self.begin(e, AfterOp::Unmark)
            },
            KeyCode::Char('l') | KeyCode::Right | KeyCode::Enter => self.enter_dir(),
            KeyCode::Char(' ') => {
                self.toggle_mark();
                Effect::Done
            },
            KeyCode::Char('c') => {
                self.copy_marked(true);
                Effect::Done
            },
            KeyCode::Char('x') => {
                self.copy_marked(false);
                Effect::Done
            },
            KeyCode::Char('u') => {
                let e = self.fs.undo();
                self.begin(e, AfterOp::Nothing)
            },
            KeyCode::Char('r') => {
                self.start_rename();
                Effect::Done
            },
            KeyCode::Char('d') => {
                if self.marked.is_some() {
                    self.input_ctx = InputContext::ConfirmDelete;
                    self.input_buf = String::new();
                }
                Effect::Done
            },
            KeyCode::Char('n') => {
                self.input_ctx = InputContext::NewFile;
                self.input_buf = String::new();
                Effect::Done
            },
            KeyCode::Char('m') => {
                self.input_ctx = InputContext::NewDir;
                self.input_buf = String::new();
                Effect::Done
            },
            KeyCode::Char('/') => {
                self.input_ctx = InputContext::Search;
                self.input_buf = String::new();
                Effect::Done
            },
            KeyCode::Char('.') => {
                self.show_hidden = !self.show_hidden;
                self.search_query = String::new();
                self.reset_view();
                Effect::Done
            },
            KeyCode::Esc => {
                if !self.search_query.as_str().is_empty() {
                    self.search_query = String::new();
                    self.reset_view();
                }
                Effect::Done
            },
            KeyCode::Char('q') => {
                self.should_quit = true;
                self.stay_on_quit = false;
                Effect::Done
            },
            KeyCode::Char('Q') => {
                self.should_quit = true;
                Effect::Done
            },
            _ => Effect::Done,
        }
    }

    /// A key press (see `key_post`); a file system operation it starts goes
    /// on with `resume`.
    pub fn handle_key(&mut self, key: KeyCode) -> (eff: Effect)
        requires
            old(self).wf(),
            old(self).idle(),
        ensures
            final(self).wf(),
            key_post(old(self)@, key, final(self)@, eff),
    {
        if key == KeyCode::Char('v') && self.input_ctx == InputContext::Normal {
            let e = self.fs.paste();
            return self.begin(e, AfterOp::Reset);
        }
        if self.input_ctx != InputContext::Normal {
            match key {
                KeyCode::Char(c) => {
                    push_char(&mut self.input_buf, c);
                    Effect::Done
                },
                KeyCode::Backspace => {
                    pop_char(&mut self.input_buf);
                    Effect::Done
                },
                KeyCode::Enter => self.submit_input(),
                KeyCode::Esc => {
                    self.exit_input();
                    Effect::Done
                },
                _ => Effect::Done,
            }
        } else {
            self.handle_normal(key)
        }
    }
}

/// How the browser ends: in the directory it was browsing, or where it
/// started.
pub enum ExitAction {
    ChangeTo(String),
    Stay,
}

/// What the preview of the entry under the cursor needs.
pub enum PreviewRequest {
    /// No entry under the cursor.
    Nothing,
    /// The entries of this directory, hidden ones when asked.
    Dir(String, bool),
    /// The content of this file.
    File(String),
}

/// One line of a directory's preview.
pub struct DirLine {
    pub name: String,
    pub is_dir: bool,
}

impl Listed for DirLine {
    open spec fn list_key(&self) -> ListKey {
        (self.is_dir, Some(self.name@))
    }

    fn key(&self) -> (k: (bool, Option<String>)) {
        (self.is_dir, Some(self.name.clone()))
    }
}

/// A preview line: `> ` before a directory, two spaces before a file.
pub open spec fn dir_line(l: DirLine) -> Seq<char> {
    (if l.is_dir {
        "> "@
    } else {
        "  "@
    }) + l.name@
}

/// The entries a directory's preview shows, in the order read.
pub open spec fn preview_entries(entries: Seq<(String, bool)>, show_hidden: bool) -> Seq<DirLine> {
    entries.filter(|e: (String, bool)| show_hidden || !is_hidden(e.0@)).map_values(
        |e: (String, bool)| DirLine { name: e.0, is_dir: e.1 },
    )
}

/// The preview of a directory from its entries (name, whether a
/// directory), in the order read; `None` when it could not be read.
/// Hidden entries are left out unless asked for; directories come first,
/// then by name.
pub fn build_dir_preview(entries: Option<Vec<(String, bool)>>, show_hidden: bool) -> (s: String)
    ensures
        match entries {
            None => s@ == "(permission denied)"@,
            Some(v) => exists|sorted: Seq<DirLine>|
                sorted.to_multiset() == preview_entries(v@, show_hidden).to_multiset()
                    && listing_sorted(sorted) && s@ == join_seq(
                    sorted.map_values(|l: DirLine| dir_line(l)),
                    "\n"@,
                ),
        },
{
    let v = match entries {
        None => return String::from_str("(permission denied)"),
        Some(v) => v,
    };
    let ghost kept = v@.filter(|e: (String, bool)| show_hidden || !is_hidden(e.0@));
    let mut lines: Vec<DirLine> = Vec::new();
    let mut i: usize = 0;
    while i < v.len()
        invariant
            i <= v@.len(),
            lines@ == v@.take(i as int).filter(
                |e: (String, bool)| show_hidden || !is_hidden(e.0@),
            ).map_values(|e: (String, bool)| DirLine { name: e.0, is_dir: e.1 }),
        decreases v.len() - i,
    {
        let chars = crate::ui::text::chars_of(v[i].0.as_str());
        let hidden = chars.len() > 0 && chars[0] == '.';
        proof {
            reveal(Seq::filter);
            assert(v@.take(i + 1).drop_last() =~= v@.take(i as int));
            assert(v@.take(i + 1).last() == v@[i as int]);
        }
        if show_hidden || !hidden {
            let ghost before = lines@;
            lines.push(DirLine { name: v[i].0.clone(), is_dir: v[i].1 });
            proof {
                let f = v@.take(i + 1).filter(|e: (String, bool)| show_hidden || !is_hidden(e.0@));
                assert(f == v@.take(i as int).filter(|e: (String, bool)| show_hidden || !is_hidden(e.0@)).push(v@[i as int]));
                assert(lines@ =~= f.map_values(|e: (String, bool)| DirLine { name: e.0, is_dir: e.1 }));
            }
        }
        i = i + 1;
    }
    assert(v@.take(v@.len() as int) =~= v@);
    let ghost unsorted = lines@;
    sort_listing(&mut lines);
    let mut out = String::new();
    let ghost texts = lines@.map_values(|l: DirLine| dir_line(l));
    let mut k: usize = 0;
    while k < lines.len()
        invariant
            k <= lines@.len(),
            texts == lines@.map_values(|l: DirLine| dir_line(l)),
            out@ == join_seq(texts.take(k as int), "\n"@),
        decreases lines.len() - k,
    {
        proof {
            reveal_strlit("\n");
            reveal_strlit("> ");
            reveal_strlit("  ");
        }
        if k > 0 {
            out.append("\n");
        }
        if lines[k].is_dir {
            out.append("> ");
        } else {
            out.append("  ");
        }
        out.append(lines[k].name.as_str());
        proof {
            let t = texts.take(k + 1);
            assert(t.drop_last() =~= texts.take(k as int));
            assert(t.last() == dir_line(lines@[k as int]));
            if k == 0 {
                assert(t.len() == 1);
            }
        }
        k = k + 1;
        assert(out@ =~= join_seq(texts.take(k as int), "\n"@));
    }
    assert(texts.take(lines@.len() as int) =~= texts);
    out
}

/// A line without its trailing line breaks.
pub open spec fn trim_nl(s: Seq<char>) -> Seq<char>
    decreases s.len(),
{
    if s.len() > 0 && s.last() == '\n' {
        trim_nl(s.drop_last())
    } else {
        s
    }
}

/// A line without its trailing line breaks (`str::trim_end_matches('\n')`).
fn strip_newlines(line: &str) -> (r: String)
    ensures
        r@ == trim_nl(line@),
{
    let chars = crate::ui::text::chars_of(line);
    let mut end = chars.len();
    assert(chars@.take(chars@.len() as int) =~= chars@);
    while end > 0 && chars[end - 1] == '\n'
        invariant
            end <= chars@.len(),
            trim_nl(chars@) == trim_nl(chars@.take(end as int)),
        decreases end,
    {
        assert(chars@.take(end as int).drop_last() =~= chars@.take(end - 1));
        end = end - 1;
    }
    assert(chars@.subrange(0, end as int) =~= chars@.take(end as int));
    crate::ui::text::string_of(&chars, 0, end)
}

/// What is known of a file to preview, as read from the file system.
pub struct PreviewFacts {
    pub is_symlink: bool,
    /// Where a symbolic link points, when it could be read.
    pub link_target: Option<String>,
    /// Whether it is a regular file.
    pub is_file: bool,
    /// Its lines (within its first 64 KiB, up to the first that is not
    /// UTF-8), each with its line break; `None` when it could not be opened.
    pub lines: Option<Vec<String>>,
}

/// The preview of the file at `path`: where a symbolic link points, the
/// kind of a file that is not regular, or the lines of its text.
pub open spec fn preview_of(path: Seq<char>, f: PreviewFacts) -> Seq<char> {
    if f.is_symlink {
        match f.link_target {
            Some(t) => "symlink -> "@ + t@,
            None => "symlink -> ?"@,
        }
    } else if !f.is_file {
        match std_extension(path) {
            Some(e) => e + " file"@,
            None => "special file"@,
        }
    } else {
        match f.lines {
            None => Seq::empty(),
            Some(ls) => join_seq(ls@.map_values(|l: String| trim_nl(l@)), "\n"@),
        }
    }
}

/// The preview of the file at `path` (see `preview_of`).
pub fn file_preview(path: &str, facts: PreviewFacts) -> (s: String)
    ensures
        s@ == preview_of(path@, facts),
{
    if facts.is_symlink {
        return match &facts.link_target {
            Some(t) => {
                let mut s = String::from_str("symlink -> ");
                s.append(t.as_str());
                s
            },
            None => String::from_str("symlink -> ?"),
        };
    }
    if !facts.is_file {
        return match extension(path) {
            Some(e) => {
                let mut s = e;
                s.append(" file");
                s
            },
            None => String::from_str("special file"),
        };
    }
    match &facts.lines {
        None => String::new(),
        Some(ls) => {
            let ghost texts = ls@.map_values(|l: String| trim_nl(l@));
            let mut out = String::new();
            let mut k: usize = 0;
            while k < ls.len()
                invariant
                    k <= ls@.len(),
                    texts == ls@.map_values(|l: String| trim_nl(l@)),
                    out@ == join_seq(texts.take(k as int), "\n"@),
                decreases ls.len() - k,
            {
                proof {
                    reveal_strlit("\n");
                }
                if k > 0 {
                    out.append("\n");
                }
                let line = strip_newlines(ls[k].as_str());
                out.append(line.as_str());
                proof {
                    let t = texts.take(k + 1);
                    assert(t.drop_last() =~= texts.take(k as int));
                    assert(t.last() == trim_nl(ls@[k as int]@));
                }
                k = k + 1;
                assert(out@ =~= join_seq(texts.take(k as int), "\n"@));
            }
            assert(texts.take(ls@.len() as int) =~= texts);
            out
        },
    }
}

/// The permission string of a file mode: its type (`d`, `l`, `b`, `c`,
/// `p`, `s` or `-`), then `rwx` for owner, group and others, `-` where a
/// permission is missing.
pub open spec fn perms_of(mode: u32) -> Seq<char> {
    seq![
        type_char(mode),
        perm_char(mode, 0o400u32, 'r'),
        perm_char(mode, 0o200u32, 'w'),
        perm_char(mode, 0o100u32, 'x'),
        perm_char(mode, 0o040u32, 'r'),
        perm_char(mode, 0o020u32, 'w'),
        perm_char(mode, 0o010u32, 'x'),
        perm_char(mode, 0o004u32, 'r'),
        perm_char(mode, 0o002u32, 'w'),
        perm_char(mode, 0o001u32, 'x'),
    ]
}

/// The letter of the file type in a mode.
pub open spec fn type_char(mode: u32) -> char {
    let t = mode & 0o170000u32;
    if t == 0o040000u32 {
        'd'
    } else if t == 0o120000u32 {
        'l'
    } else if t == 0o060000u32 {
        'b'
    } else if t == 0o020000u32 {
        'c'
    } else if t == 0o010000u32 {
        'p'
    } else if t == 0o140000u32 {
        's'
    } else {
        '-'
    }
}

fn type_letter(mode: u32) -> (c: char)
    ensures
        c == type_char(mode),
{
    let t = mode & 0o170000u32;
    if t == 0o040000u32 {
        'd'
    } else if t == 0o120000u32 {
        'l'
    } else if t == 0o060000u32 {
        'b'
    } else if t == 0o020000u32 {
        'c'
    } else if t == 0o010000u32 {
        'p'
    } else if t == 0o140000u32 {
        's'
    } else {
        '-'
    }
}

fn perm_letter(mode: u32, bit: u32, c: char) -> (r: char)
    ensures
        r == perm_char(mode, bit, c),
{
    if mode & bit != 0 {
        c
    } else {
        '-'
    }
}

/// `c` when the bit is set in the mode, else `-`.
pub open spec fn perm_char(mode: u32, bit: u32, c: char) -> char {
    if mode & bit != 0 {
        c
    } else {
        '-'
    }
}

/// The permission string of a file mode (see `perms_of`).
pub fn fmt_permissions(mode: u32) -> (s: String)
    ensures
        s@ == perms_of(mode),
{
    let mut s = String::new();
    push_char(&mut s, type_letter(mode));
    push_char(&mut s, perm_letter(mode, 0o400u32, 'r'));
    push_char(&mut s, perm_letter(mode, 0o200u32, 'w'));
    push_char(&mut s, perm_letter(mode, 0o100u32, 'x'));
    push_char(&mut s, perm_letter(mode, 0o040u32, 'r'));
    push_char(&mut s, perm_letter(mode, 0o020u32, 'w'));
    push_char(&mut s, perm_letter(mode, 0o010u32, 'x'));
    push_char(&mut s, perm_letter(mode, 0o004u32, 'r'));
    push_char(&mut s, perm_letter(mode, 0o002u32, 'w'));
    push_char(&mut s, perm_letter(mode, 0o001u32, 'x'));
    assert(s@ =~= perms_of(mode));
    s
}

/// Parts joined by a separator.
fn join_strings(parts: &Vec<String>, sep: &str) -> (r: String)
    ensures
        r@ == join_seq(parts@.map_values(|p: String| p@), sep@),
{
    let ghost texts = parts@.map_values(|p: String| p@);
    let mut out = String::new();
    let mut k: usize = 0;
    while k < parts.len()
        invariant
            k <= parts@.len(),
            texts == parts@.map_values(|p: String| p@),
            out@ == join_seq(texts.take(k as int), sep@),
        decreases parts.len() - k,
    {
        if k > 0 {
            out.append(sep);
        }
        out.append(parts[k].as_str());
        proof {
            let t = texts.take(k + 1);
            assert(t.drop_last() =~= texts.take(k as int));
        }
        k = k + 1;
        assert(out@ =~= join_seq(texts.take(k as int), sep@));
    }
    assert(texts.take(parts@.len() as int) =~= texts);
    out
}

/// The parts of the status line in the listing: the error shown, the
/// search, whether hidden files are shown, and the marked file.
pub open spec fn status_parts(v: AppView) -> Seq<Seq<char>> {
    let files = v.fs.files_view();
    (if v.fs.flag_view() == StateFlag::Error {
        seq!["[ERR] "@ + v.fs.info_view()]
    } else {
        Seq::empty()
    }) + (if v.search_query.len() > 0 {
        seq!["/"@ + v.search_query]
    } else {
        Seq::empty()
    }) + (if v.show_hidden {
        seq!["hidden"@]
    } else {
        Seq::empty()
    }) + (match v.marked {
        Some(i) => if i < files.len() {
            seq!["marked: "@ + shown_name(files[i as int].path_view())]
        } else {
            Seq::empty()
        },
        None => Seq::empty(),
    })
}

/// The status line: the prompt of the input line, or the parts of the
/// listing's status (`Ready` when there is none).
pub open spec fn status_of(v: AppView) -> Seq<char> {
    match v.input_ctx {
        InputContext::Search => "Search: "@ + v.input_buf + "_"@,
        InputContext::ConfirmDelete => "Delete? (y/N): "@ + v.input_buf,
        InputContext::NewFile => "New file: "@ + v.input_buf + "_"@,
        InputContext::NewDir => "New dir: "@ + v.input_buf + "_"@,
        InputContext::Rename => "Rename to: "@ + v.input_buf + "_"@,
        InputContext::Normal => if status_parts(v).len() == 0 {
            "Ready"@
        } else {
            join_seq(status_parts(v), "  \u{2502}  "@)
        },
    }
}

/// The information line: the permissions of the entry under the cursor
/// (dashes when unknown), its position and the number of entries.
pub open spec fn info_of(v: AppView, mode: Option<u32>) -> Seq<char> {
    let total = v.view.len();
    let pos = if total == 0 {
        0
    } else {
        v.list_pos + 1
    };
    (match mode {
        Some(m) => perms_of(m),
        None => "----------"@,
    }) + "  "@ + dec(pos as nat) + "/"@ + dec(total)
}

/// The title of the listing: the directory, with the search if any.
pub open spec fn title_of(v: AppView) -> Seq<char> {
    if v.search_query.len() == 0 {
        v.fs.dir_view()
    } else {
        v.fs.dir_view() + " [/"@ + v.search_query + "]"@
    }
}

/// The title of the preview: the name of the entry under the cursor.
pub open spec fn preview_title_of(v: AppView) -> Seq<char> {
    if v.list_pos < v.view.len() {
        match std_file_name(v.view[v.list_pos as int].path_view()) {
            Some(n) => n,
            None => "Preview"@,
        }
    } else {
        "Preview"@
    }
}

/// The position of the first file at path `p`, if any.
pub open spec fn position_in(files: Seq<FileInfo>, p: Seq<char>) -> Option<usize> {
    if exists|i: int| first_with_path(files, p, i) {
        Some((choose|i: int| first_with_path(files, p, i)) as usize)
    } else {
        None
    }
}

/// The position in the view of the marked file, if it is shown.
pub open spec fn marked_view_of(v: AppView) -> Option<usize> {
    match v.marked {
        None => None,
        Some(orig) => if orig < v.fs.files_view().len() {
            position_in(v.view, v.fs.files_view()[orig as int].path_view())
        } else {
            None
        },
    }
}

/// The content of the preview: a directory's entries, or the size of a
/// file (from `size`) and its text, once read.
pub open spec fn preview_content_of(v: AppView, size: Seq<char>) -> Seq<char> {
    if v.list_pos >= v.view.len() {
        Seq::empty()
    } else if v.view[v.list_pos as int].dir_view() {
        v.preview_text
    } else if v.preview_text.len() == 0 {
        "Size: "@ + size + "\n\nLoading..."@
    } else {
        "Size: "@ + size + "\n\n"@ + v.preview_text
    }
}

impl App {
    /// After a key: when the cursor moved or the view was reset, the
    /// preview is cleared and to be fetched again (the result); a reset
    /// view scrolls to its top, otherwise the scroll follows the cursor.
    pub fn finish_key(&mut self, prev_pos: usize, terminal_rows: usize) -> (refetch: bool)
        requires
            old(self).wf(),
        ensures
            final(self).wf(),
            refetch == (old(self)@.list_pos != prev_pos || old(self)@.view_dirty),
            final(self)@ == (AppView {
                preview_text: if refetch {
                    Seq::empty()
                } else {
                    old(self)@.preview_text
                },
                scroll_offset: if old(self)@.view_dirty {
                    0
                } else {
                    clamped(old(self)@.list_pos, old(self)@.scroll_offset, terminal_rows)
                },
                view_dirty: false,
                ..old(self)@
            }),
    {
        let refetch = self.list_pos != prev_pos || self.view_dirty;
        if refetch {
            self.preview_text = String::new();
        }
        if self.view_dirty {
            self.scroll_offset = 0;
            self.view_dirty = false;
        } else {
            self.clamp_scroll(terminal_rows);
        }
        refetch
    }

    /// What the preview of the entry under the cursor needs.
    pub fn preview_request(&self) -> (r: PreviewRequest)
        ensures
            self@.list_pos >= self@.view.len() ==> r is Nothing,
            self@.list_pos < self@.view.len() ==> if self@.view[self@.list_pos as int].dir_view() {
                r matches PreviewRequest::Dir(p, h) && p@ == self@.view[self@.list_pos as int].path_view()
                    && h == self@.show_hidden
            } else {
                r matches PreviewRequest::File(p) && p@ == self@.view[self@.list_pos as int].path_view()
            },
    {
        if self.list_pos >= self.view.len() {
            return PreviewRequest::Nothing;
        }
        let e = &self.view[self.list_pos];
        if e.is_dir() {
            PreviewRequest::Dir(e.path().clone(), self.show_hidden)
        } else {
            PreviewRequest::File(e.path().clone())
        }
    }

    /// The preview text arrived.
    pub fn set_preview(&mut self, text: String)
        requires
            old(self).wf(),
        ensures
            final(self).wf(),
            final(self)@ == (AppView { preview_text: text@, ..old(self)@ }),
    {
        self.preview_text = text;
    }

    /// The content of the preview (see `preview_content_of`), the file's
    /// size being shown as `size`.
    pub fn build_preview_content(&self, size: &str) -> (s: String)
        ensures
            s@ == preview_content_of(self@, size@),
    {
        if self.list_pos >= self.view.len() {
            return String::new();
        }
        if self.view[self.list_pos].is_dir() {
            return self.preview_text.clone();
        }
        let mut s = String::from_str("Size: ");
        s.append(size);
        if self.preview_text.as_str().is_empty() {
            s.append("\n\nLoading...");
        } else {
            s.append("\n\n");
            s.append(self.preview_text.as_str());
        }
        s
    }

    /// The status line (see `status_of`).
    pub fn build_status(&self) -> (s: String)
        ensures
            s@ == status_of(self@),
    {
        match self.input_ctx {
            InputContext::Search => {
                let mut s = String::from_str("Search: ");
                s.append(self.input_buf.as_str());
                s.append("_");
                s
            },
            InputContext::ConfirmDelete => {
                let mut s = String::from_str("Delete? (y/N): ");
                s.append(self.input_buf.as_str());
                s
            },
            InputContext::NewFile => {
                let mut s = String::from_str("New file: ");
                s.append(self.input_buf.as_str());
                s.append("_");
                s
            },
            InputContext::NewDir => {
                let mut s = String::from_str("New dir: ");
                s.append(self.input_buf.as_str());
                s.append("_");
                s
            },
            InputContext::Rename => {
                let mut s = String::from_str("Rename to: ");
                s.append(self.input_buf.as_str());
                s.append("_");
                s
            },
            InputContext::Normal => {
                let mut parts: Vec<String> = Vec::new();
                let ghost v = self@;
                if self.fs.state_flag() == StateFlag::Error {
                    let mut p = String::from_str("[ERR] ");
                    p.append(self.fs.state_info());
                    parts.push(p);
                }
                if !self.search_query.as_str().is_empty() {
                    let mut p = String::from_str("/");
                    p.append(self.search_query.as_str());
                    parts.push(p);
                }
                if self.show_hidden {
                    parts.push(String::from_str("hidden"));
                }
                if let Some(idx) = self.marked {
                    if let Some(f) = self.fs.get_file(idx) {
                        let mut p = String::from_str("marked: ");
                        p.append(name_of(f.path()).as_str());
                        parts.push(p);
                    }
                }
                assert(parts@.map_values(|p: String| p@) =~= status_parts(v));
                if parts.len() == 0 {
                    String::from_str("Ready")
                } else {
                    join_strings(&parts, "  \u{2502}  ")
                }
            },
        }
    }

    /// The information line (see `info_of`), the entry's mode being `mode`.
    pub fn build_info(&self, mode: Option<u32>) -> (s: String)
        requires
            self.wf(),
        ensures
            s@ == info_of(self@, mode),
    {
        let total = self.view.len();
        let pos = if total == 0 {
            0
        } else {
            self.list_pos + 1
        };
        let mut s = match mode {
            Some(m) => fmt_permissions(m),
            None => String::from_str("----------"),
        };
        s.append("  ");
        push_dec_usize(&mut s, pos);
        s.append("/");
        push_dec_usize(&mut s, total);
        s
    }

    /// The title of the listing (see `title_of`).
    pub fn title(&self) -> (s: String)
        ensures
            s@ == title_of(self@),
    {
        let mut s = String::from_str(self.fs.current_dir());
        if !self.search_query.as_str().is_empty() {
            s.append(" [/");
            s.append(self.search_query.as_str());
            s.append("]");
        }
        s
    }

    /// The title of the preview (see `preview_title_of`).
    pub fn preview_title(&self) -> (s: String)
        ensures
            s@ == preview_title_of(self@),
    {
        if self.list_pos >= self.view.len() {
            return String::from_str("Preview");
        }
        match file_name(self.view[self.list_pos].path().as_str()) {
            Some(n) => n,
            None => String::from_str("Preview"),
        }
    }

    /// The position in the view of the marked file (see `marked_view_of`).
    pub fn marked_in_view(&self) -> (r: Option<usize>)
        ensures
            r == marked_view_of(self@),
    {
        let orig = match self.marked {
            None => return None,
            Some(o) => o,
        };
        let target = match self.fs.get_file(orig) {
            None => return None,
            Some(f) => f.path(),
        };
        let mut i: usize = 0;
        while i < self.view.len()
            invariant
                i <= self@.view.len(),
                self@.marked == Some(orig),
                orig < self@.fs.files_view().len(),
                target@ == self@.fs.files_view()[orig as int].path_view(),
                forall|j: int| 0 <= j < i ==> (#[trigger] self@.view[j]).path_view() != target@,
            decreases self.view.len() - i,
        {
            if self.view[i].path().eq(target) {
                proof {
                    let p = self@.fs.files_view()[orig as int].path_view();
                    assert(first_with_path(self@.view, p, i as int));
                    let c = choose|k: int| first_with_path(self@.view, p, k);
                    assert(first_with_path(self@.view, p, c));
                    if c < i {
                        assert(self@.view[c].path_view() != target@);
                    } else if c > i {
                        assert(self@.view[i as int].path_view() != target@);
                    }
                    assert(c == i);
                    assert(position_in(self@.view, p) == Some(c as usize));
                }
                return Some(i);
            }
            i = i + 1;
        }
        assert(!exists|k: int| first_with_path(self@.view, self@.fs.files_view()[orig as int].path_view(), k));
        None
    }

    /// How the browser ends: in its current directory after `q`, where it
    /// started after `Q`.
    pub fn exit_action(&self) -> (a: ExitAction)
        ensures
            self@.stay_on_quit ==> a is Stay,
            !self@.stay_on_quit ==> (a matches ExitAction::ChangeTo(p) && p@ == self@.fs.dir_view()),
    {
        if self.stay_on_quit {
            ExitAction::Stay
        } else {
            ExitAction::ChangeTo(self.fs.current_dir().to_string())
        }
    }

    /// Reports that the history could not be written.
    pub fn history_failed(&mut self, e: &str)
        requires
            old(self).wf(),
        ensures
            final(self).wf(),
            final(self)@.fs.flag_view() == StateFlag::Error,
            final(self)@.fs.info_view() == "History record failed: "@ + e@,
            final(self)@ == (AppView { fs: final(self)@.fs, ..old(self)@ }),
    {
        self.fs.history_failed(e);
    }

    pub fn fs_core(&self) -> (c: &FileSystemCore)
        ensures
            *c == self@.fs,
    {
        &self.fs
    }

    /// The entries shown.
    pub fn entries(&self) -> (s: &[FileInfo])
        ensures
            s@ == self@.view,
    {
        self.view.as_slice()
    }

    pub fn list_pos(&self) -> (p: usize)
        ensures
            p == self@.list_pos,
    {
        self.list_pos
    }

    pub fn scroll_offset(&self) -> (p: usize)
        ensures
            p == self@.scroll_offset,
    {
        self.scroll_offset
    }

    pub fn should_quit(&self) -> (b: bool)
        ensures
            b == self@.should_quit,
    {
        self.should_quit
    }

    pub fn input_ctx(&self) -> (c: InputContext)
        ensures
            c == self@.input_ctx,
    {
        self.input_ctx
    }

    pub fn show_hidden(&self) -> (b: bool)
        ensures
            b == self@.show_hidden,
    {
        self.show_hidden
    }
}

/// The cursor cycles through the rows: it stays on a row, and one step
/// down then one step up (or up then down) brings it back where it was,
/// also across the ends of the view.
pub proof fn lemma_cursor_round_trip(len: nat, pos: usize)
    requires
        pos < len <= usize::MAX,
    ensures
        moved(len, pos, true) < len,
        moved(len, pos, false) < len,
        moved(len, moved(len, pos, true), false) == pos,
        moved(len, moved(len, pos, false), true) == pos,
{
}

/// Marking the file under the cursor twice leaves nothing marked, as
/// before.
pub proof fn lemma_mark_twice(v: AppView)
    requires
        v.marked is None,
    ensures
        toggled(toggled(v)) == v,
{
}

/// After scrolling, the cursor is on one of the rows the listing shows,
/// on a terminal with room for at least one row.
pub proof fn lemma_scroll_shows_cursor(pos: usize, offset: usize, rows: usize)
    requires
        rows >= 8,
    ensures
        clamped(pos, offset, rows) <= pos < clamped(pos, offset, rows) + (rows - 7),
{
}

/// In the listing, the arrow keys act exactly as `j`, `k`, `h` and `l`:
/// each allows just the outcomes of its letter. `n` and `m` open the input
/// line, empty, for a new file or directory and change nothing else.
pub proof fn lemma_arrows_act_as_letters(o: AppView, n: AppView, eff: Effect)
    requires
        o.input_ctx == InputContext::Normal,
    ensures
        key_post(o, KeyCode::Down, n, eff) == key_post(o, KeyCode::Char('j'), n, eff),
        key_post(o, KeyCode::Up, n, eff) == key_post(o, KeyCode::Char('k'), n, eff),
        key_post(o, KeyCode::Left, n, eff) == key_post(o, KeyCode::Char('h'), n, eff),
        key_post(o, KeyCode::Right, n, eff) == key_post(o, KeyCode::Char('l'), n, eff),
        key_post(o, KeyCode::Char('n'), n, eff) <==> (n == (AppView {
            input_ctx: InputContext::NewFile,
            input_buf: Seq::empty(),
            ..o
        }) && eff is Done),
        key_post(o, KeyCode::Char('m'), n, eff) <==> (n == (AppView {
            input_ctx: InputContext::NewDir,
            input_buf: Seq::empty(),
            ..o
        }) && eff is Done),
{
}

/// The frame the screen shows, drawn by the widgets `fl`, `pv` and `sb`
/// in the areas `areas` (listing, preview, status bar); a widget whose
/// area does not fit on the grid draws nothing.
pub open spec fn frame_drawn(fl: FileList, pv: Preview, sb: StatusBar, areas: (Area, Area, Area)) -> Seq<OpView> {
    (if on_grid(areas.0) && columns_fit(areas.0) {
        file_list_ops(fl, areas.0)
    } else {
        Seq::empty()
    }) + (if on_grid(areas.1) {
        preview_ops(pv, areas.1)
    } else {
        Seq::empty()
    }) + (if on_grid(areas.2) && sb.status@.len() <= usize::MAX / 4 && sb.info@.len() <= usize::MAX
        / 4 {
        status_ops(sb, areas.2)
    } else {
        Seq::empty()
    })
}

/// The widgets of a frame of the browser `v`: the listing of `rows` (the
/// entries of the view as the file system shows them) with the cursor, the
/// scroll and the mark, under the title; the preview, a file's size shown
/// as `size`; the status and information lines, the entry's mode being
/// `mode`.
pub open spec fn frame_widgets(v: AppView, rows: Seq<FileRow>, size: Seq<char>, mode: Option<u32>, fl: FileList, pv: Preview, sb: StatusBar) -> bool {
    &&& fl.files@ == rows
    &&& fl.cursor == v.list_pos
    &&& fl.scroll_offset == v.scroll_offset
    &&& fl.marked == marked_view_of(v)
    &&& fl.title@ == title_of(v)
    &&& pv.title@ == preview_title_of(v)
    &&& pv.content@ == preview_content_of(v, size)
    &&& sb.status@ == status_of(v)
    &&& sb.info@ == info_of(v, mode)
}

/// What a frame of the browser `v` draws in `areas`.
pub open spec fn frame_shown(v: AppView, rows: Seq<FileRow>, size: Seq<char>, mode: Option<u32>, areas: (Area, Area, Area), ops: Seq<OpView>) -> bool {
    exists|fl: FileList, pv: Preview, sb: StatusBar|
        #[trigger] frame_widgets(v, rows, size, mode, fl, pv, sb) && ops == frame_drawn(fl, pv, sb, areas)
}

/// The areas of a frame of `full`: all but its last three rows (`Min(0)`)
/// over a status bar of three rows (`Length(3)`), the upper part halved
/// (`Percentage(50)` twice) into the listing and the preview.
pub open spec fn frame_areas(full: Area) -> (Area, Area, Area) {
    let v = split_v_of(full, seq![Cons::Min(0), Cons::Length(3)]);
    let h = split_h_of(v[0], seq![Cons::Percentage(50), Cons::Percentage(50)]);
    (h[0], h[1], v[1])
}

/// Whether an area lies on the grid.
fn fits(a: Area) -> (b: bool)
    ensures
        b == on_grid(a),
{
    (a.x as u32) + (a.width as u32) <= 65535 && (a.y as u32) + (a.height as u32) <= 65535
}

impl App {
    /// The drawing operations of a frame in the given areas (listing,
    /// preview, status bar; see `frame_shown`).
    pub fn compose_frame(&self, rows: Vec<FileRow>, size: &str, mode: Option<u32>, areas: (Area, Area, Area)) -> (ops: Vec<Op>)
        requires
            self.wf(),
        ensures
            frame_shown(self@, rows@, size@, mode, areas, ops_view(ops@)),
    {
        let (left, right, bar) = areas;
        let fl = FileList {
            files: rows,
            cursor: self.list_pos,
            scroll_offset: self.scroll_offset,
            marked: self.marked_in_view(),
            title: self.title(),
        };
        let pv = Preview { title: self.preview_title(), content: self.build_preview_content(size) };
        let sb = StatusBar { status: self.build_status(), info: self.build_info(mode) };
        let mut ops = if fits(left) && (left.width < 6 || left.height < 5 || left.width >= 19 || (
        left.x as u32) + 18 <= 65535) {
            fl.render(left)
        } else {
            Vec::new()
        };
        let ghost a = ops@;
        let mut more = if fits(right) {
            pv.render(right)
        } else {
            Vec::new()
        };
        let ghost b = more@;
        ops.append(&mut more);
        let sl = sb.status.as_str().unicode_len();
        let il = sb.info.as_str().unicode_len();
        let mut last = if fits(bar) && sl <= usize::MAX / 4 && il <= usize::MAX / 4 {
            sb.render(bar)
        } else {
            Vec::new()
        };
        let ghost c = last@;
        ops.append(&mut last);
        proof {
            assert(ops@ =~= a + b + c);
            assert(ops_view(a + b + c) =~= ops_view(a) + ops_view(b) + ops_view(c));
            assert(frame_widgets(self@, rows@, size@, mode, fl, pv, sb));
            assert(ops_view(ops@) =~= frame_drawn(fl, pv, sb, areas));
        }
        ops
    }

    /// The drawing operations of a frame of `full` (see `frame_areas`).
    pub fn frame_ops(&self, rows: Vec<FileRow>, size: &str, mode: Option<u32>, full: Area) -> (ops: Vec<Op>)
        requires
            self.wf(),
        ensures
            frame_shown(self@, rows@, size@, mode, frame_areas(full), ops_view(ops@)),
    {
        let mut rows_cons: Vec<Cons> = Vec::new();
        rows_cons.push(Cons::Min(0));
        rows_cons.push(Cons::Length(3));
        let v = split_vertical(full, &rows_cons);
        let mut cols_cons: Vec<Cons> = Vec::new();
        cols_cons.push(Cons::Percentage(50));
        cols_cons.push(Cons::Percentage(50));
        let h = split_horizontal(v[0], &cols_cons);
        proof {
            assert(rows_cons@ =~= seq![Cons::Min(0), Cons::Length(3)]);
            assert(cols_cons@ =~= seq![Cons::Percentage(50), Cons::Percentage(50)]);
        }
        self.compose_frame(rows, size, mode, (h[0], h[1], v[1]))
    }
}

/// A new browser shows its start directory: once its listing arrives
/// (read in full) and the step after it is taken, the core is idle and
/// ready in the start directory, the files are the ones listed, sorted
/// (directories first, then by name), nothing is selected or marked, the
/// cursor is at the top, and the view holds every file that is not hidden,
/// in that order.
pub proof fn lemma_new_browser_shows_listing(
    start: Seq<char>,
    history: History,
    v0: AppView,
    e0: Effect,
    items: Vec<FileInfo>,
    v1: AppView,
    e1: Effect,
    v2: AppView,
    e2: Effect,
)
    requires
        started_browser(start, history, v0, e0),
        resumed(v0, Event::Listing(items, None), v1, e1),
        resumed(v1, Event::Go, v2, e2),
    ensures
        e1 is Continue,
        e2 is Done,
        v2.fs.idle_view(),
        v2.fs.dir_view() == start,
        v2.fs.flag_view() == StateFlag::Ready,
        v2.fs.info_view() == "Ready"@,
        listing_sorted(v2.fs.files_view()),
        v2.fs.files_view().to_multiset() == items@.to_multiset(),
        v2.fs.selected_view() is None,
        v2.view == v2.fs.files_view().filter(|f: FileInfo| !is_hidden(f.name_view())),
        v2.list_pos == 0,
        v2.scroll_offset == 0,
        v2.marked is None,
{
    assert(v0.fs.frames@.last() == crate::fs_info::fs_core::Frame::Refresh);
    assert(v0.fs.frames@.drop_last() =~= Seq::<crate::fs_info::fs_core::Frame>::empty());
    assert(v1.fs.frames@.len() == 0);
    assert((|f: FileInfo| visible(f.name_view(), false, Seq::<char>::empty())) =~= (|f: FileInfo|
        !is_hidden(f.name_view())));
}


/// Law: a search keeps a file wherever its name holds the search, not
/// only at its start. After Enter on the search line, a file of the
/// listing is in the view exactly when it is shown (its name does not
/// start with a dot, or hidden files are shown) and the trimmed input is
/// empty or its lower-case form occurs in the lower-case name of the file,
/// starting at some index `i`.
pub proof fn lemma_search_finds_substrings(o: AppView, n: AppView, eff: Effect, f: FileInfo)
    requires
        o.input_ctx == InputContext::Search,
        key_post(o, KeyCode::Enter, n, eff),
        o.fs.files_view().contains(f),
    ensures
        eff is Done,
        n.view.contains(f) <==> ((o.show_hidden || !(f.name_view().len() > 0 && f.name_view()[0]
            == '.')) && (std_trim(o.input_buf).len() == 0 || exists|i: int|
            0 <= i && i + std_lowercase(std_trim(o.input_buf)).len() <= std_lowercase(
                f.name_view(),
            ).len() && #[trigger] std_lowercase(f.name_view()).subrange(
                i,
                i + std_lowercase(std_trim(o.input_buf)).len(),
            ) == std_lowercase(std_trim(o.input_buf)))),
{
    let files = o.fs.files_view();
    let s = std_trim(o.input_buf);
    let pred = |g: FileInfo| visible(g.name_view(), o.show_hidden, s);
    assert(n.view == files.filter(pred));
    if n.view.contains(f) {
        let j = choose|j: int| 0 <= j < n.view.len() && n.view[j] == f;
        files.lemma_filter_pred(pred, j);
    }
    if visible(f.name_view(), o.show_hidden, s) {
        let k = choose|k: int| 0 <= k < files.len() && files[k] == f;
        files.lemma_filter_contains(pred, k);
    }
}

/// Law: the delete prompt takes `y`, in either case, as yes and anything
/// else as no. With a file of the listing marked, Enter on the prompt
/// starts the removal of that very file (its path is probed first) when
/// the trimmed input is `y` or `Y`; on any other input nothing is removed:
/// the core is left as it was. Either way the prompt is left.
pub proof fn lemma_delete_confirmation(o: AppView, n: AppView, eff: Effect, idx: usize)
    requires
        o.input_ctx == InputContext::ConfirmDelete,
        o.marked == Some(idx),
        idx < o.fs.files_view().len(),
        key_post(o, KeyCode::Enter, n, eff),
    ensures
        n.input_ctx == InputContext::Normal,
        (std_trim(o.input_buf) == seq!['y'] || std_trim(o.input_buf) == seq!['Y']) ==> (
        eff matches Effect::Probe(p) && p@ == o.fs.files_view()[idx as int].path_view()),
        !(std_trim(o.input_buf) == seq!['y'] || std_trim(o.input_buf) == seq!['Y']) ==> (
        eff is Done && n.fs == o.fs),
{
    let t = std_trim(o.input_buf);
    if t == seq!['y'] || t == seq!['Y'] {
        assert(is_yes(t));
        let mid = choose|mid: FileSystemCore|
            (exists|r: Result<(), String>| crate::fs_info::fs_core::selected_as(o.fs, mid, idx, r))
                && crate::fs_info::fs_core::started_remove(mid, n.fs, eff) && n == exited(
                began(o, n.fs, AfterOp::Unmark, eff),
            );
        let r = choose|r: Result<(), String>| crate::fs_info::fs_core::selected_as(o.fs, mid, idx, r);
        assert(mid.selected_view() == Some(idx));
    } else if is_yes(t) {
        if t[0] == 'y' {
            assert(t =~= seq!['y']);
        } else {
            assert(t =~= seq!['Y']);
        }
    }
}


/// Law: the steps of a file system operation under way keep the mark, the
/// search and what is left to do once it is over; the last step of an
/// operation begun by entering a directory leaves nothing marked (a mark
/// names a file of the listing that was left) and no search.
pub proof fn lemma_run_keeps_mark_until_entered(v: AppView, ev: Event, w: AppView, eff: Effect)
    requires
        resumed(v, ev, w, eff),
    ensures
        !(eff is Done) ==> w.after == v.after && w.marked == v.marked && w.search_query
            == v.search_query,
        (eff is Done && v.after == AfterOp::ClearSearch) ==> w.marked is None
            && w.search_query.len() == 0 && w.after == AfterOp::Nothing,
{
}

/// Law: after entering a directory nothing is marked and there is no
/// search. Enter on a directory of the view, followed by the steps of the
/// operation it starts, none over before the last, ends with no mark and
/// an empty search, whatever was marked before.
pub proof fn lemma_enter_clears_mark(o: AppView, run: Seq<AppView>, evs: Seq<Event>, effs: Seq<Effect>)
    requires
        o.input_ctx == InputContext::Normal,
        o.list_pos < o.view.len(),
        o.view[o.list_pos as int].dir_view(),
        run.len() >= 1,
        effs.len() == run.len(),
        evs.len() + 1 == run.len(),
        key_post(o, KeyCode::Enter, run[0], effs[0]),
        forall|i: int|
            0 <= i < evs.len() ==> #[trigger] resumed(run[i], evs[i], run[i + 1], effs[i + 1]),
        forall|i: int| 0 <= i < run.len() - 1 ==> !(#[trigger] effs[i] is Done),
        effs.last() is Done,
    ensures
        run.last().marked is None,
        run.last().search_query.len() == 0,
{
    let m = run.len() - 1;
    if m > 0 {
        let j = m - 1;
        lemma_enter_run_after(o, run, evs, effs, j);
        assert(resumed(run[j], evs[j], run[j + 1], effs[j + 1]));
        lemma_run_keeps_mark_until_entered(run[j], evs[j], run[j + 1], effs[j + 1]);
    }
}

/// While the operation begun by entering a directory runs, clearing the
/// mark and the search is what is left to do.
proof fn lemma_enter_run_after(o: AppView, run: Seq<AppView>, evs: Seq<Event>, effs: Seq<Effect>, k: int)
    requires
        o.input_ctx == InputContext::Normal,
        o.list_pos < o.view.len(),
        o.view[o.list_pos as int].dir_view(),
        effs.len() == run.len(),
        evs.len() + 1 == run.len(),
        0 <= k < run.len() - 1,
        key_post(o, KeyCode::Enter, run[0], effs[0]),
        forall|i: int|
            0 <= i < evs.len() ==> #[trigger] resumed(run[i], evs[i], run[i + 1], effs[i + 1]),
        forall|i: int| 0 <= i < run.len() - 1 ==> !(#[trigger] effs[i] is Done),
    ensures
        run[k].after == AfterOp::ClearSearch,
    decreases k,
{
    if k == 0 {
        assert(!(effs[0] is Done));
    } else {
        lemma_enter_run_after(o, run, evs, effs, k - 1);
        assert(!(effs[k] is Done));
        let j = k - 1;
        assert(resumed(run[j], evs[j], run[j + 1], effs[j + 1]));
        lemma_run_keeps_mark_until_entered(run[j], evs[j], run[j + 1], effs[j + 1]);
    }
}


/// Law: Space marks the file under the cursor, in place of any other mark,
/// and unmarks it only when that very file is the marked one. The file
/// under the cursor is the first file of the listing at its path, at index
/// `k`; nothing else changes.
pub proof fn lemma_space_marks_file_under_cursor(o: AppView, n: AppView, eff: Effect, k: usize)
    requires
        o.input_ctx == InputContext::Normal,
        o.list_pos < o.view.len(),
        k < o.fs.files_view().len(),
        o.fs.files_view()[k as int].path_view() == o.view[o.list_pos as int].path_view(),
        forall|j: int|
            0 <= j < k ==> (#[trigger] o.fs.files_view()[j]).path_view() != o.view[o.list_pos as int].path_view(),
        key_post(o, KeyCode::Char(' '), n, eff),
    ensures
        eff is Done,
        o.marked == Some(k) ==> n.marked is None,
        o.marked != Some(k) ==> n.marked == Some(k),
        n == (AppView { marked: n.marked, ..o }),
{
    let files = o.fs.files_view();
    let p = o.view[o.list_pos as int].path_view();
    assert(first_with_path(files, p, k as int));
    let i = choose|i: int| first_with_path(files, p, i);
    if i < k {
        assert(files[i].path_view() != p);
    } else if i > k {
        assert(files[k as int].path_view() != p);
    }
    assert(orig_of(files, p) == k);
}

} // verus!
