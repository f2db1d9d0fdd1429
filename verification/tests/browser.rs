use npns::browser::{
    build_dir_preview, file_preview, fmt_permissions, App, ConflictKind, ExitAction,
    InputContext, PasteDialog, PreviewFacts, PreviewRequest,
};
use npns::fs_info::duplicate_handler::DuplicatedFileHandleOps;
use npns::fs_info::file_info::FileInfo;
use npns::fs_info::fs_core::{Effect, Event};
use npns::fs_info::history::History;
use npns::fs_info::state::StateFlag;
use npns::ui::input::KeyCode;
use npns::ui::widget::canvas::{Area, OpKind};
use npns::ui::widget::file_list::FileRow;

/// Answers the effects of one directory `/w` holding `entries` (name, is_dir).
fn answer(eff: &Effect, entries: &[(&str, bool)], created: &mut Vec<String>) -> Option<Event> {
    match eff {
        Effect::Done => None,
        Effect::Continue => Some(Event::Go),
        Effect::List(p) => {
            let mut items: Vec<FileInfo> = entries
                .iter()
                .map(|(n, d)| FileInfo::new(n.to_string(), format!("{}/{}", p, n), 3, *d))
                .collect();
            for c in created.iter() {
                items.push(FileInfo::new(c.clone(), format!("{}/{}", p, c), 0, false));
            }
            Some(Event::Listing(items, None))
        },
        Effect::Probe(p) => {
            let found = entries.iter().find(|(n, _)| format!("/w/{}", n) == *p);
            Some(Event::Probe(found.is_some(), found.map(|f| f.1).unwrap_or(false)))
        },
        Effect::Create(p, _) => {
            created.push(p.rsplit('/').next().unwrap().to_string());
            Some(Event::Outcome(Ok(())))
        },
        _ => Some(Event::Outcome(Ok(()))),
    }
}

fn drive(app: &mut App, eff: Effect, entries: &[(&str, bool)], created: &mut Vec<String>) {
    let mut eff = eff;
    while let Some(ev) = answer(&eff, entries, created) {
        eff = app.resume(ev);
    }
    assert!(app.is_idle());
}

const ENTRIES: [(&str, bool); 4] = [(".hidden", false), ("readme.md", false), ("a", false), ("sub", true)];

fn browser() -> App {
    let (mut app, first) = App::new("/w".to_string(), History::with_path("/tmp/h".to_string(), true));
    let mut created = Vec::new();
    drive(&mut app, first, &ENTRIES, &mut created);
    app
}

fn shown(app: &App) -> Vec<String> {
    app.entries().iter().map(|f| f.name().to_string()).collect()
}

fn key(app: &mut App, k: KeyCode) {
    let eff = app.handle_key(k);
    let mut created = Vec::new();
    drive(app, eff, &ENTRIES, &mut created);
}

#[test]
fn hidden_files_are_left_out_until_shown() {
    let mut app = browser();
    assert_eq!(shown(&app), vec!["sub", "a", "readme.md"]);
    key(&mut app, KeyCode::Char('.'));
    assert_eq!(shown(&app), vec!["sub", ".hidden", "a", "readme.md"]);
    assert!(app.show_hidden());
    assert_eq!(app.build_status(), "hidden");
}

#[test]
fn cursor_wraps_around() {
    let mut app = browser();
    assert_eq!(app.list_pos(), 0);
    key(&mut app, KeyCode::Char('k'));
    assert_eq!(app.list_pos(), 2);
    key(&mut app, KeyCode::Down);
    assert_eq!(app.list_pos(), 0);
    key(&mut app, KeyCode::Char('j'));
    assert_eq!(app.list_pos(), 1);
}

#[test]
fn search_filters_case_insensitively_and_esc_clears_it() {
    let mut app = browser();
    key(&mut app, KeyCode::Char('/'));
    assert_eq!(app.input_ctx(), InputContext::Search);
    for c in "READ".chars() {
        key(&mut app, KeyCode::Char(c));
    }
    assert_eq!(app.build_status(), "Search: READ_");
    key(&mut app, KeyCode::Enter);
    assert_eq!(app.input_ctx(), InputContext::Normal);
    assert_eq!(shown(&app), vec!["readme.md"]);
    assert_eq!(app.title(), "/w [/READ]");
    assert_eq!(app.build_status(), "/READ");
    key(&mut app, KeyCode::Esc);
    assert_eq!(shown(&app), vec!["sub", "a", "readme.md"]);
    assert_eq!(app.title(), "/w");
}

#[test]
fn input_line_edits_and_escapes() {
    let mut app = browser();
    key(&mut app, KeyCode::Char('n'));
    key(&mut app, KeyCode::Char('x'));
    key(&mut app, KeyCode::Char('y'));
    key(&mut app, KeyCode::Backspace);
    assert_eq!(app.build_status(), "New file: x_");
    key(&mut app, KeyCode::Esc);
    assert_eq!(app.input_ctx(), InputContext::Normal);
    assert_eq!(app.build_status(), "Ready");
}

#[test]
fn new_file_takes_the_trimmed_name() {
    let mut app = browser();
    key(&mut app, KeyCode::Char('n'));
    for c in "  new.txt ".chars() {
        let eff = app.handle_key(KeyCode::Char(c));
        assert!(matches!(eff, Effect::Done));
    }
    let eff = app.handle_key(KeyCode::Enter);
    assert!(matches!(eff, Effect::Probe(ref p) if p == "/w/new.txt"));
    let mut created = Vec::new();
    drive(&mut app, eff, &ENTRIES, &mut created);
    assert_eq!(created, vec!["new.txt"]);
    assert!(shown(&app).contains(&"new.txt".to_string()));
    assert_eq!(app.list_pos(), 0);
}

#[test]
fn marking_shows_in_status_and_info() {
    let mut app = browser();
    key(&mut app, KeyCode::Char('j'));
    key(&mut app, KeyCode::Char(' '));
    assert_eq!(app.build_status(), "marked: a");
    assert_eq!(app.marked_in_view(), Some(1));
    assert_eq!(app.build_info(Some(0o100644)), "-rw-r--r--  2/3");
    assert_eq!(app.build_info(None), "----------  2/3");
    key(&mut app, KeyCode::Char(' '));
    assert_eq!(app.marked_in_view(), None);
}

#[test]
fn delete_asks_for_confirmation() {
    let mut app = browser();
    key(&mut app, KeyCode::Char('d'));
    assert_eq!(app.input_ctx(), InputContext::Normal);
    key(&mut app, KeyCode::Char(' '));
    key(&mut app, KeyCode::Char('d'));
    assert_eq!(app.input_ctx(), InputContext::ConfirmDelete);
    assert_eq!(app.build_status(), "Delete? (y/N): ");
    key(&mut app, KeyCode::Char('n'));
    key(&mut app, KeyCode::Enter);
    assert_eq!(app.input_ctx(), InputContext::Normal);
    assert_eq!(app.marked_in_view(), Some(0));
}

#[test]
fn confirmed_delete_removes_the_marked_file_for_good() {
    let mut app = browser();
    key(&mut app, KeyCode::Char(' '));
    key(&mut app, KeyCode::Char('d'));
    key(&mut app, KeyCode::Char(' '));
    key(&mut app, KeyCode::Char('Y'));
    let mut eff = app.handle_key(KeyCode::Enter);
    let mut removed = Vec::new();
    let mut created = Vec::new();
    loop {
        if let Effect::Remove(p, d) = &eff {
            removed.push((p.clone(), *d));
        }
        match answer(&eff, &ENTRIES, &mut created) {
            Some(ev) => eff = app.resume(ev),
            None => break,
        }
    }
    assert_eq!(removed, vec![("/w/sub".to_string(), true)]);
    assert_eq!(app.input_ctx(), InputContext::Normal);
    assert_eq!(app.marked_in_view(), None);
    assert_eq!(app.fs_core().state_flag(), StateFlag::Ready);
    key(&mut app, KeyCode::Char('u'));
    assert_eq!(app.fs_core().state_info(), "Cannot undo remove operation (not recoverable)");
}

#[test]
fn rename_starts_from_the_marked_name() {
    let mut app = browser();
    key(&mut app, KeyCode::Char('r'));
    assert_eq!(app.input_ctx(), InputContext::Normal);
    key(&mut app, KeyCode::Char('j'));
    key(&mut app, KeyCode::Char(' '));
    key(&mut app, KeyCode::Char('r'));
    assert_eq!(app.input_ctx(), InputContext::Rename);
    assert_eq!(app.build_status(), "Rename to: a_");
}

#[test]
fn quitting_with_q_changes_to_the_current_directory() {
    let mut app = browser();
    key(&mut app, KeyCode::Char('Q'));
    assert!(app.should_quit());
    assert!(matches!(app.exit_action(), ExitAction::Stay));
    let mut app = browser();
    key(&mut app, KeyCode::Char('q'));
    assert!(app.should_quit());
    assert!(matches!(app.exit_action(), ExitAction::ChangeTo(ref p) if p == "/w"));
}

#[test]
fn entering_a_directory_clears_the_search() {
    let mut app = browser();
    let eff = app.handle_key(KeyCode::Enter);
    assert!(matches!(eff, Effect::Probe(ref p) if p == "/w/sub"));
    let mut created = Vec::new();
    drive(&mut app, eff, &ENTRIES, &mut created);
    assert_eq!(app.fs_core().current_dir(), "/w/sub");
    assert_eq!(app.fs_core().state_info(), "Entered: sub");
}

#[test]
fn paste_key_starts_a_paste() {
    let mut app = browser();
    let eff = app.handle_key(KeyCode::Char('v'));
    assert!(matches!(eff, Effect::Done));
    assert_eq!(app.fs_core().state_flag(), StateFlag::Error);
    assert_eq!(app.build_status(), "[ERR] Get From Clipboard: Clipboard is empty");
}

#[test]
fn preview_of_a_file_shows_its_size_then_its_text() {
    let mut app = browser();
    key(&mut app, KeyCode::Char('j'));
    assert!(matches!(app.preview_request(), PreviewRequest::File(ref p) if p == "/w/a"));
    assert_eq!(app.preview_title(), "a");
    assert_eq!(app.build_preview_content("3 B"), "Size: 3 B\n\nLoading...");
    app.set_preview("hi".to_string());
    assert_eq!(app.build_preview_content("3 B"), "Size: 3 B\n\nhi");
    key(&mut app, KeyCode::Char('k'));
    assert!(matches!(app.preview_request(), PreviewRequest::Dir(ref p, false) if p == "/w/sub"));
}

#[test]
fn finish_key_refetches_when_the_cursor_moved() {
    let mut app = browser();
    let before = app.list_pos();
    key(&mut app, KeyCode::Char('j'));
    assert!(app.finish_key(before, 30));
    assert!(!app.finish_key(app.list_pos(), 30));
    key(&mut app, KeyCode::Char('j'));
    app.finish_key(1, 8);
    assert_eq!(app.scroll_offset(), 2);
}

#[test]
fn dialog_keys_pick_an_answer() {
    let mut d = PasteDialog::new("/w/a.txt".to_string(), false);
    assert_eq!(d.kind, ConflictKind::File);
    assert_eq!(d.options(), ["Overwrite", "Rename", "Skip", "Cancel"]);
    assert_eq!(d.filename(), "a.txt");
    assert!(d.handle_key(KeyCode::Char('a')).is_none());
    assert!(d.apply_to_all);
    assert!(matches!(d.handle_key(KeyCode::Enter), Some((DuplicatedFileHandleOps::Overwrite, true))));
    assert!(d.handle_key(KeyCode::Down).is_none());
    assert!(d.handle_key(KeyCode::Enter).is_none());
    assert_eq!(d.rename_input.as_deref(), Some("a.txt"));
    d.handle_key(KeyCode::Backspace);
    d.handle_key(KeyCode::Char('x'));
    match d.handle_key(KeyCode::Enter) {
        Some((DuplicatedFileHandleOps::Rename(n), true)) => assert_eq!(n, "a.txx"),
        _ => panic!("a rename"),
    }
    d.handle_key(KeyCode::Esc);
    assert!(d.rename_input.is_none());
    for _ in 0..5 {
        d.handle_key(KeyCode::Char('j'));
    }
    assert_eq!(d.cursor, 3);
    assert!(matches!(d.handle_key(KeyCode::Esc), Some((DuplicatedFileHandleOps::Cancel, true))));
    let dir = PasteDialog::new("/w/sub".to_string(), true);
    assert_eq!(dir.options(), ["Write In", "Rename", "Skip", "Cancel"]);
    assert!(matches!(dir.resolve(), DuplicatedFileHandleOps::WriteIn));
}

#[test]
fn permissions_are_shown_like_ls() {
    assert_eq!(fmt_permissions(0o40755), "drwxr-xr-x");
    assert_eq!(fmt_permissions(0o120777), "lrwxrwxrwx");
    assert_eq!(fmt_permissions(0o100600), "-rw-------");
    assert_eq!(fmt_permissions(0o60660), "brw-rw----");
    assert_eq!(fmt_permissions(0o20620), "crw--w----");
    assert_eq!(fmt_permissions(0o10644), "prw-r--r--");
    assert_eq!(fmt_permissions(0o140755), "srwxr-xr-x");
}

#[test]
fn directory_preview_lists_directories_first() {
    assert_eq!(build_dir_preview(None, false), "(permission denied)");
    let entries = vec![
        ("b".to_string(), false),
        ("a".to_string(), true),
        (".h".to_string(), false),
        ("c".to_string(), true),
    ];
    assert_eq!(build_dir_preview(Some(entries.clone()), false), "> a\n> c\n  b");
    assert_eq!(build_dir_preview(Some(entries), true), "> a\n> c\n  .h\n  b");
    assert_eq!(build_dir_preview(Some(vec![]), true), "");
}

#[test]
fn file_preview_covers_links_special_files_and_text() {
    let facts = |is_symlink: bool, t: Option<&str>, is_file: bool, lines: Option<Vec<&str>>| PreviewFacts {
        is_symlink,
        link_target: t.map(|s| s.to_string()),
        is_file,
        lines: lines.map(|v| v.into_iter().map(|s| s.to_string()).collect()),
    };
    assert_eq!(file_preview("/w/l", facts(true, Some("/t"), false, None)), "symlink -> /t");
    assert_eq!(file_preview("/w/l", facts(true, None, false, None)), "symlink -> ?");
    assert_eq!(file_preview("/w/x.sock", facts(false, None, false, None)), "sock file");
    assert_eq!(file_preview("/w/fifo", facts(false, None, false, None)), "special file");
    assert_eq!(file_preview("/w/a", facts(false, None, true, None)), "");
    assert_eq!(file_preview("/w/a", facts(false, None, true, Some(vec!["one\n", "two\n", "three"]))), "one\ntwo\nthree");
    assert_eq!(file_preview("/w/a", facts(false, None, true, Some(vec!["\n", "x\r\n"]))), "\nx\r");
}

#[test]
fn scroll_keeps_the_cursor_on_screen() {
    let mut app = browser();
    app.finish_key(0, 30);
    for _ in 0..6 {
        let before = app.list_pos();
        key(&mut app, KeyCode::Char('j'));
        app.finish_key(before, 8);
        assert!(app.scroll_offset() <= app.list_pos());
        assert!(app.list_pos() < app.scroll_offset() + 1);
    }
    let before = app.list_pos();
    key(&mut app, KeyCode::Char('k'));
    key(&mut app, KeyCode::Char('j'));
    assert_eq!(app.list_pos(), before);
}

#[test]
fn a_frame_splits_the_screen_into_listing_preview_and_status() {
    let app = browser();
    let rows: Vec<FileRow> = app
        .entries()
        .iter()
        .map(|e| FileRow { path: e.path().clone(), is_dir: e.is_dir(), size_text: "3    B".to_string(), type_text: "FILE".to_string() })
        .collect();
    let ops = app.frame_ops(rows, "3 B", None, Area { x: 0, y: 0, width: 80, height: 24 });
    let corner = |x: u16, y: u16| ops.iter().any(|o| o.kind == OpKind::Cell && o.x == x && o.y == y && o.text == "┌");
    assert!(corner(0, 0));
    assert!(corner(40, 0));
    assert!(corner(0, 21));
    assert!(!corner(0, 22));
    let spans: Vec<&str> = ops.iter().filter(|o| o.kind == OpKind::Span).map(|o| o.text.as_str()).collect();
    assert!(spans.iter().any(|t| t.starts_with("Ready")));
}

#[test]
fn a_new_browser_waits_for_its_listing() {
    let (app, first) = App::new("/w".to_string(), History::with_path("/tmp/h".to_string(), true));
    assert!(matches!(first, Effect::List(ref p) if p == "/w"));
    assert!(!app.is_idle());
    assert!(app.entries().is_empty());
    assert_eq!(app.fs_core().state_info(), "Initializing");
    let app = browser();
    assert!(app.is_idle());
    assert_eq!(app.fs_core().state_info(), "Ready");
    assert_eq!(shown(&app), vec!["sub", "a", "readme.md"]);
}
