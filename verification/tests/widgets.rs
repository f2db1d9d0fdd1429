use npns::ui::widget::canvas::{Area, Hue, Op, OpKind, Tone};
use npns::ui::widget::dialog::ConflictDialog;
use npns::ui::widget::file_list::{char_width, file_name, pad, render_border, truncate, FileList, FileRow};
use npns::ui::widget::preview::{wrap, Preview};
use npns::ui::widget::status::{self, StatusBar};

fn area(x: u16, y: u16, width: u16, height: u16) -> Area {
    Area { x, y, width, height }
}

fn spans(ops: &[Op]) -> Vec<(u16, u16, String)> {
    ops.iter().filter(|o| o.kind == OpKind::Span).map(|o| (o.x, o.y, o.text.clone())).collect()
}

#[test]
fn list_text_is_measured_in_columns() {
    assert_eq!(char_width('a'), 1);
    assert_eq!(char_width('中'), 2);
    assert_eq!(char_width('😀'), 2);
    assert_eq!(truncate("中文字", 5), "中文");
    assert_eq!(truncate("abc", 0), "");
    assert_eq!(pad("中文字", 5), "中文 ");
    assert_eq!(pad("ab", 4), "ab  ");
    assert_eq!(file_name("/w/a.txt"), "a.txt");
    assert_eq!(file_name("/"), "");
}

#[test]
fn border_frames_the_area_and_gives_the_inside() {
    let mut ops = Vec::new();
    let inner = render_border(area(0, 0, 4, 3), "Title", Tone::fg(Hue::Red), &mut ops);
    assert_eq!(inner, area(1, 1, 2, 1));
    let cells: Vec<(u16, u16, String)> = ops.iter().map(|o| (o.x, o.y, o.text.clone())).collect();
    assert_eq!(
        cells,
        vec![
            (0, 0, "┌".to_string()),
            (1, 0, "─".to_string()),
            (2, 0, "─".to_string()),
            (3, 0, "┐".to_string()),
            (1, 0, "T".to_string()),
            (2, 0, "i".to_string()),
            (0, 1, "│".to_string()),
            (3, 1, "│".to_string()),
            (0, 2, "└".to_string()),
            (1, 2, "─".to_string()),
            (2, 2, "─".to_string()),
            (3, 2, "┘".to_string()),
        ]
    );
    assert!(ops.iter().all(|o| o.tone == Tone::fg(Hue::Red) && o.kind == OpKind::Cell));
}

#[test]
fn file_list_draws_header_rows_cursor_and_mark() {
    let row = |p: &str, d: bool| FileRow {
        path: p.to_string(),
        is_dir: d,
        size_text: "12   B".to_string(),
        type_text: if d { "DIR".to_string() } else { "FILE".to_string() },
    };
    let fl = FileList {
        files: vec![row("/w/sub", true), row("/w/a", false), row("/w/b", false)],
        cursor: 1,
        scroll_offset: 0,
        marked: Some(2),
        title: "/w".to_string(),
    };
    assert!(fl.render(area(0, 0, 5, 10)).is_empty());
    let ops = fl.render(area(0, 0, 30, 7));
    let s = spans(&ops);
    assert_eq!(s[0], (1, 1, "  ".to_string()));
    assert_eq!(s[1], (4, 1, "Name       ".to_string()));
    assert_eq!(s[2], (16, 1, "Size    ".to_string()));
    assert_eq!(s[3], (25, 1, "Type".to_string()));
    assert_eq!(s[4], (1, 3, "  ".to_string()));
    assert_eq!(s[5], (4, 3, "sub        ".to_string()));
    assert_eq!(s[6], (16, 3, " —      ".to_string()));
    assert_eq!(s[7], (25, 3, "DIR ".to_string()));
    assert_eq!(s[8], (1, 4, "  ".to_string()));
    assert_eq!(s[9], (4, 4, "a           12   B   FILE".to_string()));
    let cursor = ops.iter().find(|o| o.kind == OpKind::Span && o.y == 4 && o.x == 4).unwrap();
    assert!(cursor.tone.reversed);
    assert_eq!(s[10], (1, 5, "> ".to_string()));
    assert_eq!(s[11], (4, 5, "b          ".to_string()));
    assert_eq!(s[12], (16, 5, "12   B  ".to_string()));
    assert_eq!(s[13], (25, 5, "FILE".to_string()));
    assert_eq!(s.len(), 14);
    let short = fl.render(area(0, 0, 30, 6));
    assert_eq!(spans(&short).len(), 10);
    assert!(ops.iter().any(|o| o.kind == OpKind::Symbol && o.text == "├" && o.y == 2));
}

#[test]
fn conflict_dialog_shows_choices_or_the_new_name() {
    let d = ConflictDialog {
        filename: "a.txt".to_string(),
        options: vec!["Overwrite".to_string(), "Rename".to_string(), "Skip".to_string(), "Cancel".to_string()],
        cursor: 2,
        apply_to_all: true,
        rename_input: None,
    };
    let ops = d.render(area(0, 0, 80, 24));
    let s = spans(&ops);
    assert_eq!(s[0], (16, 8, "a.txt".to_string()));
    assert_eq!(s[1], (52, 8, " already exists".to_string()));
    assert_eq!(s[2], (16, 10, "[*] Apply to all".to_string()));
    assert_eq!(s[3], (55, 10, "(a / space)".to_string()));
    assert!(s[4].2.starts_with("    Overwrite"));
    assert!(s[6].2.starts_with("  > Skip"));
    assert_eq!(s.len(), 8);
    let selected = ops.iter().filter(|o| o.kind == OpKind::Span).nth(6).unwrap();
    assert!(selected.tone.reversed && selected.tone.bold);
    let blanks = ops.iter().filter(|o| o.kind == OpKind::Cell && o.text == " ").count();
    assert_eq!(blanks, 54 * 10 + 2);
    let typing = ConflictDialog { rename_input: Some("b".to_string()), ..d };
    let s = spans(&typing.render(area(0, 0, 80, 24)));
    assert_eq!(s.len(), 3);
    assert!(s[2].2.starts_with("  Rename to: b_"));
}

#[test]
fn preview_wraps_and_colours_directory_listings() {
    assert_eq!(wrap("abcdef\n\nxy", 4), vec!["abcd", "ef", "", "xy"]);
    assert_eq!(wrap("中中中", 3), vec!["中", "中", "中"]);
    assert!(wrap("abc", 0).is_empty());
    let p = Preview { title: "sub".to_string(), content: "> a\n  b".to_string() };
    let ops = p.render(area(0, 0, 10, 5));
    assert!(ops.iter().filter(|o| o.kind == OpKind::Cell).all(|o| o.tone == Tone::fg(Hue::Blue)));
    let s: Vec<&Op> = ops.iter().filter(|o| o.kind == OpKind::Span).collect();
    assert_eq!(s.len(), 2);
    assert_eq!(s[0].text, "> a     ");
    assert!(s[0].tone.bold);
    assert_eq!(s[1].tone, Tone::fg(Hue::Gray));
    let text = Preview { title: "f".to_string(), content: "hello".to_string() };
    let ops = text.render(area(0, 0, 10, 5));
    assert!(ops.iter().filter(|o| o.kind == OpKind::Cell).all(|o| o.tone == Tone::fg(Hue::DarkGray)));
    assert!(Preview { title: String::new(), content: String::new() }.render(area(0, 0, 2, 5)).is_empty());
}

#[test]
fn status_bar_pads_by_bytes_and_aligns_info_right() {
    assert_eq!(status::pad("ab", 4), "ab  ");
    assert_eq!(status::pad("é", 3), "é ");
    assert_eq!(status::pad("abcdef", 3), "abc");
    let bar = StatusBar { status: "Ready".to_string(), info: "1/2".to_string() };
    let ops = bar.render(area(0, 0, 12, 3));
    let s = spans(&ops);
    assert_eq!(s[0], (1, 1, "Ready     ".to_string()));
    assert_eq!(s[1], (8, 1, "1/2".to_string()));
    assert!(bar.render(area(0, 0, 12, 2)).is_empty());
}

#[test]
fn file_list_draws_up_to_the_edge_of_the_grid() {
    let fl = FileList {
        files: vec![FileRow { path: "/w/a".to_string(), is_dir: false, size_text: "1    B".to_string(), type_text: "FILE".to_string() }],
        cursor: 0,
        scroll_offset: 0,
        marked: None,
        title: "/w".to_string(),
    };
    let x = u16::MAX - 30;
    let ops = fl.render(area(x, 0, 30, 6));
    assert!(ops.iter().any(|o| o.kind == OpKind::Cell && o.x == u16::MAX - 1 && o.text == "┐"));
    let s = spans(&ops);
    assert_eq!(s[4], (x + 1, 3, "  ".to_string()));
}
