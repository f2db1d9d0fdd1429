use npns::ui::screen::{char_width, pad_to_cols, truncate_to_cols, wrap_lines, Color, Screen, Style};
use npns::ui::widget::{
    clear_rect, render_border, render_dialog, render_list, render_paragraph, render_status_bar, render_table, scroll_window,
    ColWidth, DialogLine, Rect, Row,
};

fn fresh(cols: u16, rows: u16) -> Screen {
    let mut s = Screen::with_size(cols, rows);
    s.present();
    s
}

#[test]
fn screen_enters_and_leaves_the_alternate_buffer() {
    let mut s = Screen::with_size(80, 24);
    assert_eq!(s.size(), (80, 24));
    assert_eq!(s.present(), "\x1b[?1049h\x1b[?25l");
    assert_eq!(s.present(), "");
    s.clear_all();
    assert_eq!(s.shutdown(), "\x1b[2J\x1b[H\x1b[?25h\x1b[?1049l");
    s.resize((100, 40));
    assert_eq!(s.size(), (100, 40));
}

#[test]
fn cursor_moves_and_styles_are_escape_sequences() {
    let mut s = fresh(80, 24);
    s.goto(3, 15);
    s.reset_style();
    s.apply_style(Style::new().bold().fg(Color::Red).bg(Color::Blue));
    s.apply_style(Style::new());
    s.apply_style(Style::new().dim().reverse().fg(Color::DarkGray).bg(Color::DarkGray));
    s.write_raw("x");
    assert_eq!(s.present(), "\x1b[15;3H\x1b[0m\x1b[1;31;44m\x1b[2;7;90;100mx");
}

#[test]
fn printing_cuts_text_to_its_columns() {
    let mut s = fresh(80, 24);
    s.print(2, 1, "abcdef", 3);
    s.print_styled(1, 2, "héllo", Style::new().reverse(), 3);
    assert_eq!(s.present(), "\x1b[1;2Habc\x1b[2;1H\x1b[0m\x1b[7mhél\x1b[0m");
}

#[test]
fn text_is_measured_in_terminal_columns() {
    assert_eq!(char_width('a'), 1);
    assert_eq!(char_width('中'), 2);
    assert_eq!(char_width('\u{FE10}'), 2);
    assert_eq!(char_width('\u{1F600}'), 2);
    assert_eq!(truncate_to_cols("中文ab", 3), "中");
    assert_eq!(truncate_to_cols("abc", 0), "");
    assert_eq!(pad_to_cols("ab", 4), "ab  ");
    assert_eq!(pad_to_cols("中文", 3), "中 ");
    assert_eq!(wrap_lines("abcdef\n\nxy", 4), vec!["abcd", "ef", "", "xy"]);
    assert!(wrap_lines("x", 0).is_empty());
    // A character wider than a row is left out.
    assert!(wrap_lines("中", 1).is_empty());
}

#[test]
fn border_draws_the_title_then_dashes() {
    let mut s = fresh(80, 24);
    render_border(&mut s, Rect::new(1, 1, 6, 3), Some("ab"), Style::new());
    assert_eq!(
        s.present(),
        "\x1b[1;1H┌ab──┐\x1b[2;1H│\x1b[2;6H│\x1b[3;1H└────┘\x1b[0m"
    );
    render_border(&mut s, Rect::new(1, 1, 1, 3), Some("ab"), Style::new());
    assert_eq!(s.present(), "");
    render_border(&mut s, Rect::new(2, 2, 4, 2), None, Style::new().fg(Color::Green));
    assert_eq!(s.present(), "\x1b[32m\x1b[2;2H┌──┐\x1b[3;2H└──┘\x1b[0m");
}

#[test]
fn scroll_window_keeps_the_selection_in_view() {
    assert_eq!(scroll_window(10, 3, Some(5)), (3, 3));
    assert_eq!(scroll_window(10, 3, Some(2)), (0, 3));
    assert_eq!(scroll_window(10, 3, None), (0, 3));
}

#[test]
fn status_bar_and_list_fill_their_inside() {
    let mut s = fresh(80, 24);
    render_status_bar(&mut s, 1, 1, 6, "t", "hi", Style::new().bold());
    assert_eq!(
        s.present(),
        "\x1b[1;1H┌t───┐\x1b[2;1H│\x1b[2;6H│\x1b[3;1H└────┘\x1b[0m\x1b[2;2H\x1b[0m\x1b[1mhi  \x1b[0m"
    );
    let items = vec![("a".to_string(), Style::new()), ("b".to_string(), Style::new()), ("c".to_string(), Style::new())];
    render_list(&mut s, Rect::new(1, 1, 4, 4), "", &items, Style::new());
    assert_eq!(
        s.present(),
        "\x1b[1;1H┌──┐\x1b[2;1H│\x1b[2;4H│\x1b[3;1H│\x1b[3;4H│\x1b[4;1H└──┘\x1b[0m\
         \x1b[2;2H\x1b[0ma \x1b[0m\x1b[3;2H\x1b[0mb \x1b[0m"
    );
    clear_rect(&mut s, Rect::new(3, 4, 2, 2));
    assert_eq!(s.present(), "\x1b[4;3H  \x1b[5;3H  ");
}

#[test]
fn dialog_is_centred_cleared_and_padded() {
    let mut s = fresh(20, 10);
    render_dialog(&mut s, 10, 4, "T", &[DialogLine::plain("hi".to_string())], Style::new());
    let mut want = String::new();
    for r in 4..8 {
        want.push_str(&format!("\x1b[{};6H          ", r));
    }
    want.push_str("\x1b[4;6H┌T───────┐\x1b[5;6H│\x1b[5;15H│\x1b[6;6H│\x1b[6;15H│\x1b[7;6H└────────┘\x1b[0m");
    want.push_str("\x1b[5;7H\x1b[0mhi\x1b[0m\x1b[5;9H      ");
    assert_eq!(s.present(), want);
}

#[test]
fn table_shows_header_separator_and_highlighted_row() {
    let mut s = fresh(80, 24);
    let header = Row::new(vec!["a".to_string(), "b".to_string()]);
    let rows = vec![Row::new(vec!["x".to_string(), "y".to_string()]), Row::new(vec!["z".to_string(), "w".to_string()])];
    render_table(&mut s, Rect::new(1, 1, 12, 6), "t", &header, &rows, &[ColWidth::Fixed(3), ColWidth::Fill], Some(1));
    let mut want = String::new();
    want.push_str("\x1b[1;1H┌t─────────┐");
    for r in 2..6 {
        want.push_str(&format!("\x1b[{};1H│\x1b[{};12H│", r, r));
    }
    want.push_str("\x1b[6;1H└──────────┘\x1b[0m");
    want.push_str("\x1b[2;2H\x1b[0ma  \x1b[0m\x1b[2;5H\x1b[0m\x1b[1;33m \x1b[0m\x1b[2;6H\x1b[0mb     \x1b[0m");
    want.push_str("\x1b[3;1H├──────────┤\x1b[0m");
    want.push_str("\x1b[4;2H\x1b[0mx  \x1b[0m\x1b[4;5H\x1b[0m \x1b[0m\x1b[4;6H\x1b[0my     \x1b[0m");
    want.push_str("\x1b[5;2H\x1b[0m\x1b[7mz  \x1b[0m\x1b[5;5H\x1b[0m\x1b[7m \x1b[0m\x1b[5;6H\x1b[0m\x1b[7mw     \x1b[0m");
    assert_eq!(s.present(), want);
}

#[test]
fn border_title_is_measured_in_screen_columns() {
    let mut s = fresh(80, 24);
    render_border(&mut s, Rect::new(1, 1, 5, 3), Some("😀"), Style::new());
    assert_eq!(s.present(), "\x1b[1;1H┌😀─┐\x1b[2;1H│\x1b[2;5H│\x1b[3;1H└───┘\x1b[0m");
}

#[test]
fn dialog_spans_follow_each_other_by_columns() {
    let mut s = fresh(20, 10);
    let line = DialogLine::plain("中".to_string()).push("a".to_string(), Style::new());
    render_dialog(&mut s, 10, 4, "t", &[line], Style::new());
    let out = s.present();
    assert!(out.contains("\x1b[5;7H\x1b[0m中\x1b[0m\x1b[5;9H\x1b[0ma\x1b[0m\x1b[5;10H     "));
}

#[test]
fn paragraph_leaves_out_what_does_not_fit() {
    let mut s = fresh(80, 24);
    render_paragraph(&mut s, Rect::new(1, 1, 2, 3), "", "a", Style::new(), Style::new());
    assert_eq!(s.present(), "\x1b[1;1H┌┐\x1b[2;1H│\x1b[2;2H│\x1b[3;1H└┘\x1b[0m");
    render_paragraph(&mut s, Rect::new(1, 1, 3, 3), "", "中b", Style::new(), Style::new());
    assert_eq!(
        s.present(),
        "\x1b[1;1H┌─┐\x1b[2;1H│\x1b[2;3H│\x1b[3;1H└─┘\x1b[0m\x1b[2;2H\x1b[0mb\x1b[0m"
    );
}
