//! Widgets drawn on a `Screen`: borders, tables, lists, paragraphs, a
//! status bar and dialogs.
use vstd::prelude::*;

pub mod canvas;
pub mod dialog;
pub mod file_list;
pub mod preview;
pub mod status;

use crate::ui::screen::{
    cut, goto_seq, padded, plain_style, reset_seq, style_seq, styled_text, Color, Screen, Style,
    pad_to_cols, truncate_to_cols,
};
use crate::ui::text::{
    chars_of, col_width, cols_count, cols_of, fit_len, lemma_cols_of_bound,
    lemma_fit_len, lines_of, spaces, push_spaces, split_lines, string_views, wrap_all, wrap_text,
    WidthTable,
};

verus! {

/// Position and size of a widget.
#[derive(Clone, Copy)]
pub struct Rect {
    pub col: u16,
    pub row: u16,
    pub w: u16,
    pub h: u16,
}

impl Rect {
    pub fn new(col: u16, row: u16, w: u16, h: u16) -> (r: Self)
        ensures
            r == (Rect { col, row, w, h }),
    {
        Rect { col, row, w, h }
    }
}

pub open spec fn sat_sub(a: int, b: int) -> int {
    if a >= b {
        a - b
    } else {
        0
    }
}

/// `s` repeated `n` times.
pub open spec fn repeat_seq(s: Seq<char>, n: nat) -> Seq<char>
    decreases n,
{
    if n == 0 {
        seq![]
    } else {
        repeat_seq(s, (n - 1) as nat) + s
    }
}

pub open spec fn opt_text(t: Option<&str>) -> Option<Seq<char>> {
    match t {
        Some(x) => Some(x@),
        None => None,
    }
}

/// The top edge of a border of inner width `inner_w`, with its title.
pub open spec fn border_top(title: Option<Seq<char>>, inner_w: nat) -> Seq<char> {
    let fill = match title {
        Some(t) => {
            let label = cut(t, inner_w as usize);
            label + repeat_seq("─"@, sat_sub(inner_w as int, cols_of(WidthTable::Screen, label) as int) as nat)
        },
        None => repeat_seq("─"@, inner_w),
    };
    "┌"@ + fill + "┐"@
}

/// The left and right edges on rows `lo..hi`.
pub open spec fn border_sides(col: u16, w: u16, lo: int, hi: int) -> Seq<char>
    decreases hi - lo,
{
    if hi <= lo {
        seq![]
    } else {
        border_sides(col, w, lo, hi - 1) + goto_seq(col, (hi - 1) as u16) + "│"@ + goto_seq(
            (col + w - 1) as u16,
            (hi - 1) as u16,
        ) + "│"@
    }
}

/// What `render_border` writes.
pub open spec fn border_seq(area: Rect, title: Option<Seq<char>>, style: Style) -> Seq<char> {
    if area.w < 2 || area.h < 2 {
        seq![]
    } else {
        let inner_w = (area.w - 2) as nat;
        style_seq(style) + goto_seq(area.col, area.row) + border_top(title, inner_w) + border_sides(
            area.col,
            area.w,
            area.row + 1,
            area.row + area.h - 1,
        ) + goto_seq(area.col, (area.row + area.h - 1) as u16) + "└"@ + repeat_seq("─"@, inner_w)
            + "┘"@ + reset_seq()
    }
}

/// The area lies within the terminal's coordinate range.
pub open spec fn area_fits(area: Rect) -> bool {
    area.col + area.w <= u16::MAX && area.row + area.h <= u16::MAX
}

/// Writes `s` `n` times.
fn write_repeat(scr: &mut Screen, s: &str, n: usize)
    ensures
        final(scr)@ == old(scr)@ + repeat_seq(s@, n as nat),
        final(scr).term_cols() == old(scr).term_cols(),
        final(scr).term_rows() == old(scr).term_rows(),
{
    let mut i: usize = 0;
    assert(old(scr)@ + repeat_seq(s@, 0) =~= old(scr)@);
    while i < n
        invariant
            i <= n,
            scr@ == old(scr)@ + repeat_seq(s@, i as nat),
            scr.term_cols() == old(scr).term_cols(),
            scr.term_rows() == old(scr).term_rows(),
        decreases n - i,
    {
        scr.write_raw(s);
        i = i + 1;
        assert(scr@ =~= old(scr)@ + repeat_seq(s@, i as nat));
    }
}

/// Writes the top edge of a border.
fn write_border_top(scr: &mut Screen, title: Option<&str>, inner_w: usize)
    requires
        inner_w <= u16::MAX,
    ensures
        final(scr)@ == old(scr)@ + border_top(opt_text(title), inner_w as nat),
        final(scr).term_cols() == old(scr).term_cols(),
        final(scr).term_rows() == old(scr).term_rows(),
{
    scr.write_raw("┌");
    match title {
        Some(t) => {
            let label = truncate_to_cols(t, inner_w);
            let label_chars = chars_of(label);
            proof {
                lemma_cols_of_bound(WidthTable::Screen, label@);
                assert(label_chars@.subrange(0, label_chars@.len() as int) =~= label_chars@);
            }
            let label_cols = cols_count(WidthTable::Screen, &label_chars, 0, label_chars.len());
            scr.write_raw(label);
            let dashes = inner_w.saturating_sub(label_cols);
            write_repeat(scr, "─", dashes);
        },
        None => {
            write_repeat(scr, "─", inner_w);
        },
    }
    scr.write_raw("┐");
    assert(scr@ =~= old(scr)@ + border_top(opt_text(title), inner_w as nat));
}

/// Writes the left and right edges of a border.
fn write_border_sides(scr: &mut Screen, area: Rect)
    requires
        area_fits(area),
        area.w >= 2,
        area.h >= 2,
    ensures
        final(scr)@ == old(scr)@ + border_sides(
            area.col,
            area.w,
            area.row + 1,
            area.row + area.h - 1,
        ),
        final(scr).term_cols() == old(scr).term_cols(),
        final(scr).term_rows() == old(scr).term_rows(),
{
    let (col, row, w, h) = (area.col, area.row, area.w, area.h);
    let mut r = row + 1;
    assert(old(scr)@ + border_sides(col, w, row + 1, r as int) =~= old(scr)@);
    while r < row + h - 1
        invariant
            row + 1 <= r <= row + h - 1,
            area_fits(area),
            w >= 2,
            h >= 2,
            col == area.col,
            row == area.row,
            w == area.w,
            h == area.h,
            scr@ == old(scr)@ + border_sides(col, w, row + 1, r as int),
            scr.term_cols() == old(scr).term_cols(),
            scr.term_rows() == old(scr).term_rows(),
        decreases row + h - 1 - r,
    {
        let ghost before = scr@;
        scr.goto(col, r);
        scr.write_raw("│");
        scr.goto(col + w - 1, r);
        scr.write_raw("│");
        r = r + 1;
        assert(scr@ =~= old(scr)@ + border_sides(col, w, row + 1, r as int));
    }
}

/// Draws a box with an optional title written right after the top-left
/// corner; nothing when the area is narrower or lower than two cells.
pub fn render_border(scr: &mut Screen, area: Rect, title: Option<&str>, style: Style)
    requires
        area.w >= 2 && area.h >= 2 ==> area_fits(area),
    ensures
        final(scr)@ == old(scr)@ + border_seq(area, opt_text(title), style),
        final(scr).term_cols() == old(scr).term_cols(),
        final(scr).term_rows() == old(scr).term_rows(),
{
    let (col, row, w, h) = (area.col, area.row, area.w, area.h);
    if w < 2 || h < 2 {
        assert(old(scr)@ + border_seq(area, opt_text(title), style) =~= old(scr)@);
        return ;
    }
    scr.apply_style(style);
    let inner_w = (w - 2) as usize;
    scr.goto(col, row);
    write_border_top(scr, title, inner_w);
    write_border_sides(scr, area);
    scr.goto(col, row + h - 1);
    scr.write_raw("└");
    write_repeat(scr, "─", inner_w);
    scr.write_raw("┘");
    scr.reset_style();
    assert(scr@ =~= old(scr)@ + border_seq(area, opt_text(title), style));
}

/// What writing rows `0..n` of a list writes: row `i` is `texts[i]`
/// padded to `width` columns, in `styles[i]`, at column `col + 1` and row
/// `row + 1 + i`.
pub open spec fn list_rows(
    col: u16,
    row: u16,
    texts: Seq<Seq<char>>,
    styles: Seq<Style>,
    width: usize,
    n: nat,
) -> Seq<char>
    decreases n,
{
    if n == 0 {
        seq![]
    } else {
        list_rows(col, row, texts, styles, width, (n - 1) as nat) + styled_text(
            (col + 1) as u16,
            (row + n) as u16,
            padded(texts[n - 1], width),
            styles[n - 1],
            width,
        )
    }
}

/// Writes rows `0..n` of a list.
fn write_list_rows(
    scr: &mut Screen,
    col: u16,
    row: u16,
    texts: &Vec<String>,
    styles: &Vec<Style>,
    width: usize,
    n: usize,
)
    requires
        n <= texts.len(),
        n <= styles.len(),
        n > 0 ==> col + 1 <= u16::MAX && row + n <= u16::MAX,
    ensures
        final(scr)@ == old(scr)@ + list_rows(col, row, string_views(texts@), styles@, width, n as nat),
        final(scr).term_cols() == old(scr).term_cols(),
        final(scr).term_rows() == old(scr).term_rows(),
{
    let mut i: usize = 0;
    assert(old(scr)@ + list_rows(col, row, string_views(texts@), styles@, width, 0) =~= old(scr)@);
    while i < n
        invariant
            i <= n,
            n <= texts.len(),
            n <= styles.len(),
            n > 0 ==> col + 1 <= u16::MAX && row + n <= u16::MAX,
            scr@ == old(scr)@ + list_rows(col, row, string_views(texts@), styles@, width, i as nat),
            scr.term_cols() == old(scr).term_cols(),
            scr.term_rows() == old(scr).term_rows(),
        decreases n - i,
    {
        let line = pad_to_cols(texts[i].as_str(), width);
        scr.print_styled(col + 1, row + 1 + i as u16, line.as_str(), styles[i], width);
        i = i + 1;
        assert(scr@ =~= old(scr)@ + list_rows(
            col,
            row,
            string_views(texts@),
            styles@,
            width,
            i as nat,
        ));
    }
}

/// Requirements of a bordered widget that writes `n` rows inside its border.
pub open spec fn boxed_fits(area: Rect, n: nat) -> bool {
    &&& area.w >= 2 && area.h >= 2 ==> area_fits(area)
    &&& n > 0 ==> area.col + 1 <= u16::MAX && area.row + n <= u16::MAX
}

pub open spec fn min_nat(a: nat, b: nat) -> nat {
    if a <= b {
        a
    } else {
        b
    }
}

/// What `render_list` writes.
pub open spec fn list_seq(
    area: Rect,
    title: Seq<char>,
    texts: Seq<Seq<char>>,
    styles: Seq<Style>,
    border_style: Style,
) -> Seq<char> {
    let inner_w = sat_sub(area.w as int, 2) as usize;
    let n = min_nat(texts.len(), sat_sub(area.h as int, 2) as nat);
    border_seq(area, Some(title), border_style) + list_rows(
        area.col,
        area.row,
        texts,
        styles,
        inner_w,
        n,
    )
}

/// Draws a bordered list: as many items as fit, each padded to the inner
/// width and in its own style.
pub fn render_list(
    scr: &mut Screen,
    area: Rect,
    title: &str,
    items: &[(String, Style)],
    border_style: Style,
)
    requires
        boxed_fits(area, min_nat(items@.len(), sat_sub(area.h as int, 2) as nat)),
    ensures
        final(scr)@ == old(scr)@ + list_seq(
            area,
            title@,
            items@.map_values(|it: (String, Style)| it.0@),
            items@.map_values(|it: (String, Style)| it.1),
            border_style,
        ),
        final(scr).term_cols() == old(scr).term_cols(),
        final(scr).term_rows() == old(scr).term_rows(),
{
    let (col, row, w, h) = (area.col, area.row, area.w, area.h);
    render_border(scr, area, Some(title), border_style);
    let inner_w = w.saturating_sub(2) as usize;
    let visible_h = h.saturating_sub(2) as usize;
    let n = if items.len() < visible_h {
        items.len()
    } else {
        visible_h
    };
    let mut texts: Vec<String> = Vec::new();
    let mut styles: Vec<Style> = Vec::new();
    let mut i: usize = 0;
    while i < n
        invariant
            i <= n,
            n <= items@.len(),
            string_views(texts@) == items@.map_values(|it: (String, Style)| it.0@).take(i as int),
            styles@ == items@.map_values(|it: (String, Style)| it.1).take(i as int),
        decreases n - i,
    {
        let ghost old_texts = string_views(texts@);
        let t = items[i].0.clone();
        assert(t@ == items@[i as int].0@);
        texts.push(t);
        styles.push(items[i].1);
        assert(string_views(texts@) =~= old_texts.push(t@));
        i = i + 1;
        assert(string_views(texts@) =~= items@.map_values(|it: (String, Style)| it.0@).take(
            i as int,
        ));
        assert(styles@ =~= items@.map_values(|it: (String, Style)| it.1).take(i as int));
    }
    write_list_rows(scr, col, row, &texts, &styles, inner_w, n);
    proof {
        lemma_list_rows_prefix(
            col,
            row,
            string_views(texts@),
            items@.map_values(|it: (String, Style)| it.0@),
            styles@,
            items@.map_values(|it: (String, Style)| it.1),
            inner_w,
            n as nat,
        );
    }
}

/// Rows drawn from prefixes of the texts and styles are the rows drawn
/// from the whole texts and styles.
pub proof fn lemma_list_rows_prefix(
    col: u16,
    row: u16,
    t1: Seq<Seq<char>>,
    t2: Seq<Seq<char>>,
    s1: Seq<Style>,
    s2: Seq<Style>,
    width: usize,
    n: nat,
)
    requires
        n <= t1.len(),
        n <= s1.len(),
        n <= t2.len(),
        n <= s2.len(),
        forall|i: int| 0 <= i < n ==> t1[i] == t2[i] && s1[i] == s2[i],
    ensures
        list_rows(col, row, t1, s1, width, n) == list_rows(col, row, t2, s2, width, n),
    decreases n,
{
    if n > 0 {
        lemma_list_rows_prefix(col, row, t1, t2, s1, s2, width, (n - 1) as nat);
    }
}

/// The rows a paragraph widget shows: lines are cut at `max_w` columns; a
/// character wider than that is left out.
fn wrap_lines(text: &str, max_w: usize) -> (out: Vec<String>)
    ensures
        string_views(out@) == wrap_text(WidthTable::Screen, lines_of(text@), max_w as int),
{
    let chars = chars_of(text);
    let lines = split_lines(&chars);
    wrap_all(WidthTable::Screen, &lines, max_w)
}

/// What `render_paragraph` writes.
pub open spec fn paragraph_seq(
    area: Rect,
    title: Seq<char>,
    text: Seq<char>,
    text_style: Style,
    border_style: Style,
) -> Seq<char> {
    let inner_w = sat_sub(area.w as int, 2) as usize;
    let rows = wrap_text(WidthTable::Screen, lines_of(text), inner_w as int);
    let n = min_nat(rows.len(), sat_sub(area.h as int, 2) as nat);
    border_seq(area, Some(title), border_style) + list_rows(
        area.col,
        area.row,
        rows,
        Seq::new(n, |i: int| text_style),
        inner_w,
        n,
    )
}

/// Draws a bordered text: lines cut at the inner width (a character wider
/// than it is left out), as many rows as fit.
pub fn render_paragraph(
    scr: &mut Screen,
    area: Rect,
    title: &str,
    text: &str,
    text_style: Style,
    border_style: Style,
)
    requires
        boxed_fits(
            area,
            min_nat(
                wrap_text(
                    WidthTable::Screen,
                    lines_of(text@),
                    sat_sub(area.w as int, 2),
                ).len(),
                sat_sub(area.h as int, 2) as nat,
            ),
        ),
    ensures
        final(scr)@ == old(scr)@ + paragraph_seq(area, title@, text@, text_style, border_style),
        final(scr).term_cols() == old(scr).term_cols(),
        final(scr).term_rows() == old(scr).term_rows(),
{
    let (col, row, w, h) = (area.col, area.row, area.w, area.h);
    render_border(scr, area, Some(title), border_style);
    let inner_w = w.saturating_sub(2) as usize;
    let inner_h = h.saturating_sub(2) as usize;
    let lines = wrap_lines(text, inner_w);
    let n = if lines.len() < inner_h {
        lines.len()
    } else {
        inner_h
    };
    let mut styles: Vec<Style> = Vec::new();
    let mut i: usize = 0;
    while i < n
        invariant
            i <= n,
            styles@ == Seq::new(i as nat, |k: int| text_style),
        decreases n - i,
    {
        styles.push(text_style);
        i = i + 1;
        assert(styles@ =~= Seq::new(i as nat, |k: int| text_style));
    }
    write_list_rows(scr, col, row, &lines, &styles, inner_w, n);
}

/// What `render_status_bar` writes.
pub open spec fn status_bar_seq(
    col: u16,
    row: u16,
    w: u16,
    title: Seq<char>,
    text: Seq<char>,
    style: Style,
) -> Seq<char> {
    let inner_w = sat_sub(w as int, 2) as usize;
    border_seq(Rect { col, row, w, h: 3 }, Some(title), plain_style()) + styled_text(
        (col + 1) as u16,
        (row + 1) as u16,
        padded(text, inner_w),
        style,
        inner_w,
    )
}

/// Draws a single-line bordered status / input bar.
pub fn render_status_bar(
    scr: &mut Screen,
    col: u16,
    row: u16,
    w: u16,
    title: &str,
    text: &str,
    style: Style,
)
    requires
        boxed_fits(Rect { col, row, w, h: 3 }, 1),
    ensures
        final(scr)@ == old(scr)@ + status_bar_seq(col, row, w, title@, text@, style),
        final(scr).term_cols() == old(scr).term_cols(),
        final(scr).term_rows() == old(scr).term_rows(),
{
    render_border(scr, Rect::new(col, row, w, 3), Some(title), Style::new());
    let inner_w = w.saturating_sub(2) as usize;
    let line = pad_to_cols(text, inner_w);
    scr.print_styled(col + 1, row + 1, line.as_str(), style, inner_w);
}

/// What `clear_rect` writes on rows `row..row + n`.
pub open spec fn clear_rows(col: u16, row: u16, w: u16, n: nat) -> Seq<char>
    decreases n,
{
    if n == 0 {
        seq![]
    } else {
        clear_rows(col, row, w, (n - 1) as nat) + goto_seq(col, (row + n - 1) as u16) + cut(
            spaces(w as nat),
            w as usize,
        )
    }
}

/// Blanks a rectangle (before a popup is drawn over other content).
pub fn clear_rect(scr: &mut Screen, area: Rect)
    requires
        area.row + area.h <= u16::MAX,
    ensures
        final(scr)@ == old(scr)@ + clear_rows(area.col, area.row, area.w, area.h as nat),
        final(scr).term_cols() == old(scr).term_cols(),
        final(scr).term_rows() == old(scr).term_rows(),
{
    let mut blank = String::new();
    push_spaces(&mut blank, area.w as usize);
    assert(blank@ =~= spaces(area.w as nat));
    let mut r = area.row;
    assert(old(scr)@ + clear_rows(area.col, area.row, area.w, 0) =~= old(scr)@);
    while r < area.row + area.h
        invariant
            area.row <= r <= area.row + area.h,
            area.row + area.h <= u16::MAX,
            blank@ == spaces(area.w as nat),
            scr@ == old(scr)@ + clear_rows(area.col, area.row, area.w, (r - area.row) as nat),
            scr.term_cols() == old(scr).term_cols(),
            scr.term_rows() == old(scr).term_rows(),
        decreases area.row + area.h - r,
    {
        scr.print(area.col, r, blank.as_str(), area.w as usize);
        r = r + 1;
        assert(scr@ =~= old(scr)@ + clear_rows(area.col, area.row, area.w, (r - area.row) as nat));
    }
}

/// Scroll offset that keeps the selected row (the first when none is
/// selected) inside a window of `visible` rows, and the window's size.
pub fn scroll_window(_total: usize, visible: usize, selected: Option<usize>) -> (r: (usize, usize))
    requires
        selected.unwrap_or(0) >= visible ==> selected.unwrap_or(0) + 1 <= usize::MAX,
    ensures
        r.0 == sat_sub(selected.unwrap_or(0) + 1, visible as int),
        r.1 == visible,
{
    let sel = selected.unwrap_or(0);
    let offset = if sel >= visible {
        sel + 1 - visible
    } else {
        0
    };
    (offset, visible)
}

/// A table row.
pub struct Row {
    /// One cell string per column.
    pub cells: Vec<String>,
    /// Per-cell styles (`None`: the row's base `style`).
    pub cell_styles: Vec<Option<Style>>,
    /// Row-level base style (applied when no per-cell style is set).
    pub style: Style,
}

impl Row {
    /// A row of cells, no per-cell style, plain base style.
    pub fn new(cells: Vec<String>) -> (r: Self)
        ensures
            r.cells@ == cells@,
            r.cell_styles@ == Seq::new(cells@.len(), |i: int| None::<Style>),
            r.style == plain_style(),
    {
        let n = cells.len();
        let mut cell_styles: Vec<Option<Style>> = Vec::new();
        let mut i: usize = 0;
        while i < n
            invariant
                i <= n,
                cell_styles@ == Seq::new(i as nat, |k: int| None::<Style>),
            decreases n - i,
        {
            cell_styles.push(None);
            i = i + 1;
            assert(cell_styles@ =~= Seq::new(i as nat, |k: int| None::<Style>));
        }
        Row { cells, cell_styles, style: Style::new() }
    }

    pub fn style(self, s: Style) -> (r: Self)
        ensures
            r.cells == self.cells,
            r.cell_styles == self.cell_styles,
            r.style == s,
    {
        let mut r = self;
        r.style = s;
        r
    }

    /// Sets the style of one cell; an index past the last cell changes
    /// nothing.
    pub fn cell_style(self, idx: usize, s: Style) -> (r: Self)
        ensures
            r.cells == self.cells,
            r.style == self.style,
            r.cell_styles@ == if idx < self.cell_styles@.len() {
                self.cell_styles@.update(idx as int, Some(s))
            } else {
                self.cell_styles@
            },
    {
        let mut r = self;
        if idx < r.cell_styles.len() {
            r.cell_styles.set(idx, Some(s));
        }
        r
    }
}

/// Column width specification.
#[derive(Clone, Copy)]
pub enum ColWidth {
    /// Fixed number of columns.
    Fixed(u16),
    /// Fills the remaining space.
    Fill,
}

pub open spec fn fixed_sum(specs: Seq<ColWidth>) -> nat
    decreases specs.len(),
{
    if specs.len() == 0 {
        0
    } else {
        fixed_sum(specs.drop_last()) + match specs.last() {
            ColWidth::Fixed(n) => n as nat,
            ColWidth::Fill => 0,
        }
    }
}

pub open spec fn fill_count(specs: Seq<ColWidth>) -> nat
    decreases specs.len(),
{
    if specs.len() == 0 {
        0
    } else {
        fill_count(specs.drop_last()) + if specs.last() is Fill {
            1nat
        } else {
            0nat
        }
    }
}

/// Width every `Fill` column gets: the space left after the fixed columns
/// and the one-column gaps, shared evenly.
pub open spec fn fill_width(specs: Seq<ColWidth>, total: int) -> int {
    let gaps = sat_sub(specs.len() as int, 1);
    if fill_count(specs) > 0 {
        sat_sub(total, fixed_sum(specs) + gaps) / (fill_count(specs) as int)
    } else {
        0
    }
}

pub open spec fn resolved_width(c: ColWidth, fill_w: int) -> int {
    match c {
        ColWidth::Fixed(n) => n as int,
        ColWidth::Fill => fill_w,
    }
}

pub proof fn lemma_fixed_sum_bound(specs: Seq<ColWidth>)
    ensures
        fixed_sum(specs) <= specs.len() * 65535,
        fill_count(specs) <= specs.len(),
    decreases specs.len(),
{
    if specs.len() > 0 {
        lemma_fixed_sum_bound(specs.drop_last());
    }
}

/// Resolves column widths, the leftover space going to `Fill` columns.
fn resolve_widths(specs: &[ColWidth], total: usize) -> (out: Vec<usize>)
    requires
        specs@.len() <= 16384,
    ensures
        out@.len() == specs@.len(),
        forall|i: int|
            0 <= i < specs@.len() ==> out@[i] == resolved_width(
                #[trigger] specs@[i],
                fill_width(specs@, total as int),
            ),
{
    let gaps = if specs.len() >= 1 {
        specs.len() - 1
    } else {
        0
    };
    let mut fixed_total: usize = 0;
    let mut fills: usize = 0;
    let mut i: usize = 0;
    proof {
        lemma_fixed_sum_bound(specs@);
        assert(specs@.take(0) =~= Seq::<ColWidth>::empty());
    }
    while i < specs.len()
        invariant
            i <= specs@.len() <= 16384,
            fixed_total == fixed_sum(specs@.take(i as int)),
            fills == fill_count(specs@.take(i as int)),
            fixed_total <= i * 65535,
            fills <= i,
        decreases specs.len() - i,
    {
        assert(specs@.take(i + 1).drop_last() =~= specs@.take(i as int));
        match specs[i] {
            ColWidth::Fixed(n) => {
                fixed_total = fixed_total + n as usize;
            },
            ColWidth::Fill => {
                fills = fills + 1;
            },
        }
        i = i + 1;
    }
    assert(specs@.take(i as int) =~= specs@);
    let remaining = total.saturating_sub(fixed_total + gaps);
    let fill_w = if fills > 0 {
        remaining / fills
    } else {
        0
    };
    let mut out: Vec<usize> = Vec::new();
    let mut j: usize = 0;
    while j < specs.len()
        invariant
            j <= specs@.len(),
            fill_w == fill_width(specs@, total as int),
            out@.len() == j,
            forall|k: int|
                0 <= k < j ==> out@[k] == resolved_width(
                    #[trigger] specs@[k],
                    fill_width(specs@, total as int),
                ),
        decreases specs.len() - j,
    {
        match specs[j] {
            ColWidth::Fixed(n) => out.push(n as usize),
            ColWidth::Fill => out.push(fill_w),
        }
        j = j + 1;
    }
    out
}

/// Columns used by the cells and their gaps.
pub open spec fn widths_sum(widths: Seq<usize>) -> nat
    decreases widths.len(),
{
    if widths.len() == 0 {
        0
    } else {
        widths_sum(widths.drop_last()) + widths.last() as nat
    }
}

pub open spec fn gap_after(widths: Seq<usize>, j: int) -> int {
    if j + 1 < widths.len() {
        1
    } else {
        0
    }
}

/// Column where cell `i` starts.
pub open spec fn cell_col(col: int, widths: Seq<usize>, i: nat) -> int
    decreases i,
{
    if i == 0 {
        col
    } else {
        cell_col(col, widths, (i - 1) as nat) + widths[i - 1] + gap_after(widths, i - 1)
    }
}

/// Style of cell `i`: a reversed (highlighted) base style wins, then the
/// cell's own style, then the row's style.
pub open spec fn cell_style_of(
    cell_styles: Seq<Option<Style>>,
    row_style: Style,
    base: Style,
    i: int,
) -> Style {
    if base.reverse {
        base
    } else if 0 <= i < cell_styles.len() && cell_styles[i] is Some {
        cell_styles[i]->0
    } else {
        row_style
    }
}

/// What writing cells `0..n` of a row writes.
pub open spec fn row_cells(
    col: u16,
    row: u16,
    widths: Seq<usize>,
    cells: Seq<Seq<char>>,
    cell_styles: Seq<Option<Style>>,
    row_style: Style,
    base: Style,
    n: nat,
) -> Seq<char>
    decreases n,
{
    if n == 0 {
        seq![]
    } else {
        let i = (n - 1) as nat;
        let c = cell_col(col as int, widths, i);
        row_cells(col, row, widths, cells, cell_styles, row_style, base, i) + styled_text(
            c as u16,
            row,
            padded(cells[i as int], widths[i as int]),
            cell_style_of(cell_styles, row_style, base, i as int),
            widths[i as int],
        ) + if i + 1 < widths.len() {
            styled_text((c + widths[i as int]) as u16, row, " "@, base, 1)
        } else {
            seq![]
        }
    }
}

pub open spec fn min_int(a: int, b: int) -> int {
    if a <= b {
        a
    } else {
        b
    }
}

/// What `render_row` writes: the cells that have a width, and, for a
/// highlighted row, spaces in the highlight style up to the inner width.
pub open spec fn row_seq(
    col: u16,
    row: u16,
    widths: Seq<usize>,
    inner_w: usize,
    cells: Seq<Seq<char>>,
    cell_styles: Seq<Option<Style>>,
    row_style: Style,
    base: Style,
) -> Seq<char> {
    let n = min_int(widths.len() as int, cells.len() as int) as nat;
    let used = widths_sum(widths) + sat_sub(widths.len() as int, 1);
    row_cells(col, row, widths, cells, cell_styles, row_style, base, n) + if base.reverse && used
        < inner_w {
        styled_text(
            cell_col(col as int, widths, n) as u16,
            row,
            spaces((inner_w - used) as nat),
            base,
            (inner_w - used) as usize,
        )
    } else {
        seq![]
    }
}

pub proof fn lemma_cell_col_mono(col: int, widths: Seq<usize>, i: nat, j: nat)
    requires
        i <= j <= widths.len(),
    ensures
        cell_col(col, widths, i) <= cell_col(col, widths, j),
        cell_col(col, widths, i) + widths[i as int] <= cell_col(col, widths, j) || i == j,
    decreases j - i,
{
    if i < j {
        lemma_cell_col_mono(col, widths, i, (j - 1) as nat);
    }
}

pub proof fn lemma_widths_sum_le(widths: Seq<usize>, n: nat)
    requires
        n <= widths.len(),
    ensures
        widths_sum(widths.take(n as int)) <= widths_sum(widths),
    decreases widths.len() - n,
{
    if n < widths.len() {
        lemma_widths_sum_le(widths, n + 1);
        assert(widths.take(n + 1 as int).drop_last() =~= widths.take(n as int));
    } else {
        assert(widths.take(n as int) =~= widths);
    }
}

/// Draws one row at a screen position.
fn render_row(
    scr: &mut Screen,
    col: u16,
    row: u16,
    widths: &Vec<usize>,
    inner_w: usize,
    data: &Row,
    base_style: Style,
)
    requires
        cell_col(col as int, widths@, widths@.len()) <= u16::MAX,
        widths_sum(widths@) + widths@.len() <= usize::MAX,
    ensures
        final(scr)@ == old(scr)@ + row_seq(
            col,
            row,
            widths@,
            inner_w,
            string_views(data.cells@),
            data.cell_styles@,
            data.style,
            base_style,
        ),
        final(scr).term_cols() == old(scr).term_cols(),
        final(scr).term_rows() == old(scr).term_rows(),
{
    let ghost cells = string_views(data.cells@);
    let n = if widths.len() < data.cells.len() {
        widths.len()
    } else {
        data.cells.len()
    };
    let mut cur_col = col;
    let mut i: usize = 0;
    assert(old(scr)@ + row_cells(col, row, widths@, cells, data.cell_styles@, data.style, base_style, 0) =~= old(scr)@);
    while i < n
        invariant
            i <= n,
            n <= widths@.len(),
            n <= data.cells@.len(),
            cells == string_views(data.cells@),
            cell_col(col as int, widths@, widths@.len()) <= u16::MAX,
            cur_col == cell_col(col as int, widths@, i as nat),
            scr@ == old(scr)@ + row_cells(
                col,
                row,
                widths@,
                cells,
                data.cell_styles@,
                data.style,
                base_style,
                i as nat,
            ),
            scr.term_cols() == old(scr).term_cols(),
            scr.term_rows() == old(scr).term_rows(),
        decreases n - i,
    {
        let w = widths[i];
        proof {
            lemma_cell_col_mono(col as int, widths@, i as nat, widths@.len());
            lemma_cell_col_mono(col as int, widths@, (i + 1) as nat, widths@.len());
        }
        let style = if base_style.reverse {
            base_style
        } else if i < data.cell_styles.len() && data.cell_styles[i].is_some() {
            data.cell_styles[i].unwrap()
        } else {
            data.style
        };
        let line = pad_to_cols(data.cells[i].as_str(), w);
        scr.print_styled(cur_col, row, line.as_str(), style, w);
        cur_col = cur_col + w as u16;
        if i + 1 < widths.len() {
            scr.print_styled(cur_col, row, " ", base_style, 1);
            cur_col = cur_col + 1;
        }
        i = i + 1;
        assert(scr@ =~= old(scr)@ + row_cells(
            col,
            row,
            widths@,
            cells,
            data.cell_styles@,
            data.style,
            base_style,
            i as nat,
        ));
    }
    if base_style.reverse {
        let mut used: usize = 0;
        let mut k: usize = 0;
        assert(widths@.take(0) =~= Seq::<usize>::empty());
        while k < widths.len()
            invariant
                k <= widths@.len(),
                widths_sum(widths@) + widths@.len() <= usize::MAX,
                used == widths_sum(widths@.take(k as int)),
            decreases widths.len() - k,
        {
            proof {
                lemma_widths_sum_le(widths@, (k + 1) as nat);
                assert(widths@.take(k + 1).drop_last() =~= widths@.take(k as int));
            }
            used = used + widths[k];
            k = k + 1;
        }
        assert(widths@.take(k as int) =~= widths@);
        let gaps = if widths.len() >= 1 {
            widths.len() - 1
        } else {
            0
        };
        let used = used + gaps;
        if used < inner_w {
            let tail = inner_w - used;
            let mut blank = String::new();
            push_spaces(&mut blank, tail);
            scr.print_styled(cur_col, row, blank.as_str(), base_style, tail);
        }
    }
}

/// The widths `resolve_widths` gives.
pub open spec fn resolved_widths(specs: Seq<ColWidth>, total: int) -> Seq<usize> {
    Seq::new(
        specs.len(),
        |i: int| resolved_width(specs[i], fill_width(specs, total)) as usize,
    )
}

/// Style of a table's header row.
pub open spec fn header_style() -> Style {
    Style { fg: Some(Color::Yellow), bold: true, ..plain_style() }
}

/// Style of data row `i`: reversed when selected.
pub open spec fn highlight(selected: Option<usize>, i: int) -> Style {
    if selected == Some(i as usize) {
        Style { reverse: true, ..plain_style() }
    } else {
        plain_style()
    }
}

/// What the data rows `off..off + k` of a table write.
pub open spec fn table_rows(
    area: Rect,
    rows: Seq<Row>,
    widths: Seq<usize>,
    inner_w: usize,
    selected: Option<usize>,
    off: nat,
    k: nat,
) -> Seq<char>
    decreases k,
{
    if k == 0 {
        seq![]
    } else {
        let i = off + k - 1;
        table_rows(area, rows, widths, inner_w, selected, off, (k - 1) as nat) + row_seq(
            (area.col + 1) as u16,
            (area.row + 3 + k - 1) as u16,
            widths,
            inner_w,
            string_views(rows[i].cells@),
            rows[i].cell_styles@,
            rows[i].style,
            highlight(selected, i),
        )
    }
}

/// The line under a table's header.
pub open spec fn separator_seq(area: Rect, inner_w: nat) -> Seq<char> {
    style_seq(plain_style()) + goto_seq(area.col, (area.row + 2) as u16) + "├"@ + repeat_seq(
        "─"@,
        inner_w,
    ) + "┤"@ + reset_seq()
}

/// What `render_table` writes.
pub open spec fn table_seq(
    area: Rect,
    title: Seq<char>,
    header: Row,
    rows: Seq<Row>,
    specs: Seq<ColWidth>,
    selected: Option<usize>,
) -> Seq<char> {
    if area.w < 4 || area.h < 4 {
        seq![]
    } else {
        let inner_w = (area.w - 2) as usize;
        let widths = resolved_widths(specs, inner_w as int);
        let visible_h = (area.h - 4) as int;
        let off = sat_sub(selected.unwrap_or(0) + 1, visible_h);
        let count = min_int(sat_sub(rows.len() as int, off), visible_h) as nat;
        border_seq(area, Some(title), plain_style()) + row_seq(
            (area.col + 1) as u16,
            (area.row + 1) as u16,
            widths,
            inner_w,
            string_views(header.cells@),
            header.cell_styles@,
            header.style,
            header_style(),
        ) + separator_seq(area, inner_w as nat) + table_rows(
            area,
            rows,
            widths,
            inner_w,
            selected,
            off as nat,
            count,
        )
    }
}

/// Requirements of `render_table`: the area and every cell lie within the
/// terminal's coordinate range.
pub open spec fn table_fits(area: Rect, specs: Seq<ColWidth>, selected: Option<usize>) -> bool {
    area.w >= 4 && area.h >= 4 ==> {
        let widths = resolved_widths(specs, (area.w - 2) as int);
        &&& area_fits(area)
        &&& specs.len() <= 16384
        &&& cell_col(area.col + 1, widths, widths.len()) <= u16::MAX
        &&& widths_sum(widths) + widths.len() <= usize::MAX
        &&& selected.unwrap_or(0) >= area.h - 4 ==> selected.unwrap_or(0) + 1 <= usize::MAX
    }
}

/// Writes the data rows `off..off + count` of a table.
fn write_table_rows(
    scr: &mut Screen,
    area: Rect,
    rows: &[Row],
    widths: &Vec<usize>,
    inner_w: usize,
    selected: Option<usize>,
    off: usize,
    count: usize,
)
    requires
        area_fits(area),
        area.w >= 4,
        area.h >= 4,
        count <= area.h - 4,
        count > 0 ==> off + count <= rows@.len(),
        cell_col(area.col + 1, widths@, widths@.len()) <= u16::MAX,
        widths_sum(widths@) + widths@.len() <= usize::MAX,
    ensures
        final(scr)@ == old(scr)@ + table_rows(area, rows@, widths@, inner_w, selected, off as nat, count as nat),
        final(scr).term_cols() == old(scr).term_cols(),
        final(scr).term_rows() == old(scr).term_rows(),
{
    let mut k: usize = 0;
    let len = rows.len();
    assert(old(scr)@ + table_rows(area, rows@, widths@, inner_w, selected, off as nat, 0) =~= old(scr)@);
    while k < count
        invariant
            k <= count,
            len == rows@.len(),
            count <= area.h - 4,
            area_fits(area),
            area.w >= 4,
            area.h >= 4,
            count > 0 ==> off + count <= rows@.len(),
            cell_col(area.col + 1, widths@, widths@.len()) <= u16::MAX,
            widths_sum(widths@) + widths@.len() <= usize::MAX,
            scr@ == old(scr)@ + table_rows(area, rows@, widths@, inner_w, selected, off as nat, k as nat),
            scr.term_cols() == old(scr).term_cols(),
            scr.term_rows() == old(scr).term_rows(),
        decreases count - k,
    {
        let i = off + k;
        let highlight = if selected == Some(i) {
            Style::new().reverse()
        } else {
            Style::new()
        };
        render_row(scr, area.col + 1, area.row + 3 + k as u16, widths, inner_w, &rows[i], highlight);
        k = k + 1;
        assert(scr@ =~= old(scr)@ + table_rows(area, rows@, widths@, inner_w, selected, off as nat, k as nat));
    }
}

/// Draws a bordered table with a header row, a separator and the data
/// rows that fit, scrolled so that the selected row (highlighted) shows.
#[verifier::rlimit(60)]
pub fn render_table(
    scr: &mut Screen,
    area: Rect,
    title: &str,
    header: &Row,
    rows: &[Row],
    col_widths: &[ColWidth],
    selected: Option<usize>,
)
    requires
        table_fits(area, col_widths@, selected),
    ensures
        final(scr)@ == old(scr)@ + table_seq(area, title@, *header, rows@, col_widths@, selected),
        final(scr).term_cols() == old(scr).term_cols(),
        final(scr).term_rows() == old(scr).term_rows(),
{
    let (col, row, w, h) = (area.col, area.row, area.w, area.h);
    if w < 4 || h < 4 {
        assert(old(scr)@ + table_seq(area, title@, *header, rows@, col_widths@, selected) =~= old(scr)@);
        return ;
    }
    render_border(scr, area, Some(title), Style::new());
    let inner_w = (w - 2) as usize;
    let widths = resolve_widths(col_widths, inner_w);
    assert(widths@ =~= resolved_widths(col_widths@, inner_w as int));
    let header_style = Style::new().fg(Color::Yellow).bold();
    render_row(scr, col + 1, row + 1, &widths, inner_w, header, header_style);
    let ghost before_sep = scr@;
    scr.apply_style(Style::new());
    scr.goto(col, row + 2);
    scr.write_raw("├");
    write_repeat(scr, "─", inner_w);
    scr.write_raw("┤");
    scr.reset_style();
    assert(scr@ =~= before_sep + separator_seq(area, inner_w as nat));
    let visible_h = (h - 4) as usize;
    let (scroll_offset, _) = scroll_window(rows.len(), visible_h, selected);
    let count = if scroll_offset >= rows.len() {
        0
    } else if rows.len() - scroll_offset < visible_h {
        rows.len() - scroll_offset
    } else {
        visible_h
    };
    write_table_rows(scr, area, rows, &widths, inner_w, selected, scroll_offset, count);
    assert(scr@ =~= old(scr)@ + table_seq(area, title@, *header, rows@, col_widths@, selected));
}

/// A single styled line inside a dialog: `(text, style)` spans printed
/// left to right, no wrapping.
pub struct DialogLine {
    pub spans: Vec<(String, Style)>,
}

/// The spans of a dialog line as texts and styles.
pub open spec fn span_views(spans: Seq<(String, Style)>) -> Seq<(Seq<char>, Style)> {
    spans.map_values(|p: (String, Style)| (p.0@, p.1))
}

impl DialogLine {
    pub fn plain(s: String) -> (l: Self)
        ensures
            span_views(l.spans@) == seq![(s@, plain_style())],
    {
        let mut spans = Vec::new();
        spans.push((s, Style::new()));
        let l = DialogLine { spans };
        assert(span_views(l.spans@) =~= seq![(l.spans@[0].0@, plain_style())]);
        l
    }

    pub fn styled(s: String, style: Style) -> (l: Self)
        ensures
            span_views(l.spans@) == seq![(s@, style)],
    {
        let mut spans = Vec::new();
        spans.push((s, style));
        let l = DialogLine { spans };
        assert(span_views(l.spans@) =~= seq![(l.spans@[0].0@, style)]);
        l
    }

    pub fn empty() -> (l: Self)
        ensures
            l.spans@.len() == 0,
    {
        DialogLine { spans: Vec::new() }
    }

    pub fn push(self, s: String, style: Style) -> (l: Self)
        ensures
            span_views(l.spans@) == span_views(self.spans@).push((s@, style)),
    {
        let mut l = self;
        l.spans.push((s, style));
        assert(span_views(l.spans@) =~= span_views(self.spans@).push((s@, style)));
        l
    }
}

/// Where the cursor stands after the first `k` spans of a dialog line
/// that starts at column `start` and may write up to column `end`: each
/// span moves it by the columns it wrote.
pub open spec fn span_cursor(end: int, spans: Seq<(Seq<char>, Style)>, start: int, k: nat) -> int
    decreases k,
{
    if k == 0 {
        start
    } else {
        let cur = span_cursor(end, spans, start, (k - 1) as nat);
        let avail = sat_sub(end, cur);
        if avail == 0 {
            cur
        } else {
            cur + cols_of(WidthTable::Screen, cut(spans[k - 1].0, avail as usize))
        }
    }
}

/// What the first `k` spans of a dialog line write on row `r`.
pub open spec fn spans_seq(
    end: int,
    r: u16,
    spans: Seq<(Seq<char>, Style)>,
    start: int,
    k: nat,
) -> Seq<char>
    decreases k,
{
    if k == 0 {
        seq![]
    } else {
        let cur = span_cursor(end, spans, start, (k - 1) as nat);
        let avail = sat_sub(end, cur);
        spans_seq(end, r, spans, start, (k - 1) as nat) + if avail == 0 {
            seq![]
        } else {
            styled_text(
                cur as u16,
                r,
                cut(spans[k - 1].0, avail as usize),
                spans[k - 1].1,
                avail as usize,
            )
        }
    }
}

/// What one dialog line writes: its spans, then blanks to the inner width.
pub open spec fn dialog_line_seq(col: u16, w: u16, r: u16, spans: Seq<(Seq<char>, Style)>) -> Seq<
    char,
> {
    let end = col + w - 1;
    let cur = span_cursor(end, spans, col + 1, spans.len());
    let used = cur - (col + 1);
    let inner_w = sat_sub(w as int, 2);
    spans_seq(end, r, spans, col + 1, spans.len()) + if used < inner_w {
        goto_seq(cur as u16, r) + cut(spaces((inner_w - used) as nat), (inner_w - used) as usize)
    } else {
        seq![]
    }
}

/// What dialog lines `0..k` write.
pub open spec fn dialog_lines_seq(col: u16, row: u16, w: u16, lines: Seq<DialogLine>, k: nat) -> Seq<
    char,
>
    decreases k,
{
    if k == 0 {
        seq![]
    } else {
        dialog_lines_seq(col, row, w, lines, (k - 1) as nat) + dialog_line_seq(
            col,
            w,
            (row + k) as u16,
            span_views(lines[k - 1].spans@),
        )
    }
}

/// Size and position of a dialog centered on a screen of `cols` x `rows`.
pub open spec fn dialog_rect(cols: u16, rows: u16, w: u16, h: u16) -> Rect {
    let w2 = min_int(w as int, sat_sub(cols as int, 4));
    let h2 = min_int(h as int, sat_sub(rows as int, 2));
    Rect {
        col: (sat_sub(cols as int, w2) / 2 + 1) as u16,
        row: (sat_sub(rows as int, h2) / 2 + 1) as u16,
        w: w2 as u16,
        h: h2 as u16,
    }
}

/// What `render_dialog` writes.
pub open spec fn dialog_seq(
    cols: u16,
    rows: u16,
    w: u16,
    h: u16,
    title: Seq<char>,
    lines: Seq<DialogLine>,
    border_style: Style,
) -> Seq<char> {
    let d = dialog_rect(cols, rows, w, h);
    let n = min_int(lines.len() as int, sat_sub(d.h as int, 2)) as nat;
    clear_rows(d.col, d.row, d.w, d.h as nat) + border_seq(d, Some(title), border_style)
        + dialog_lines_seq(d.col, d.row, d.w, lines, n)
}

/// Writes the spans of one dialog line and blanks the rest of the row.
fn write_dialog_line(scr: &mut Screen, col: u16, w: u16, r: u16, line: &DialogLine)
    requires
        1 <= col < u16::MAX,
        col + w <= u16::MAX,
    ensures
        final(scr)@ == old(scr)@ + dialog_line_seq(col, w, r, span_views(line.spans@)),
        final(scr).term_cols() == old(scr).term_cols(),
        final(scr).term_rows() == old(scr).term_rows(),
{
    let ghost spans = span_views(line.spans@);
    let end = col + w - 1;
    let inner_w = w.saturating_sub(2) as usize;
    let mut cur_col = col + 1;
    let mut j: usize = 0;
    assert(old(scr)@ + spans_seq(end as int, r, spans, col + 1, 0) =~= old(scr)@);
    while j < line.spans.len()
        invariant
            j <= line.spans@.len(),
            spans == span_views(line.spans@),
            end == col + w - 1,
            1 <= col < u16::MAX,
            col + w <= u16::MAX,
            col + 1 <= cur_col,
            cur_col == col + 1 || cur_col <= end,
            cur_col == span_cursor(end as int, spans, col + 1, j as nat),
            scr@ == old(scr)@ + spans_seq(end as int, r, spans, col + 1, j as nat),
            scr.term_cols() == old(scr).term_cols(),
            scr.term_rows() == old(scr).term_rows(),
        decreases line.spans.len() - j,
    {
        let available = end.saturating_sub(cur_col) as usize;
        if available != 0 {
            let text = line.spans[j].0.as_str();
            let truncated = truncate_to_cols(text, available);
            proof {
                lemma_cols_of_bound(WidthTable::Screen, truncated@);
            }
            scr.print_styled(cur_col, r, truncated, line.spans[j].1, available);
            let chars = chars_of(truncated);
            proof {
                assert(chars@.subrange(0, chars@.len() as int) =~= chars@);
            }
            let count = cols_count(WidthTable::Screen, &chars, 0, chars.len());
            cur_col = cur_col + count as u16;
        }
        j = j + 1;
        assert(scr@ =~= old(scr)@ + spans_seq(end as int, r, spans, col + 1, j as nat));
    }
    let used = (cur_col - (col + 1)) as usize;
    if used < inner_w {
        let mut blanks = String::new();
        push_spaces(&mut blanks, inner_w - used);
        scr.print(cur_col, r, blanks.as_str(), inner_w - used);
    }
    assert(scr@ =~= old(scr)@ + dialog_line_seq(col, w, r, spans));
}

/// The area of a dialog of `w` by `h` centered on a screen of `cols` by
/// `rows`, kept two columns and one row off each edge.
fn centered(cols: u16, rows: u16, w: u16, h: u16) -> (r: Rect)
    ensures
        r == dialog_rect(cols, rows, w, h),
        1 <= r.col < u16::MAX,
        area_fits(r),
{
    let w = if w < cols.saturating_sub(4) {
        w
    } else {
        cols.saturating_sub(4)
    };
    let h = if h < rows.saturating_sub(2) {
        h
    } else {
        rows.saturating_sub(2)
    };
    let col = (cols.saturating_sub(w)) / 2 + 1;
    let row = (rows.saturating_sub(h)) / 2 + 1;
    Rect::new(col, row, w, h)
}

/// Draws a dialog centered on the screen: the area is cleared, bordered
/// and filled with as many lines as fit, each padded to the inner width.
#[verifier::rlimit(60)]
#[verifier::spinoff_prover]
pub fn render_dialog(
    scr: &mut Screen,
    w: u16,
    h: u16,
    title: &str,
    lines: &[DialogLine],
    border_style: Style,
)
    ensures
        final(scr)@ == old(scr)@ + dialog_seq(
            old(scr).term_cols(),
            old(scr).term_rows(),
            w,
            h,
            title@,
            lines@,
            border_style,
        ),
        final(scr).term_cols() == old(scr).term_cols(),
        final(scr).term_rows() == old(scr).term_rows(),
{
    let (cols, rows) = scr.size();
    let area = centered(cols, rows, w, h);
    let h = area.h;
    clear_rect(scr, area);
    render_border(scr, area, Some(title), border_style);
    let n_rows = h.saturating_sub(2) as usize;
    let n = if lines.len() < n_rows {
        lines.len()
    } else {
        n_rows
    };
    write_dialog_lines(scr, area, lines, n);
}

/// Writes dialog lines `0..n`.
fn write_dialog_lines(scr: &mut Screen, area: Rect, lines: &[DialogLine], n: usize)
    requires
        1 <= area.col < u16::MAX,
        area_fits(area),
        n <= lines@.len(),
        n <= sat_sub(area.h as int, 2),
    ensures
        final(scr)@ == old(scr)@ + dialog_lines_seq(area.col, area.row, area.w, lines@, n as nat),
        final(scr).term_cols() == old(scr).term_cols(),
        final(scr).term_rows() == old(scr).term_rows(),
{
    let mut i: usize = 0;
    assert(old(scr)@ + dialog_lines_seq(area.col, area.row, area.w, lines@, 0) =~= old(scr)@);
    while i < n
        invariant
            i <= n,
            n <= lines@.len(),
            n <= sat_sub(area.h as int, 2),
            1 <= area.col < u16::MAX,
            area_fits(area),
            scr@ == old(scr)@ + dialog_lines_seq(area.col, area.row, area.w, lines@, i as nat),
            scr.term_cols() == old(scr).term_cols(),
            scr.term_rows() == old(scr).term_rows(),
        decreases n - i,
    {
        write_dialog_line(scr, area.col, area.w, area.row + 1 + i as u16, &lines[i]);
        i = i + 1;
        assert(scr@ =~= old(scr)@ + dialog_lines_seq(area.col, area.row, area.w, lines@, i as nat));
    }
}

} // verus!
