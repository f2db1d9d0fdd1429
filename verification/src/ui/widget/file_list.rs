//! The file list widget: a bordered table of the entries, with a header,
//! the marked entry and the cursor.
use vstd::prelude::*;

use crate::path::std_file_name;
use crate::ui::text::{
    char_cols, chars_of, col_width, cols_of, fit_count, fit_len, lemma_cols_of_concat,
    lemma_cols_of_spaces, lemma_fit_len, push_spaces, spaces, string_of, WidthTable,
};
use crate::ui::widget::canvas::{
    cell, on_grid, ops_view, put, span, Area, Hue, Op, OpKind, OpView, Tone,
};

verus! {

/// Columns of the mark.
pub const MARK_W: usize = 2;

/// Columns of the size.
pub const SIZE_W: usize = 8;

/// Columns of the type.
pub const TYPE_W: usize = 4;

/// Columns between the four columns and after the mark.
pub const GAPS: usize = 3;

/// Columns a character takes in the list.
pub fn char_width(ch: char) -> (w: usize)
    ensures
        w == col_width(WidthTable::List, ch),
{
    char_cols(WidthTable::List, ch)
}

/// The part of a text that fits into `max` columns of the list.
pub open spec fn list_cut(s: Seq<char>, max: usize) -> Seq<char> {
    s.take(fit_len(WidthTable::List, s, max as int) as int)
}

/// A text cut to `w` columns and filled with spaces to `w` columns.
pub open spec fn list_padded(s: Seq<char>, w: usize) -> Seq<char> {
    list_cut(s, w) + spaces((w - cols_of(WidthTable::List, list_cut(s, w))) as nat)
}

/// The longest prefix of `s` that fits into `max` columns.
pub fn truncate(s: &str, max: usize) -> (r: String)
    ensures
        r@ == list_cut(s@, max),
        cols_of(WidthTable::List, r@) <= max,
{
    let chars = chars_of(s);
    let (n, _) = fit_count(WidthTable::List, &chars, 0, max);
    assert(chars@.skip(0) =~= chars@);
    assert(chars@.subrange(0, n as int) =~= list_cut(s@, max));
    string_of(&chars, 0, n)
}

/// `s` cut to `w` columns and filled with spaces to exactly `w` columns.
pub fn pad(s: &str, w: usize) -> (r: String)
    ensures
        r@ == list_padded(s@, w),
        cols_of(WidthTable::List, r@) == w,
{
    let chars = chars_of(s);
    let (n, filled) = fit_count(WidthTable::List, &chars, 0, w);
    assert(chars@.skip(0) =~= chars@);
    assert(chars@.subrange(0, n as int) =~= list_cut(s@, w));
    let mut out = string_of(&chars, 0, n);
    push_spaces(&mut out, w - filled);
    proof {
        lemma_cols_of_concat(WidthTable::List, list_cut(s@, w), spaces((w - filled) as nat));
        lemma_cols_of_spaces(WidthTable::List, (w - filled) as nat);
    }
    out
}

/// The name of the final component of a path, or nothing.
pub open spec fn name_shown(p: Seq<char>) -> Seq<char> {
    match std_file_name(p) {
        Some(n) => n,
        None => Seq::empty(),
    }
}

/// The name of the final component of a path, or an empty string.
pub fn file_name(path: &str) -> (s: String)
    ensures
        s@ == name_shown(path@),
{
    match crate::path::file_name(path) {
        Some(n) => n,
        None => String::new(),
    }
}

/// `n` cells from column `x0` on row `y`, each with the symbol `sym`.
pub open spec fn cell_run(kind: OpKind, x0: int, n: int, y: int, sym: Seq<char>, tone: Tone) -> Seq<OpView> {
    Seq::new(n as nat, |i: int| cell(kind, x0 + i, y, sym, tone))
}

/// `a - b`, or 0 when `b` is larger.
pub open spec fn sat(a: int, b: int) -> int {
    if a >= b {
        a - b
    } else {
        0
    }
}

/// The two sides of a border, row after row.
pub open spec fn border_sides(area: Area, rows: int, tone: Tone) -> Seq<OpView> {
    Seq::new(
        (2 * rows) as nat,
        |i: int|
            if i % 2 == 0 {
                cell(OpKind::Cell, area.x as int, area.y + 1 + i / 2, "│"@, tone)
            } else {
                cell(OpKind::Cell, area.x + area.width - 1, area.y + 1 + i / 2, "│"@, tone)
            },
    )
}

/// The top row of a border, with the title over it (as many characters as
/// fit between the corners).
pub open spec fn border_top_ops(area: Area, title: Seq<char>, tone: Tone) -> Seq<OpView> {
    let x = area.x as int;
    let y = area.y as int;
    let w = area.width as int;
    let n = if title.len() < sat(w, 2) {
        title.len() as int
    } else {
        sat(w, 2)
    };
    seq![cell(OpKind::Cell, x, y, "┌"@, tone)] + cell_run(OpKind::Cell, x + 1, sat(w, 2), y, "─"@, tone)
        + seq![cell(OpKind::Cell, x + w - 1, y, "┐"@, tone)] + Seq::new(
        n as nat,
        |i: int| cell(OpKind::Cell, x + 1 + i, y, seq![title[i]], tone),
    )
}

/// The bottom row of a border.
pub open spec fn border_bottom_ops(area: Area, tone: Tone) -> Seq<OpView> {
    let x = area.x as int;
    let w = area.width as int;
    let yb = area.y + area.height - 1;
    seq![cell(OpKind::Cell, x, yb, "└"@, tone)] + cell_run(OpKind::Cell, x + 1, sat(w, 2), yb, "─"@, tone)
        + seq![cell(OpKind::Cell, x + w - 1, yb, "┘"@, tone)]
}

/// What `render_border` draws: the top row with the title, the sides, and
/// the bottom row.
pub open spec fn border_ops(area: Area, title: Seq<char>, tone: Tone) -> Seq<OpView> {
    border_top_ops(area, title, tone) + border_sides(area, sat(area.height as int, 2), tone)
        + border_bottom_ops(area, tone)
}

/// The area inside a border.
pub open spec fn inner_of(area: Area) -> Area {
    Area {
        x: (area.x + 1) as u16,
        y: (area.y + 1) as u16,
        width: sat(area.width as int, 2) as u16,
        height: sat(area.height as int, 2) as u16,
    }
}

/// Appends `n` cells from column `x0` on row `y`.
fn put_run(ops: &mut Vec<Op>, kind: OpKind, x0: u16, n: u16, y: u16, sym: &str, tone: Tone)
    requires
        x0 + n <= u16::MAX,
    ensures
        ops_view(final(ops)@) == ops_view(old(ops)@) + cell_run(kind, x0 as int, n as int, y as int, sym@, tone),
{
    let mut k: u16 = 0;
    assert(ops_view(ops@) =~= ops_view(old(ops)@) + cell_run(kind, x0 as int, 0, y as int, sym@, tone));
    while k < n
        invariant
            k <= n,
            x0 + n <= u16::MAX,
            ops_view(ops@) == ops_view(old(ops)@) + cell_run(kind, x0 as int, k as int, y as int, sym@, tone),
        decreases n - k,
    {
        put(ops, kind, x0 + k, y, sym.to_string(), tone, 1);
        k = k + 1;
        assert(ops_view(ops@) =~= ops_view(old(ops)@) + cell_run(kind, x0 as int, k as int, y as int, sym@, tone));
    }
}

/// Draws the top row of a border with its title.
fn border_top(area: Area, title: &str, tone: Tone, ops: &mut Vec<Op>)
    requires
        on_grid(area),
        area.width >= 1 || 1 <= area.x < u16::MAX,
    ensures
        ops_view(final(ops)@) == ops_view(old(ops)@) + border_top_ops(area, title@, tone),
{
    let x = area.x;
    let y = area.y;
    let w = area.width;
    let ghost base = ops_view(ops@);
    put(ops, OpKind::Cell, x, y, "┌".to_string(), tone, 1);
    put_run(ops, OpKind::Cell, x + 1, w.saturating_sub(2), y, "─", tone);
    put(ops, OpKind::Cell, x + w - 1, y, "┐".to_string(), tone, 1);
    let chars = chars_of(title);
    let max_title = w.saturating_sub(2) as usize;
    let n = if chars.len() < max_title {
        chars.len()
    } else {
        max_title
    };
    let ghost top = ops_view(ops@);
    let mut i: usize = 0;
    while i < n
        invariant
            i <= n <= chars@.len(),
            n <= max_title,
            max_title == sat(w as int, 2),
            on_grid(area),
            x == area.x,
            y == area.y,
            w == area.width,
            chars@ == title@,
            ops_view(ops@) == top + Seq::new(
                i as nat,
                |k: int| cell(OpKind::Cell, x + 1 + k, y as int, seq![title@[k]], tone),
            ),
        decreases n - i,
    {
        let mut s = String::new();
        crate::ui::text::push_char(&mut s, chars[i]);
        put(ops, OpKind::Cell, x + 1 + i as u16, y, s, tone, 1);
        i = i + 1;
        assert(ops_view(ops@) =~= top + Seq::new(
            i as nat,
            |k: int| cell(OpKind::Cell, x + 1 + k, y as int, seq![title@[k]], tone),
        ));
    }
    assert(ops_view(ops@) =~= base + border_top_ops(area, title@, tone));
}

/// Draws the two sides of a border.
fn border_side_cells(area: Area, tone: Tone, ops: &mut Vec<Op>)
    requires
        on_grid(area),
        area.width >= 1 || area.x >= 1,
    ensures
        ops_view(final(ops)@) == ops_view(old(ops)@) + border_sides(area, sat(area.height as int, 2), tone),
{
    let x = area.x;
    let y = area.y;
    let w = area.width;
    let rows = area.height.saturating_sub(2);
    let ghost mid = ops_view(ops@);
    let mut r: u16 = 0;
    assert(mid =~= mid + border_sides(area, 0, tone));
    while r < rows
        invariant
            r <= rows,
            rows == sat(area.height as int, 2),
            on_grid(area),
            x == area.x,
            y == area.y,
            w == area.width,
            w >= 1 || x >= 1,
            ops_view(ops@) == mid + border_sides(area, r as int, tone),
        decreases rows - r,
    {
        put(ops, OpKind::Cell, x, y + 1 + r, "│".to_string(), tone, 1);
        put(ops, OpKind::Cell, x + w - 1, y + 1 + r, "│".to_string(), tone, 1);
        r = r + 1;
        assert(ops_view(ops@) =~= mid + border_sides(area, r as int, tone));
    }
}

/// Draws the bottom row of a border.
fn border_bottom(area: Area, tone: Tone, ops: &mut Vec<Op>)
    requires
        on_grid(area),
        area.width >= 1 || 1 <= area.x < u16::MAX,
        area.height >= 1 || area.y >= 1,
    ensures
        ops_view(final(ops)@) == ops_view(old(ops)@) + border_bottom_ops(area, tone),
{
    let x = area.x;
    let w = area.width;
    let yb = area.y + area.height - 1;
    let ghost base = ops_view(ops@);
    put(ops, OpKind::Cell, x, yb, "└".to_string(), tone, 1);
    put_run(ops, OpKind::Cell, x + 1, w.saturating_sub(2), yb, "─", tone);
    put(ops, OpKind::Cell, x + w - 1, yb, "┘".to_string(), tone, 1);
    assert(ops_view(ops@) =~= base + border_bottom_ops(area, tone));
}

/// Draws a border around `area` in `tone`, with `title` over the top row,
/// and gives the area inside it.
pub fn render_border(area: Area, title: &str, tone: Tone, ops: &mut Vec<Op>) -> (inner: Area)
    requires
        on_grid(area),
        area.width >= 1 || 1 <= area.x < u16::MAX,
        area.height >= 1 || 1 <= area.y < u16::MAX,
    ensures
        ops_view(final(ops)@) == ops_view(old(ops)@) + border_ops(area, title@, tone),
        inner == inner_of(area),
{
    let ghost base = ops_view(ops@);
    border_top(area, title, tone, ops);
    border_side_cells(area, tone, ops);
    border_bottom(area, tone, ops);
    assert(ops_view(ops@) =~= base + border_ops(area, title@, tone));
    Area {
        x: area.x + 1,
        y: area.y + 1,
        width: area.width.saturating_sub(2),
        height: area.height.saturating_sub(2),
    }
}

/// What the list shows of one entry, as read from the file system.
pub struct FileRow {
    pub path: String,
    /// Whether the path leads to a directory.
    pub is_dir: bool,
    /// The size as shown.
    pub size_text: String,
    /// The type as shown.
    pub type_text: String,
}

/// The file list widget.
pub struct FileList {
    pub files: Vec<FileRow>,
    pub cursor: usize,
    pub scroll_offset: usize,
    pub marked: Option<usize>,
    pub title: String,
}

/// The four header columns (or any four texts) on row `y` from column `x`.
pub open spec fn column_ops(x: int, y: int, name_w: int, mark: Seq<char>, name: Seq<char>, size: Seq<char>, typ: Seq<char>, tone: Tone) -> Seq<OpView> {
    let name_col = x + MARK_W + 1;
    seq![
        span(x, y, list_padded(mark, MARK_W), tone, MARK_W as int),
        span(name_col, y, list_padded(name, name_w as usize), tone, name_w),
        span(name_col + name_w + 1, y, list_padded(size, SIZE_W), tone, SIZE_W as int),
        span(name_col + name_w + SIZE_W + 2, y, list_padded(typ, TYPE_W), tone, TYPE_W as int),
    ]
}

/// Writes four column texts on row `y` from column `x`.
fn render_columns(
    ops: &mut Vec<Op>,
    x: u16,
    y: u16,
    name_w: usize,
    mark: &str,
    name: &str,
    size: &str,
    typ: &str,
    tone: Tone,
)
    requires
        x + name_w + MARK_W + SIZE_W + TYPE_W + GAPS <= u16::MAX,
    ensures
        ops_view(final(ops)@) == ops_view(old(ops)@) + column_ops(x as int, y as int, name_w as int, mark@, name@, size@, typ@, tone),
{
    let name_col = x + MARK_W as u16 + 1;
    let ghost base = ops_view(ops@);
    put(ops, OpKind::Span, x, y, pad(mark, MARK_W), tone, MARK_W as u16);
    put(ops, OpKind::Span, name_col, y, pad(name, name_w), tone, name_w as u16);
    put(ops, OpKind::Span, name_col + name_w as u16 + 1, y, pad(size, SIZE_W), tone, SIZE_W as u16);
    put(ops, OpKind::Span, name_col + name_w as u16 + SIZE_W as u16 + 2, y, pad(typ, TYPE_W), tone, TYPE_W as u16);
    assert(ops_view(ops@) =~= base + column_ops(x as int, y as int, name_w as int, mark@, name@, size@, typ@, tone));
}

/// The tone of the mark column of an entry.
pub open spec fn mark_tone(marked: bool) -> Tone {
    if marked {
        Tone { fg: Some(Hue::Cyan), bold: true, reversed: false }
    } else {
        Tone { fg: None, bold: false, reversed: false }
    }
}

/// What one entry's row draws on row `y`: its mark, then its name, size
/// and type, on one reversed span under the cursor, else the name in blue
/// bold for a directory and the size and type dimmed.
pub open spec fn row_ops(row: FileRow, inner: Area, name_w: int, y: int, is_cursor: bool, is_marked: bool) -> Seq<OpView> {
    let name_col = inner.x + MARK_W + 1;
    let name = list_padded(name_shown(row.path@), name_w as usize);
    let size = if row.is_dir {
        list_padded(" —"@, SIZE_W)
    } else {
        list_padded(row.size_text@, SIZE_W)
    };
    let typ = list_padded(row.type_text@, TYPE_W);
    seq![
        span(
            inner.x as int,
            y,
            if is_marked {
                "> "@
            } else {
                "  "@
            },
            mark_tone(is_marked),
            MARK_W as int,
        ),
    ] + if is_cursor {
        seq![
            span(
                name_col,
                y,
                name + " "@ + size + " "@ + typ,
                Tone { fg: None, bold: false, reversed: true },
                name_w + 1 + SIZE_W + 1 + TYPE_W,
            ),
        ]
    } else {
        seq![
            span(
                name_col,
                y,
                name,
                if row.is_dir {
                    Tone { fg: Some(Hue::Blue), bold: true, reversed: false }
                } else {
                    Tone { fg: None, bold: false, reversed: false }
                },
                name_w,
            ),
            span(name_col + name_w + 1, y, size, Tone { fg: Some(Hue::DarkGray), bold: false, reversed: false }, SIZE_W as int),
            span(
                name_col + name_w + 2 + SIZE_W,
                y,
                typ,
                Tone { fg: Some(Hue::DarkGray), bold: false, reversed: false },
                TYPE_W as int,
            ),
        ]
    }
}

/// The rows of the first `k` entries shown, from the scroll offset on.
pub open spec fn rows_ops(fl: FileList, inner: Area, name_w: int, k: int) -> Seq<OpView>
    decreases k,
{
    if k <= 0 {
        Seq::empty()
    } else {
        let i = fl.scroll_offset + k - 1;
        rows_ops(fl, inner, name_w, k - 1) + row_ops(
            fl.files@[i],
            inner,
            name_w,
            inner.y + 2 + k - 1,
            i == fl.cursor,
            fl.marked == Some(i as usize),
        )
    }
}

/// The columns of the name.
pub open spec fn name_width(inner: Area) -> int {
    sat(inner.width as int, (MARK_W + SIZE_W + TYPE_W + GAPS) as int)
}

/// How many entries are shown: as many as rows below the header and its
/// separator, from the scroll offset on.
pub open spec fn shown_rows(fl: FileList, inner: Area) -> int {
    let room = sat(inner.height as int, 2);
    let left = sat(fl.files@.len() as int, fl.scroll_offset as int);
    if room < left {
        room
    } else {
        left
    }
}

/// The separator under the header, when it is above the bottom border.
pub open spec fn separator_ops(area: Area) -> Seq<OpView> {
    let sep_y = area.y + 2;
    if sep_y < area.y + area.height - 1 {
        seq![cell(OpKind::Symbol, area.x as int, sep_y, "├"@, Tone { fg: None, bold: false, reversed: false })]
            + cell_run(
            OpKind::Symbol,
            area.x + 1,
            area.width - 2,
            sep_y,
            "─"@,
            Tone { fg: None, bold: false, reversed: false },
        ) + seq![
            cell(
                OpKind::Symbol,
                area.x + area.width - 1,
                sep_y,
                "┤"@,
                Tone { fg: None, bold: false, reversed: false },
            ),
        ]
    } else {
        Seq::empty()
    }
}

/// What the file list draws in `area`: nothing when it is under 6 columns
/// or 5 rows; else its border with the title, the header in bold yellow, a
/// separator under it, and the rows shown.
pub open spec fn file_list_ops(fl: FileList, area: Area) -> Seq<OpView> {
    if area.width < 6 || area.height < 5 {
        Seq::empty()
    } else {
        let inner = inner_of(area);
        let name_w = name_width(inner);
        border_ops(area, fl.title@, Tone { fg: Some(Hue::Reset), bold: false, reversed: false })
            + column_ops(
            inner.x as int,
            inner.y as int,
            name_w,
            " "@,
            "Name"@,
            "Size    "@,
            "Type"@,
            Tone { fg: Some(Hue::Yellow), bold: true, reversed: false },
        ) + separator_ops(area) + rows_ops(fl, inner, name_w, shown_rows(fl, inner))
    }
}

/// Draws the separator under the header.
fn render_separator(area: Area, ops: &mut Vec<Op>)
    requires
        on_grid(area),
        area.width >= 6,
        area.height >= 5,
    ensures
        ops_view(final(ops)@) == ops_view(old(ops)@) + separator_ops(area),
{
    let ghost base = ops_view(ops@);
    let sep_y = area.y + 2;
    if sep_y < area.y + area.height - 1 {
        put(ops, OpKind::Symbol, area.x, sep_y, "├".to_string(), Tone::plain(), 1);
        put_run(ops, OpKind::Symbol, area.x + 1, area.width - 2, sep_y, "─", Tone::plain());
        put(ops, OpKind::Symbol, area.x + area.width - 1, sep_y, "┤".to_string(), Tone::plain(), 1);
    }
    assert(ops_view(ops@) =~= base + separator_ops(area));
}

/// The columns of the list, which keep their widths however narrow the
/// area, end on a column a `u16` can name (checked only where the list is
/// drawn at all).
pub open spec fn columns_fit(area: Area) -> bool {
    area.width < 6 || area.height < 5 || area.width >= 19 || area.x + 18 <= u16::MAX
}

impl FileList {
    /// Draws one entry's row.
    fn render_row(&self, ops: &mut Vec<Op>, inner: Area, name_w: usize, i: usize, y: u16)
        requires
            i < self.files@.len(),
            inner.x + name_w + MARK_W + SIZE_W + TYPE_W + GAPS <= u16::MAX,
        ensures
            ops_view(final(ops)@) == ops_view(old(ops)@) + row_ops(
                self.files@[i as int],
                inner,
                name_w as int,
                y as int,
                i == self.cursor,
                self.marked == Some(i),
            ),
    {
        let row = &self.files[i];
        let is_cursor = i == self.cursor;
        let is_marked = self.marked == Some(i);
        let ghost base = ops_view(ops@);
        let mark = if is_marked {
            "> "
        } else {
            "  "
        };
        let mark_style = if is_marked {
            Tone::bold(Hue::Cyan)
        } else {
            Tone::plain()
        };
        put(ops, OpKind::Span, inner.x, y, mark.to_string(), mark_style, MARK_W as u16);
        let name = file_name(row.path.as_str());
        let size_str = if row.is_dir {
            pad(" —", SIZE_W)
        } else {
            pad(row.size_text.as_str(), SIZE_W)
        };
        let type_str = pad(row.type_text.as_str(), TYPE_W);
        let name_col = inner.x + MARK_W as u16 + 1;
        if is_cursor {
            let mut full = pad(name.as_str(), name_w);
            full.append(" ");
            full.append(size_str.as_str());
            full.append(" ");
            full.append(type_str.as_str());
            put(
                ops,
                OpKind::Span,
                name_col,
                y,
                full,
                Tone { fg: None, bold: false, reversed: true },
                (name_w + 1 + SIZE_W + 1 + TYPE_W) as u16,
            );
        } else {
            let name_style = if row.is_dir {
                Tone::bold(Hue::Blue)
            } else {
                Tone::plain()
            };
            let dim = Tone::fg(Hue::DarkGray);
            put(ops, OpKind::Span, name_col, y, pad(name.as_str(), name_w), name_style, name_w as u16);
            put(ops, OpKind::Span, name_col + name_w as u16 + 1, y, size_str, dim, SIZE_W as u16);
            put(
                ops,
                OpKind::Span,
                name_col + name_w as u16 + 2 + SIZE_W as u16,
                y,
                type_str,
                dim,
                TYPE_W as u16,
            );
        }
        assert(ops_view(ops@) =~= base + row_ops(
            self.files@[i as int],
            inner,
            name_w as int,
            y as int,
            is_cursor,
            is_marked,
        ));
    }

    /// Draws the list in `area` (see `file_list_ops`).
    pub fn render(&self, area: Area) -> (ops: Vec<Op>)
        requires
            on_grid(area),
            columns_fit(area),
        ensures
            ops_view(ops@) == file_list_ops(*self, area),
    {
        let mut ops: Vec<Op> = Vec::new();
        if area.width < 6 || area.height < 5 {
            assert(ops_view(ops@) =~= Seq::<OpView>::empty());
            return ops;
        }
        let ghost start = ops_view(ops@);
        let inner = render_border(area, self.title.as_str(), Tone::fg(Hue::Reset), &mut ops);
        let inner_w = inner.width as usize;
        let name_w = inner_w.saturating_sub(MARK_W + SIZE_W + TYPE_W + GAPS);
        render_columns(
            &mut ops,
            inner.x,
            inner.y,
            name_w,
            " ",
            "Name",
            "Size    ",
            "Type",
            Tone::bold(Hue::Yellow),
        );
        render_separator(area, &mut ops);
        let ghost top = ops_view(ops@);
        let visible_rows = (inner.height as usize).saturating_sub(2);
        let mut k: usize = 0;
        assert(top =~= top + rows_ops(*self, inner, name_w as int, 0));
        while k < visible_rows && self.scroll_offset < self.files.len() && k < self.files.len()
            - self.scroll_offset
            invariant
                k <= visible_rows,
                visible_rows == sat(inner.height as int, 2),
                inner == inner_of(area),
                on_grid(area),
                area.width >= 6,
                name_w == name_width(inner),
                inner.x + name_w + MARK_W + SIZE_W + TYPE_W + GAPS <= u16::MAX,
                k <= shown_rows(*self, inner),
                ops_view(ops@) == top + rows_ops(*self, inner, name_w as int, k as int),
            decreases visible_rows - k,
        {
            let i = self.scroll_offset + k;
            let y = inner.y + 2 + k as u16;
            self.render_row(&mut ops, inner, name_w, i, y);
            k = k + 1;
            assert(ops_view(ops@) =~= top + rows_ops(*self, inner, name_w as int, k as int));
        }
        assert(k == shown_rows(*self, inner));
        assert(ops_view(ops@) =~= file_list_ops(*self, area));
        ops
    }
}

} // verus!
