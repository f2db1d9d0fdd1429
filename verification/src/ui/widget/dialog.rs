//! The dialog of a paste conflict: the name that already exists, the
//! apply-to-all toggle and the choices, or the new name being typed.
use vstd::prelude::*;

use crate::ui::text::{cols_of, WidthTable};
use crate::ui::widget::canvas::{
    cell, on_grid, ops_view, put, span, Area, Hue, Op, OpKind, OpView, Tone,
};
use crate::ui::widget::file_list::{
    border_ops, inner_of, list_cut, list_padded, pad, render_border, sat, truncate,
};

verus! {

/// The conflict dialog.
pub struct ConflictDialog {
    pub filename: String,
    pub options: Vec<String>,
    pub cursor: usize,
    pub apply_to_all: bool,
    /// The new name being typed, if any.
    pub rename_input: Option<String>,
}

/// The smaller of two numbers.
pub open spec fn min2(a: int, b: int) -> int {
    if a < b {
        a
    } else {
        b
    }
}

/// Where the dialog goes in `area`: centered, 54 columns wide at most and
/// two columns off each side, six rows plus one per choice (or one for the
/// new name) high at most and one row off top and bottom.
pub open spec fn dialog_area(d: ConflictDialog, area: Area) -> Area {
    let body = if d.rename_input is Some {
        1
    } else {
        d.options@.len() as int
    };
    let h = min2(6 + body, sat(area.height as int, 2));
    let w = min2(54, sat(area.width as int, 4));
    Area {
        x: (sat(area.width as int, w) / 2 + area.x) as u16,
        y: (sat(area.height as int, h) / 2 + area.y) as u16,
        width: w as u16,
        height: h as u16,
    }
}

/// Every cell of the area blanked, row after row.
pub open spec fn blank_ops(a: Area) -> Seq<OpView> {
    Seq::new(
        (a.width * a.height) as nat,
        |i: int|
            cell(
                OpKind::Cell,
                a.x + i % (a.width as int),
                a.y + i / (a.width as int),
                " "@,
                Tone { fg: None, bold: false, reversed: false },
            ),
    )
}

/// The first `k` choices, each on its row from `row` on, as long as they
/// stay above the bottom border at `bottom`.
pub open spec fn option_ops(d: ConflictDialog, inner: Area, row: int, bottom: int, k: int) -> Seq<OpView>
    decreases k,
{
    if k <= 0 {
        Seq::empty()
    } else {
        let i = k - 1;
        let selected = i == d.cursor;
        option_ops(d, inner, row, bottom, k - 1) + seq![
            span(
                inner.x as int,
                row + i,
                list_padded(
                    "  "@ + (if selected {
                        "> "@
                    } else {
                        "  "@
                    }) + d.options@[i]@,
                    inner.width as usize,
                ),
                if selected {
                    Tone { fg: Some(Hue::White), bold: true, reversed: true }
                } else {
                    Tone { fg: Some(Hue::Gray), bold: false, reversed: false }
                },
                inner.width as int,
            ),
        ]
    }
}

/// How many choices fit above the bottom border.
pub open spec fn options_shown(d: ConflictDialog, row: int, bottom: int) -> int {
    min2(d.options@.len() as int, sat(bottom, row))
}

/// What the dialog draws in `area`: its cells blanked, its border in red
/// with the title ` Conflict `, the top row in bold red, the name (cut to
/// fit) and ` already exists`; then either the new name being typed, or
/// the apply-to-all toggle with its hint and the choices, the one under
/// the cursor highlighted.
pub open spec fn dialog_ops(d: ConflictDialog, area: Area) -> Seq<OpView> {
    let a = dialog_area(d, area);
    blank_ops(a) + border_ops(a, " Conflict "@, Tone { fg: Some(Hue::Red), bold: false, reversed: false })
        + top_style_ops(a) + body_ops(d, a)
}

/// The top row of the dialog restyled in bold red.
pub open spec fn top_style_ops(a: Area) -> Seq<OpView> {
    Seq::new(
        a.width as nat,
        |i: int|
            cell(
                OpKind::Restyle,
                a.x + i,
                a.y as int,
                Seq::empty(),
                Tone { fg: Some(Hue::Red), bold: true, reversed: false },
            ),
    )
}

/// What the dialog draws inside its border.
pub open spec fn body_ops(d: ConflictDialog, a: Area) -> Seq<OpView> {
    let inner = inner_of(a);
    let name_max = sat(inner.width as int, 16);
    let row = inner.y as int;
    seq![
        span(
            inner.x + 2,
            row,
            list_cut(d.filename@, name_max as usize),
            Tone { fg: Some(Hue::Yellow), bold: true, reversed: false },
            name_max,
        ),
        span(
            inner.x + 2 + name_max,
            row,
            " already exists"@,
            Tone { fg: None, bold: false, reversed: false },
            sat(inner.width as int, name_max + 2),
        ),
    ] + match d.rename_input {
        Some(input) => seq![
            span(
                inner.x as int,
                row + 2,
                list_padded("  Rename to: "@ + input@ + "_"@, inner.width as usize),
                Tone { fg: Some(Hue::White), bold: true, reversed: false },
                inner.width as int,
            ),
        ],
        None => seq![
            span(
                inner.x + 2,
                row + 2,
                if d.apply_to_all {
                    "[*] Apply to all"@
                } else {
                    "[ ] Apply to all"@
                },
                if d.apply_to_all {
                    Tone { fg: Some(Hue::Cyan), bold: true, reversed: false }
                } else {
                    Tone { fg: Some(Hue::DarkGray), bold: false, reversed: false }
                },
                16,
            ),
            span(
                inner.x + sat(inner.width as int, 11),
                row + 2,
                "(a / space)"@,
                Tone { fg: Some(Hue::DarkGray), bold: false, reversed: false },
                11,
            ),
        ] + option_ops(
            d,
            inner,
            row + 4,
            a.y + a.height - 1,
            options_shown(d, row + 4, a.y + a.height - 1),
        ),
    }
}

impl ConflictDialog {
    /// Blanks every cell of the area.
    fn blank(a: Area, ops: &mut Vec<Op>)
        requires
            on_grid(a),
        ensures
            ops_view(final(ops)@) == ops_view(old(ops)@) + blank_ops(a),
    {
        let ghost base = ops_view(ops@);
        let mut r: u16 = 0;
        assert(base =~= base + blank_ops(Area { height: 0, ..a }));
        while r < a.height
            invariant
                r <= a.height,
                on_grid(a),
                ops_view(ops@) == base + blank_ops(Area { height: r, ..a }),
            decreases a.height - r,
        {
            let ghost row_start = ops_view(ops@);
            let mut c: u16 = 0;
            while c < a.width
                invariant
                    c <= a.width,
                    r < a.height,
                    on_grid(a),
                    ops_view(ops@) == row_start + Seq::new(
                        c as nat,
                        |i: int|
                            cell(
                                OpKind::Cell,
                                a.x + i,
                                a.y + r,
                                " "@,
                                Tone { fg: None, bold: false, reversed: false },
                            ),
                    ),
                decreases a.width - c,
            {
                put(ops, OpKind::Cell, a.x + c, a.y + r, " ".to_string(), Tone::plain(), 1);
                c = c + 1;
                assert(ops_view(ops@) =~= row_start + Seq::new(
                    c as nat,
                    |i: int|
                        cell(
                            OpKind::Cell,
                            a.x + i,
                            a.y + r,
                            " "@,
                            Tone { fg: None, bold: false, reversed: false },
                        ),
                ));
            }
            proof {
                let next = blank_ops(Area { height: (r + 1) as u16, ..a });
                let prev = blank_ops(Area { height: r, ..a });
                let w = a.width as int;
                assert(w * (r + 1) == w * r + w) by (nonlinear_arith);
                assert forall|i: int| 0 <= i < next.len() implies #[trigger] next[i] == (prev
                    + Seq::new(
                    w as nat,
                    |j: int|
                        cell(
                            OpKind::Cell,
                            a.x + j,
                            a.y + r,
                            " "@,
                            Tone { fg: None, bold: false, reversed: false },
                        ),
                ))[i] by {
                    if i >= w * r {
                        let j = i - w * r;
                        assert(i % w == j) by (nonlinear_arith)
                            requires
                                i == w * r + j,
                                0 <= j < w,
                        ;
                        assert(i / w == r) by (nonlinear_arith)
                            requires
                                i == w * r + j,
                                0 <= j < w,
                        ;
                    }
                }
                assert(next.len() == prev.len() + w) by (nonlinear_arith)
                    requires
                        next.len() == w * (r + 1),
                        prev.len() == w * r,
                ;
            }
            r = r + 1;
            assert(ops_view(ops@) =~= base + blank_ops(Area { height: r, ..a }));
        }
        assert(Area { height: r, ..a } == a);
    }

    /// Draws the choices from `row` on, above `bottom`.
    fn render_options(&self, inner: Area, row: u16, bottom: u16, ops: &mut Vec<Op>)
        requires
            on_grid(inner),
        ensures
            ops_view(final(ops)@) == ops_view(old(ops)@) + option_ops(
                *self,
                inner,
                row as int,
                bottom as int,
                options_shown(*self, row as int, bottom as int),
            ),
    {
        let ghost base = ops_view(ops@);
        let mut i: usize = 0;
        let mut r = row;
        assert(base =~= base + option_ops(*self, inner, row as int, bottom as int, 0));
        while i < self.options.len() && r < bottom
            invariant
                i <= self.options@.len(),
                r == row + i,
                r <= bottom || i == 0,
                i <= options_shown(*self, row as int, bottom as int),
                on_grid(inner),
                ops_view(ops@) == base + option_ops(*self, inner, row as int, bottom as int, i as int),
            decreases self.options.len() - i,
        {
            let selected = i == self.cursor;
            let mut text = String::from_str("  ");
            text.append(if selected {
                "> "
            } else {
                "  "
            });
            text.append(self.options[i].as_str());
            let style = if selected {
                Tone { fg: Some(Hue::White), bold: true, reversed: true }
            } else {
                Tone::fg(Hue::Gray)
            };
            put(ops, OpKind::Span, inner.x, r, pad(text.as_str(), inner.width as usize), style, inner.width);
            i = i + 1;
            r = r + 1;
            assert(ops_view(ops@) =~= base + option_ops(*self, inner, row as int, bottom as int, i as int));
        }
    }

    /// Restyles the top row of the dialog in bold red.
    fn restyle_top(a: Area, ops: &mut Vec<Op>)
        requires
            on_grid(a),
        ensures
            ops_view(final(ops)@) == ops_view(old(ops)@) + top_style_ops(a),
    {
        let ghost base = ops_view(ops@);
        let mut k: u16 = 0;
        while k < a.width
            invariant
                k <= a.width,
                on_grid(a),
                ops_view(ops@) == base + Seq::new(
                    k as nat,
                    |i: int|
                        cell(
                            OpKind::Restyle,
                            a.x + i,
                            a.y as int,
                            Seq::empty(),
                            Tone { fg: Some(Hue::Red), bold: true, reversed: false },
                        ),
                ),
            decreases a.width - k,
        {
            put(ops, OpKind::Restyle, a.x + k, a.y, String::new(), Tone::bold(Hue::Red), 1);
            k = k + 1;
            assert(ops_view(ops@) =~= base + Seq::new(
                k as nat,
                |i: int|
                    cell(
                        OpKind::Restyle,
                        a.x + i,
                        a.y as int,
                        Seq::empty(),
                        Tone { fg: Some(Hue::Red), bold: true, reversed: false },
                    ),
            ));
        }
    }

    /// Draws what is inside the border of the dialog at `a`.
    fn render_body(&self, a: Area, inner: Area, ops: &mut Vec<Op>)
        requires
            on_grid(a),
            a.height >= 1,
            a.width >= 1,
            a.x + 3 <= u16::MAX,
            a.y + 5 <= u16::MAX,
            inner == inner_of(a),
        ensures
            ops_view(final(ops)@) == ops_view(old(ops)@) + body_ops(*self, a),
    {
        let ghost base = ops_view(ops@);
        let h = a.height;
        let inner_w = inner.width as usize;
        let row = inner.y;
        let name_max = inner_w.saturating_sub(16);
        let name = truncate(self.filename.as_str(), name_max);
        put(ops, OpKind::Span, inner.x + 2, row, name, Tone::bold(Hue::Yellow), name_max as u16);
        put(
            ops,
            OpKind::Span,
            inner.x + 2 + name_max as u16,
            row,
            " already exists".to_string(),
            Tone::plain(),
            inner.width.saturating_sub(name_max as u16 + 2),
        );
        let row = row + 2;
        match &self.rename_input {
            Some(input) => {
                let mut prompt = String::from_str("  Rename to: ");
                prompt.append(input.as_str());
                prompt.append("_");
                put(
                    ops,
                    OpKind::Span,
                    inner.x,
                    row,
                    pad(prompt.as_str(), inner_w),
                    Tone::bold(Hue::White),
                    inner.width,
                );
            },
            None => {
                let toggle = if self.apply_to_all {
                    "[*] Apply to all"
                } else {
                    "[ ] Apply to all"
                };
                let t_style = if self.apply_to_all {
                    Tone::bold(Hue::Cyan)
                } else {
                    Tone::fg(Hue::DarkGray)
                };
                put(ops, OpKind::Span, inner.x + 2, row, toggle.to_string(), t_style, 16);
                let hint_x = inner.x + inner.width.saturating_sub(11);
                put(
                    ops,
                    OpKind::Span,
                    hint_x,
                    row,
                    "(a / space)".to_string(),
                    Tone::fg(Hue::DarkGray),
                    11,
                );
                assert(on_grid(inner));
                self.render_options(inner, row + 2, a.y + h - 1, ops);
            },
        }
        assert(ops_view(ops@) =~= base + body_ops(*self, a));
    }

    /// Draws the dialog over `area` (see `dialog_ops`). The rows it counts
    /// below its name line must be rows a `u16` can name, which a short
    /// area at the bottom edge of the grid leaves no room for.
    pub fn render(&self, area: Area) -> (ops: Vec<Op>)
        requires
            on_grid(area),
            area.width >= 5,
            area.height >= 3,
            area.height >= 8 || area.y + area.height + 5 <= u16::MAX,
            self.options@.len() + 6 <= u16::MAX,
        ensures
            ops_view(ops@) == dialog_ops(*self, area),
    {
        let mut ops: Vec<Op> = Vec::new();
        let body_rows: u16 = if self.rename_input.is_some() {
            1
        } else {
            self.options.len() as u16
        };
        let ah = area.height.saturating_sub(2);
        let h = if 6 + body_rows < ah {
            6 + body_rows
        } else {
            ah
        };
        let aw = area.width.saturating_sub(4);
        let w = if 54 < aw {
            54
        } else {
            aw
        };
        let x = (area.width.saturating_sub(w)) / 2 + area.x;
        let y = (area.height.saturating_sub(h)) / 2 + area.y;
        let dialog = Area { x, y, width: w, height: h };
        assert(dialog == dialog_area(*self, area));
        assert(on_grid(dialog));
        assert(dialog.x + 3 <= u16::MAX);
        assert(dialog.y + 5 <= u16::MAX);
        Self::blank(dialog, &mut ops);
        let inner = render_border(dialog, " Conflict ", Tone::fg(Hue::Red), &mut ops);
        Self::restyle_top(dialog, &mut ops);
        self.render_body(dialog, inner, &mut ops);
        assert(ops_view(ops@) =~= dialog_ops(*self, area));
        ops
    }
}

} // verus!
