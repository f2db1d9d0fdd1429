//! The preview widget: the description of the entry under the cursor,
//! wrapped to the width of a bordered box.
use vstd::prelude::*;

use crate::ui::text::{
    chars_of, lines_of, split_lines, string_views, wrap_all, wrap_text, WidthTable,
};
use crate::ui::widget::canvas::{on_grid, ops_view, put, span, Area, Hue, Op, OpKind, OpView, Tone};
use crate::ui::widget::file_list::{border_ops, inner_of, list_padded, pad, render_border};

verus! {

/// The preview widget.
pub struct Preview {
    pub title: String,
    pub content: String,
}

/// The rows of a text cut to `max_w` columns of the list: each line cut
/// into the longest pieces that fit, an empty line giving one empty row.
pub fn wrap(text: &str, max_w: usize) -> (out: Vec<String>)
    ensures
        string_views(out@) == if max_w == 0 {
            Seq::<Seq<char>>::empty()
        } else {
            wrap_text(WidthTable::List, lines_of(text@), max_w as int)
        },
{
    if max_w == 0 {
        let out: Vec<String> = Vec::new();
        assert(string_views(out@) =~= Seq::<Seq<char>>::empty());
        return out;
    }
    let chars = chars_of(text);
    let lines = split_lines(&chars);
    wrap_all(WidthTable::List, &lines, max_w)
}

/// Whether `l` begins with `p`.
pub open spec fn begins(l: Seq<char>, p: Seq<char>) -> bool {
    p.len() <= l.len() && l.take(p.len() as int) == p
}

/// Whether a line is a line of a directory listing.
pub open spec fn listing_line(l: Seq<char>) -> bool {
    begins(l, seq!['>', ' ']) || begins(l, seq![' ', ' '])
}

/// Whether the content is a directory listing: not empty, and every line
/// of it is one.
pub open spec fn is_listing(content: Seq<char>) -> bool {
    content.len() > 0 && forall|j: int|
        0 <= j < lines_of(content).len() ==> #[trigger] listing_line(lines_of(content)[j])
}

/// The rows of the preview inside `inner`: as many as fit, the lines of a
/// directory in blue bold and the others in gray.
pub open spec fn preview_rows(rows: Seq<Seq<char>>, inner: Area, k: int) -> Seq<OpView>
    decreases k,
{
    if k <= 0 {
        Seq::empty()
    } else {
        preview_rows(rows, inner, k - 1) + seq![
            span(
                inner.x as int,
                inner.y + k - 1,
                list_padded(rows[k - 1], inner.width as usize),
                if begins(rows[k - 1], seq!['>', ' ']) {
                    Tone { fg: Some(Hue::Blue), bold: true, reversed: false }
                } else {
                    Tone { fg: Some(Hue::Gray), bold: false, reversed: false }
                },
                inner.width as int,
            ),
        ]
    }
}

/// What the preview draws in `area`: nothing when it is under 3 columns or
/// 3 rows; else its border (blue for a directory listing, dark gray
/// otherwise) with the title, and the wrapped content.
pub open spec fn preview_ops(p: Preview, area: Area) -> Seq<OpView> {
    if area.width < 3 || area.height < 3 {
        Seq::empty()
    } else {
        let inner = inner_of(area);
        let rows = if inner.width == 0 {
            Seq::<Seq<char>>::empty()
        } else {
            wrap_text(WidthTable::List, lines_of(p.content@), inner.width as int)
        };
        let n = if rows.len() < inner.height {
            rows.len() as int
        } else {
            inner.height as int
        };
        border_ops(
            area,
            p.title@,
            Tone {
                fg: Some(
                    if is_listing(p.content@) {
                        Hue::Blue
                    } else {
                        Hue::DarkGray
                    },
                ),
                bold: false,
                reversed: false,
            },
        ) + preview_rows(rows, inner, n)
    }
}

/// Whether the characters begin with `a` then `b`.
fn begins_with2(l: &Vec<char>, a: char, b: char) -> (r: bool)
    ensures
        r == begins(l@, seq![a, b]),
{
    let r = l.len() >= 2 && l[0] == a && l[1] == b;
    proof {
        if l@.len() >= 2 {
            assert(r == (l@.take(2) =~= seq![a, b]));
        }
    }
    r
}

impl Preview {
    /// Whether the content is a directory listing (see `is_listing`).
    fn is_dir(&self) -> (r: bool)
        ensures
            r == is_listing(self.content@),
    {
        let chars = chars_of(self.content.as_str());
        if chars.len() == 0 {
            return false;
        }
        let lines = split_lines(&chars);
        let ghost ls = lines@.map_values(|v: Vec<char>| v@);
        let mut j: usize = 0;
        while j < lines.len()
            invariant
                j <= lines@.len(),
                ls == lines@.map_values(|v: Vec<char>| v@),
                ls == lines_of(self.content@),
                forall|k: int| 0 <= k < j ==> #[trigger] listing_line(ls[k]),
            decreases lines.len() - j,
        {
            if !(begins_with2(&lines[j], '>', ' ') || begins_with2(&lines[j], ' ', ' ')) {
                assert(!listing_line(ls[j as int]));
                return false;
            }
            j = j + 1;
        }
        true
    }

    /// Draws the preview in `area` (see `preview_ops`).
    pub fn render(&self, area: Area) -> (ops: Vec<Op>)
        requires
            on_grid(area),
        ensures
            ops_view(ops@) == preview_ops(*self, area),
    {
        let mut ops: Vec<Op> = Vec::new();
        if area.width < 3 || area.height < 3 {
            assert(ops_view(ops@) =~= Seq::<OpView>::empty());
            return ops;
        }
        let border = if self.is_dir() {
            Hue::Blue
        } else {
            Hue::DarkGray
        };
        let inner = render_border(area, self.title.as_str(), Tone::fg(border), &mut ops);
        let w = inner.width as usize;
        let rows = wrap(self.content.as_str(), w);
        let ghost rv = string_views(rows@);
        let ghost top = ops_view(ops@);
        let n = if rows.len() < inner.height as usize {
            rows.len()
        } else {
            inner.height as usize
        };
        let mut i: usize = 0;
        assert(top =~= top + preview_rows(rv, inner, 0));
        while i < n
            invariant
                i <= n,
                n <= rows@.len(),
                n <= inner.height,
                inner == inner_of(area),
                on_grid(area),
                w == inner.width,
                rv == string_views(rows@),
                ops_view(ops@) == top + preview_rows(rv, inner, i as int),
            decreases n - i,
        {
            let line = chars_of(rows[i].as_str());
            let style = if begins_with2(&line, '>', ' ') {
                Tone::bold(Hue::Blue)
            } else {
                Tone::fg(Hue::Gray)
            };
            put(&mut ops, OpKind::Span, inner.x, inner.y + i as u16, pad(rows[i].as_str(), w), style, inner.width);
            i = i + 1;
            assert(ops_view(ops@) =~= top + preview_rows(rv, inner, i as int));
        }
        assert(ops_view(ops@) =~= preview_ops(*self, area));
        ops
    }
}

} // verus!
