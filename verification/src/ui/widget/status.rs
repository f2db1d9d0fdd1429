//! The status bar: the status on the left, the information line on the
//! right, inside a border.
use vstd::prelude::*;

use crate::ui::text::{chars_of, push_spaces, spaces, string_of};
use crate::ui::widget::canvas::{on_grid, ops_view, put, span, Area, Hue, Op, OpKind, OpView, Tone};
use crate::ui::widget::file_list::{border_ops, inner_of, render_border};

verus! {

/// The status bar.
pub struct StatusBar {
    pub status: String,
    pub info: String,
}

/// The number of bytes of a character in UTF-8.
pub open spec fn utf8_width(c: char) -> nat {
    if (c as u32) < 0x80 {
        1
    } else if (c as u32) < 0x800 {
        2
    } else if (c as u32) < 0x10000 {
        3
    } else {
        4
    }
}

/// The number of bytes of a text in UTF-8.
pub open spec fn utf8_len(s: Seq<char>) -> nat
    decreases s.len(),
{
    if s.len() == 0 {
        0
    } else {
        utf8_len(s.drop_last()) + utf8_width(s.last())
    }
}

/// The first `w` characters, filled with spaces until the text takes `w`
/// bytes.
pub open spec fn status_padded(s: Seq<char>, w: usize) -> Seq<char> {
    let t = if s.len() < w {
        s
    } else {
        s.take(w as int)
    };
    t + spaces(if utf8_len(t) < w {
        (w - utf8_len(t)) as nat
    } else {
        0
    })
}

/// The bytes of `s` in UTF-8, counted.
fn byte_len(s: &Vec<char>, n: usize) -> (r: usize)
    requires
        n <= s@.len(),
        s@.len() <= usize::MAX / 4,
    ensures
        r == utf8_len(s@.take(n as int)),
{
    let mut r: usize = 0;
    let mut i: usize = 0;
    assert(s@.take(0) =~= Seq::<char>::empty());
    while i < n
        invariant
            i <= n <= s@.len(),
            s@.len() <= usize::MAX / 4,
            r == utf8_len(s@.take(i as int)),
            r <= 4 * i,
        decreases n - i,
    {
        let c = s[i] as u32;
        let b: usize = if c < 0x80 {
            1
        } else if c < 0x800 {
            2
        } else if c < 0x10000 {
            3
        } else {
            4
        };
        assert(s@.take(i + 1).drop_last() =~= s@.take(i as int));
        r = r + b;
        i = i + 1;
    }
    r
}

/// The first `w` characters of `s`, filled with spaces until they take `w`
/// bytes.
pub fn pad(s: &str, w: usize) -> (out: String)
    requires
        s@.len() <= usize::MAX / 4,
    ensures
        out@ == status_padded(s@, w),
{
    let chars = chars_of(s);
    let n = if chars.len() < w {
        chars.len()
    } else {
        w
    };
    let len = byte_len(&chars, n);
    assert(chars@.subrange(0, n as int) =~= (if s@.len() < w {
        s@
    } else {
        s@.take(w as int)
    }));
    let mut out = string_of(&chars, 0, n);
    if len < w {
        push_spaces(&mut out, w - len);
    } else {
        assert(out@ =~= out@ + spaces(0));
    }
    out
}

/// What the status bar draws in `area`: nothing when it is under 3 columns
/// or 3 rows; else its border, the status padded to the inner width in
/// green, and the information line in dark gray against the right border.
pub open spec fn status_ops(b: StatusBar, area: Area) -> Seq<OpView> {
    if area.width < 3 || area.height < 3 {
        Seq::empty()
    } else {
        let inner = inner_of(area);
        let w = inner.width as int;
        let info_w = if utf8_len(b.info@) < w {
            utf8_len(b.info@) as int
        } else {
            w
        };
        border_ops(area, Seq::empty(), Tone { fg: Some(Hue::Reset), bold: false, reversed: false })
            + seq![
            span(
                inner.x as int,
                inner.y as int,
                status_padded(b.status@, w as usize),
                Tone { fg: Some(Hue::Green), bold: false, reversed: false },
                w,
            ),
            span(
                inner.x + (w - info_w),
                inner.y as int,
                b.info@,
                Tone { fg: Some(Hue::DarkGray), bold: false, reversed: false },
                info_w,
            ),
        ]
    }
}

impl StatusBar {
    /// Draws the status bar in `area` (see `status_ops`).
    pub fn render(&self, area: Area) -> (ops: Vec<Op>)
        requires
            on_grid(area),
            self.status@.len() <= usize::MAX / 4,
            self.info@.len() <= usize::MAX / 4,
        ensures
            ops_view(ops@) == status_ops(*self, area),
    {
        let mut ops: Vec<Op> = Vec::new();
        if area.width < 3 || area.height < 3 {
            assert(ops_view(ops@) =~= Seq::<OpView>::empty());
            return ops;
        }
        proof {
            reveal_strlit("");
        }
        let inner = render_border(area, "", Tone::fg(Hue::Reset), &mut ops);
        let w = inner.width as usize;
        let padded = pad(self.status.as_str(), w);
        put(&mut ops, OpKind::Span, inner.x, inner.y, padded, Tone::fg(Hue::Green), inner.width);
        let info = chars_of(self.info.as_str());
        let ilen = byte_len(&info, info.len());
        assert(info@.take(info@.len() as int) =~= info@);
        let info_w = if ilen < w {
            ilen
        } else {
            w
        };
        let right_x = inner.x + (w - info_w) as u16;
        put(
            &mut ops,
            OpKind::Span,
            right_x,
            inner.y,
            self.info.clone(),
            Tone::fg(Hue::DarkGray),
            info_w as u16,
        );
        assert(ops_view(ops@) =~= status_ops(*self, area));
        ops
    }
}

} // verus!
