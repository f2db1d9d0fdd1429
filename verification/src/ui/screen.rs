//! Basic terminal layer: colors, styles, rectangles and a screen that
//! collects the escape sequences to send to the terminal.
use vstd::prelude::*;

use crate::ui::text::{
    chars_of, cols_of, fit_count, fit_len, lemma_cols_of_concat, lemma_cols_of_spaces,
    lemma_fit_len, lines_of, push_char, push_spaces, spaces, split_lines, string_of,
    string_views, wrap_all, wrap_text, char_cols, col_width, WidthTable,
};

pub mod heapless;

verus! {

/// Colors in ANSI.
#[derive(Clone, Copy, Debug, PartialEq, Eq, Structural)]
pub enum Color {
    Black,
    Red,
    Green,
    Yellow,
    Blue,
    Magenta,
    Cyan,
    White,
    DarkGray,
    Gray,
}

/// SGR code that selects a color as foreground.
pub open spec fn fg_code_of(c: Color) -> Seq<char> {
    match c {
        Color::Black => "30"@,
        Color::Red => "31"@,
        Color::Green => "32"@,
        Color::Yellow => "33"@,
        Color::Blue => "34"@,
        Color::Magenta => "35"@,
        Color::Cyan => "36"@,
        Color::White => "37"@,
        Color::DarkGray => "90"@,
        Color::Gray => "37"@,
    }
}

/// SGR code that selects a color as background.
pub open spec fn bg_code_of(c: Color) -> Seq<char> {
    match c {
        Color::Black => "40"@,
        Color::Red => "41"@,
        Color::Green => "42"@,
        Color::Yellow => "43"@,
        Color::Blue => "44"@,
        Color::Magenta => "45"@,
        Color::Cyan => "46"@,
        Color::White => "47"@,
        Color::DarkGray => "100"@,
        Color::Gray => "47"@,
    }
}

impl Color {
    pub(crate) fn fg_code(self) -> (code: &'static str)
        ensures
            code@ == fg_code_of(self),
    {
        match self {
            Color::Black => "30",
            Color::Red => "31",
            Color::Green => "32",
            Color::Yellow => "33",
            Color::Blue => "34",
            Color::Magenta => "35",
            Color::Cyan => "36",
            Color::White => "37",
            Color::DarkGray => "90",
            Color::Gray => "37",
        }
    }

    pub(crate) fn bg_code(self) -> (code: &'static str)
        ensures
            code@ == bg_code_of(self),
    {
        match self {
            Color::Black => "40",
            Color::Red => "41",
            Color::Green => "42",
            Color::Yellow => "43",
            Color::Blue => "44",
            Color::Magenta => "45",
            Color::Cyan => "46",
            Color::White => "47",
            Color::DarkGray => "100",
            Color::Gray => "47",
        }
    }
}

/// Foreground color, background color, bold, dim and reversed colors.
#[derive(Clone, Copy, Debug)]
pub struct Style {
    pub fg: Option<Color>,
    pub bg: Option<Color>,
    pub bold: bool,
    pub dim: bool,
    pub reverse: bool,
}

/// The style with no attribute set.
pub open spec fn plain_style() -> Style {
    Style { fg: None, bg: None, bold: false, dim: false, reverse: false }
}

impl Style {
    pub fn new() -> (s: Self)
        ensures
            s == plain_style(),
    {
        Style { fg: None, bg: None, bold: false, dim: false, reverse: false }
    }

    pub fn fg(self, color: Color) -> (s: Self)
        ensures
            s == (Style { fg: Some(color), ..self }),
    {
        let mut s = self;
        s.fg = Some(color);
        s
    }

    pub fn bg(self, color: Color) -> (s: Self)
        ensures
            s == (Style { bg: Some(color), ..self }),
    {
        let mut s = self;
        s.bg = Some(color);
        s
    }

    pub fn bold(self) -> (s: Self)
        ensures
            s == (Style { bold: true, ..self }),
    {
        let mut s = self;
        s.bold = true;
        s
    }

    pub fn dim(self) -> (s: Self)
        ensures
            s == (Style { dim: true, ..self }),
    {
        let mut s = self;
        s.dim = true;
        s
    }

    pub fn reverse(self) -> (s: Self)
        ensures
            s == (Style { reverse: true, ..self }),
    {
        let mut s = self;
        s.reverse = true;
        s
    }
}

impl Default for Style {
    fn default() -> (s: Self)
        ensures
            s == plain_style(),
    {
        Style::new()
    }
}

/// Top left point coordinates and size of something.
#[derive(Clone, Copy)]
pub struct Rect {
    pub col: u16,
    pub row: u16,
    pub width: u16,
    pub height: u16,
}

impl Rect {
    pub fn new(col: u16, row: u16, width: u16, height: u16) -> (r: Self)
        ensures
            r == (Rect { col, row, width, height }),
    {
        Rect { col, row, width, height }
    }

    /// Width inside a one-column border.
    pub fn inner_width(self) -> (w: usize)
        ensures
            w == if self.width >= 2 {
                self.width - 2
            } else {
                0
            },
    {
        self.width.saturating_sub(2) as usize
    }

    /// Height inside a one-row border.
    pub fn inner_height(self) -> (h: usize)
        ensures
            h == if self.height >= 2 {
                self.height - 2
            } else {
                0
            },
    {
        self.height.saturating_sub(2) as usize
    }
}

// ---------------------------------------------------------------------------
// Escape sequences
// ---------------------------------------------------------------------------
pub open spec fn digit_char(d: nat) -> char {
    if d == 0 {
        '0'
    } else if d == 1 {
        '1'
    } else if d == 2 {
        '2'
    } else if d == 3 {
        '3'
    } else if d == 4 {
        '4'
    } else if d == 5 {
        '5'
    } else if d == 6 {
        '6'
    } else if d == 7 {
        '7'
    } else if d == 8 {
        '8'
    } else {
        '9'
    }
}

/// Decimal digits of a number.
pub open spec fn dec(n: nat) -> Seq<char>
    decreases n,
{
    if n < 10 {
        seq![digit_char(n)]
    } else {
        dec(n / 10).push(digit_char(n % 10))
    }
}

/// Moves the cursor to a (1-based) column and row.
pub open spec fn goto_seq(col: u16, row: u16) -> Seq<char> {
    "\x1b["@ + dec(row as nat) + ";"@ + dec(col as nat) + "H"@
}

/// Resets all attributes.
pub open spec fn reset_seq() -> Seq<char> {
    "\x1b[0m"@
}

/// Parameters of the SGR sequence of a style, in the order written.
pub open spec fn style_params(style: Style) -> Seq<Seq<char>> {
    let a = if style.bold {
        seq!["1"@]
    } else {
        seq![]
    };
    let b = if style.dim {
        seq!["2"@]
    } else {
        seq![]
    };
    let c = if style.reverse {
        seq!["7"@]
    } else {
        seq![]
    };
    let d = match style.fg {
        Some(color) => seq![fg_code_of(color)],
        None => seq![],
    };
    let e = match style.bg {
        Some(color) => seq![bg_code_of(color)],
        None => seq![],
    };
    a + b + c + d + e
}

/// Parts joined by a separator.
pub open spec fn join_seq(parts: Seq<Seq<char>>, sep: Seq<char>) -> Seq<char>
    decreases parts.len(),
{
    if parts.len() == 0 {
        seq![]
    } else if parts.len() == 1 {
        parts[0]
    } else {
        join_seq(parts.drop_last(), sep) + sep + parts.last()
    }
}

/// The SGR sequence that applies a style; nothing for the plain style.
pub open spec fn style_seq(style: Style) -> Seq<char> {
    if style_params(style).len() == 0 {
        seq![]
    } else {
        "\x1b["@ + join_seq(style_params(style), ";"@) + "m"@
    }
}

/// Enters the alternate buffer and hides the cursor.
pub open spec fn enter_seq() -> Seq<char> {
    "\x1b[?1049h\x1b[?25l"@
}

/// Shows the cursor and leaves the alternate buffer.
pub open spec fn leave_seq() -> Seq<char> {
    "\x1b[?25h\x1b[?1049l"@
}

/// Clears the screen and homes the cursor.
pub open spec fn clear_seq() -> Seq<char> {
    "\x1b[2J\x1b[H"@
}

/// Appends the decimal digits of `n`.
pub(crate) fn push_dec(s: &mut String, n: u16)
    ensures
        final(s)@ == old(s)@ + dec(n as nat),
    decreases n,
{
    if n >= 10 {
        push_dec(s, n / 10);
    }
    let d = n % 10;
    let c = if d == 0 {
        '0'
    } else if d == 1 {
        '1'
    } else if d == 2 {
        '2'
    } else if d == 3 {
        '3'
    } else if d == 4 {
        '4'
    } else if d == 5 {
        '5'
    } else if d == 6 {
        '6'
    } else if d == 7 {
        '7'
    } else if d == 8 {
        '8'
    } else {
        '9'
    };
    push_char(s, c);
    assert(s@ =~= old(s)@ + dec(n as nat));
}

/// Appends the decimal digits of `n`.
pub fn push_dec_usize(s: &mut String, n: usize)
    ensures
        final(s)@ == old(s)@ + dec(n as nat),
    decreases n,
{
    if n >= 10 {
        push_dec_usize(s, n / 10);
    }
    let d = n % 10;
    let c = if d == 0 {
        '0'
    } else if d == 1 {
        '1'
    } else if d == 2 {
        '2'
    } else if d == 3 {
        '3'
    } else if d == 4 {
        '4'
    } else if d == 5 {
        '5'
    } else if d == 6 {
        '6'
    } else if d == 7 {
        '7'
    } else if d == 8 {
        '8'
    } else {
        '9'
    };
    push_char(s, c);
    assert(s@ =~= old(s)@ + dec(n as nat));
}

/// A screen: the escape sequences and text written since the last flush,
/// and the terminal size.
pub struct Screen {
    out: String,
    pub cols: u16,
    pub rows: u16,
}

impl Screen {
    /// Terminal width in columns.
    pub closed spec fn term_cols(&self) -> u16 {
        self.cols
    }

    /// Terminal height in rows.
    pub closed spec fn term_rows(&self) -> u16 {
        self.rows
    }
}

impl View for Screen {
    type V = Seq<char>;

    /// The output not yet handed to the terminal.
    closed spec fn view(&self) -> Seq<char> {
        self.out@
    }
}

impl Screen {
    /// A screen of the given size whose first output enters the alternate
    /// buffer and hides the cursor.
    pub fn with_size(cols: u16, rows: u16) -> (s: Self)
        ensures
            s@ == enter_seq(),
            s.term_cols() == cols,
            s.term_rows() == rows,
    {
        let mut out = String::new();
        out.append("\x1b[?1049h\x1b[?25l");
        assert(out@ =~= enter_seq());
        Screen { out, cols, rows }
    }

    /// The terminal size, columns first.
    pub fn size(&self) -> (sz: (u16, u16))
        ensures
            sz == (self.term_cols(), self.term_rows()),
    {
        (self.cols, self.rows)
    }

    /// Records a new terminal size.
    pub fn resize(&mut self, size: (u16, u16))
        ensures
            final(self)@ == old(self)@,
            final(self).term_cols() == size.0,
            final(self).term_rows() == size.1,
    {
        self.cols = size.0;
        self.rows = size.1;
    }

    /// Hands out the pending output (to be written to the terminal) and
    /// empties it.
    pub fn present(&mut self) -> (flushed: String)
        ensures
            flushed@ == old(self)@,
            final(self)@ == Seq::<char>::empty(),
            final(self).term_cols() == old(self).term_cols(),
            final(self).term_rows() == old(self).term_rows(),
    {
        let mut flushed = String::new();
        std::mem::swap(&mut flushed, &mut self.out);
        flushed
    }

    /// Shows the cursor, leaves the alternate buffer, and hands out all
    /// pending output.
    pub fn shutdown(&mut self) -> (flushed: String)
        ensures
            flushed@ == old(self)@ + leave_seq(),
            final(self)@ == Seq::<char>::empty(),
            final(self).term_cols() == old(self).term_cols(),
            final(self).term_rows() == old(self).term_rows(),
    {
        self.out.append("\x1b[?25h\x1b[?1049l");
        self.present()
    }

    pub fn clear_all(&mut self)
        ensures
            final(self)@ == old(self)@ + clear_seq(),
            final(self).term_cols() == old(self).term_cols(),
            final(self).term_rows() == old(self).term_rows(),
    {
        self.out.append("\x1b[2J\x1b[H");
    }

    /// Moves the cursor.
    pub fn goto(&mut self, col: u16, row: u16)
        ensures
            final(self)@ == old(self)@ + goto_seq(col, row),
            final(self).term_cols() == old(self).term_cols(),
            final(self).term_rows() == old(self).term_rows(),
    {
        self.out.append("\x1b[");
        push_dec(&mut self.out, row);
        self.out.append(";");
        push_dec(&mut self.out, col);
        self.out.append("H");
        assert(self.out@ =~= old(self)@ + goto_seq(col, row));
    }

    pub fn reset_style(&mut self)
        ensures
            final(self)@ == old(self)@ + reset_seq(),
            final(self).term_cols() == old(self).term_cols(),
            final(self).term_rows() == old(self).term_rows(),
    {
        self.out.append("\x1b[0m");
    }

    pub fn apply_style(&mut self, style: Style)
        ensures
            final(self)@ == old(self)@ + style_seq(style),
            final(self).term_cols() == old(self).term_cols(),
            final(self).term_rows() == old(self).term_rows(),
    {
        let mut params: heapless::Vec<&str, 8> = heapless::Vec::new();
        let ghost mut expect: Seq<Seq<char>> = seq![];
        if style.bold {
            let _ = params.push("1");
            proof {
                expect = expect.push("1"@);
            }
        }
        if style.dim {
            let _ = params.push("2");
            proof {
                expect = expect.push("2"@);
            }
        }
        if style.reverse {
            let _ = params.push("7");
            proof {
                expect = expect.push("7"@);
            }
        }
        if let Some(color) = style.fg {
            let _ = params.push(color.fg_code());
            proof {
                expect = expect.push(fg_code_of(color));
            }
        }
        if let Some(color) = style.bg {
            let _ = params.push(color.bg_code());
            proof {
                expect = expect.push(bg_code_of(color));
            }
        }
        assert(params.str_views() =~= style_params(style));
        if !params.is_empty() {
            let joined = params.join(";");
            self.out.append("\x1b[");
            self.out.append(joined.as_str());
            self.out.append("m");
            assert(self.out@ =~= old(self)@ + style_seq(style));
        } else {
            assert(old(self)@ + style_seq(style) =~= old(self)@);
        }
    }

    pub fn write_raw(&mut self, text: &str)
        ensures
            final(self)@ == old(self)@ + text@,
            final(self).term_cols() == old(self).term_cols(),
            final(self).term_rows() == old(self).term_rows(),
    {
        self.out.append(text);
    }

    /// Writes text at a position, cut to `max_width` columns.
    pub fn print(&mut self, col: u16, row: u16, text: &str, max_width: usize)
        ensures
            final(self)@ == old(self)@ + goto_seq(col, row) + cut(text@, max_width),
            final(self).term_cols() == old(self).term_cols(),
            final(self).term_rows() == old(self).term_rows(),
    {
        self.goto(col, row);
        self.write_raw(truncate_to_cols(text, max_width));
    }

    /// Writes styled text at a position, cut to `max_width` columns.
    pub fn print_styled(&mut self, col: u16, row: u16, text: &str, style: Style, max_width: usize)
        ensures
            final(self)@ == old(self)@ + styled_text(col, row, text@, style, max_width),
            final(self).term_cols() == old(self).term_cols(),
            final(self).term_rows() == old(self).term_rows(),
    {
        self.goto(col, row);
        self.reset_style();
        self.apply_style(style);
        self.write_raw(truncate_to_cols(text, max_width));
        self.reset_style();
        assert(self.out@ =~= old(self)@ + styled_text(col, row, text@, style, max_width));
    }
}

/// The part of a text that fits into `max` columns.
pub open spec fn cut(s: Seq<char>, max: usize) -> Seq<char> {
    s.take(fit_len(WidthTable::Screen, s, max as int) as int)
}

/// A text cut to `width` columns and filled with spaces to `width` columns.
pub open spec fn padded(s: Seq<char>, width: usize) -> Seq<char> {
    cut(s, width) + spaces((width - cols_of(WidthTable::Screen, cut(s, width))) as nat)
}

/// What `print_styled` writes.
pub open spec fn styled_text(col: u16, row: u16, s: Seq<char>, style: Style, max: usize) -> Seq<
    char,
> {
    goto_seq(col, row) + reset_seq() + style_seq(style) + cut(s, max) + reset_seq()
}

/// The longest prefix of `text` that fits into `max_cols` columns.
pub fn truncate_to_cols(text: &str, max_cols: usize) -> (r: &str)
    ensures
        r@ == cut(text@, max_cols),
        cols_of(WidthTable::Screen, r@) <= max_cols,
        r@.len() < text@.len() ==> cols_of(WidthTable::Screen, r@) + col_width(
            WidthTable::Screen,
            text@[r@.len() as int],
        ) > max_cols,
{
    proof {
        lemma_fit_len(WidthTable::Screen, text@, max_cols as int);
    }
    if max_cols == 0 {
        assert(text@.take(0) =~= Seq::<char>::empty());
        proof {
            reveal_strlit("");
        }
        return "";
    }
    let chars = chars_of(text);
    let (n, _) = fit_count(WidthTable::Screen, &chars, 0, max_cols);
    assert(chars@.skip(0) =~= chars@);
    text.substring_char(0, n)
}

/// `text` cut to `width` columns and filled with spaces to exactly `width`
/// columns.
pub fn pad_to_cols(text: &str, width: usize) -> (out: String)
    ensures
        out@ == padded(text@, width),
        cols_of(WidthTable::Screen, out@) == width,
{
    let chars = chars_of(text);
    let (n, filled) = fit_count(WidthTable::Screen, &chars, 0, width);
    assert(chars@.skip(0) =~= chars@);
    assert(chars@.subrange(0, n as int) =~= cut(text@, width));
    let mut out = string_of(&chars, 0, n);
    push_spaces(&mut out, width - filled);
    proof {
        lemma_cols_of_concat(WidthTable::Screen, cut(text@, width), spaces((width - filled) as nat));
        lemma_cols_of_spaces(WidthTable::Screen, (width - filled) as nat);
    }
    out
}

/// The rows of a text cut to `max_width` columns: each line is cut into
/// the longest pieces that fit; an empty line gives one empty row.
pub fn wrap_lines(text: &str, max_width: usize) -> (out: Vec<String>)
    ensures
        string_views(out@) == if max_width == 0 {
            Seq::<Seq<char>>::empty()
        } else {
            wrap_text(WidthTable::Screen, lines_of(text@), max_width as int)
        },
{
    if max_width == 0 {
        let out: Vec<String> = Vec::new();
        assert(string_views(out@) =~= Seq::<Seq<char>>::empty());
        return out;
    }
    let chars = chars_of(text);
    let lines = split_lines(&chars);
    wrap_all(WidthTable::Screen, &lines, max_width)
}

/// Columns a character takes on the terminal.
pub fn char_width(ch: char) -> (w: usize)
    ensures
        w == col_width(WidthTable::Screen, ch),
{
    char_cols(WidthTable::Screen, ch)
}

} // verus!
