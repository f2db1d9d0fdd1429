//! Column arithmetic on text: how many terminal columns a character takes,
//! how much of a string fits into a width, and how text splits into lines.
use vstd::prelude::*;

verus! {

/// The two tables of double-width character ranges used by the widgets.
/// `Screen` is the table of the terminal layer, `List` the table of the
/// file list widget.
#[derive(Clone, Copy, PartialEq, Eq, Structural, Debug)]
pub enum WidthTable {
    Screen,
    List,
}

pub open spec fn in_range(c: char, lo: u32, hi: u32) -> bool {
    lo <= (c as u32) && (c as u32) <= hi
}

/// Ranges shared by both tables.
pub open spec fn wide_common(c: char) -> bool {
    ||| in_range(c, 0x1100, 0x115F)
    ||| in_range(c, 0x2E80, 0x303E)
    ||| in_range(c, 0x3041, 0x33FF)
    ||| in_range(c, 0x4E00, 0x9FFF)
    ||| in_range(c, 0xAC00, 0xD7AF)
    ||| in_range(c, 0xF900, 0xFAFF)
    ||| in_range(c, 0xFF01, 0xFF60)
}

pub open spec fn is_wide(t: WidthTable, c: char) -> bool {
    match t {
        WidthTable::Screen => {
            ||| wide_common(c)
            ||| in_range(c, 0x3400, 0x4DBF)
            ||| in_range(c, 0xA000, 0xA4CF)
            ||| in_range(c, 0xFE10, 0xFE19)
            ||| in_range(c, 0xFE30, 0xFE6F)
            ||| in_range(c, 0xFFE0, 0xFFE6)
            ||| in_range(c, 0x1B000, 0x1B0FF)
            ||| in_range(c, 0x1F004, 0x1F9FF)
        },
        WidthTable::List => wide_common(c) || in_range(c, 0x1F004, 0x1F9FF),
    }
}

/// Number of terminal columns a character occupies under a table.
pub open spec fn col_width(t: WidthTable, c: char) -> nat {
    if is_wide(t, c) {
        2
    } else {
        1
    }
}

/// Number of terminal columns a sequence of characters occupies.
pub open spec fn cols_of(t: WidthTable, s: Seq<char>) -> nat
    decreases s.len(),
{
    if s.len() == 0 {
        0
    } else {
        col_width(t, s[0]) + cols_of(t, s.drop_first())
    }
}

/// Length of the longest prefix of `s` whose width is at most `max`
/// (characters are taken in order until one no longer fits).
pub open spec fn fit_len(t: WidthTable, s: Seq<char>, max: int) -> nat
    decreases s.len(),
{
    if s.len() == 0 {
        0
    } else if col_width(t, s[0]) > max {
        0
    } else {
        1 + fit_len(t, s.drop_first(), max - col_width(t, s[0]))
    }
}

/// `s` followed by `n` spaces.
pub open spec fn spaces(n: nat) -> Seq<char> {
    Seq::new(n, |i: int| ' ')
}

/// Index of the first `'\n'` in `s`, or `s.len()` when there is none.
pub open spec fn first_newline(s: Seq<char>) -> nat
    decreases s.len(),
{
    if s.len() == 0 {
        0
    } else if s[0] == '\n' {
        0
    } else {
        1 + first_newline(s.drop_first())
    }
}

/// A line without the carriage return that preceded its line feed.
pub open spec fn strip_cr(l: Seq<char>) -> Seq<char> {
    if l.len() > 0 && l.last() == '\r' {
        l.drop_last()
    } else {
        l
    }
}

/// The lines of a text as `str::lines` yields them: split at `'\n'`, a
/// `'\r'` before the `'\n'` removed, no empty line after a final `'\n'`.
pub open spec fn lines_of(s: Seq<char>) -> Seq<Seq<char>>
    decreases s.len(),
{
    if s.len() == 0 {
        seq![]
    } else {
        let i = first_newline(s);
        if i < s.len() {
            seq![strip_cr(s.take(i as int))] + lines_of(s.skip(i + 1 as int))
        } else {
            seq![strip_cr(s)]
        }
    }
}

/// The pieces one line is cut into: repeatedly the longest prefix that
/// fits, a character that fits on no row being dropped.
pub open spec fn wrap_line(t: WidthTable, l: Seq<char>, max: int) -> Seq<Seq<char>>
    decreases l.len(),
{
    if l.len() == 0 {
        seq![]
    } else {
        let k = fit_len(t, l, max);
        proof {
            lemma_fit_len_le(t, l, max);
        }
        if k == 0 {
            wrap_line(t, l.drop_first(), max)
        } else {
            seq![l.take(k as int)] + wrap_line(t, l.skip(k as int), max)
        }
    }
}

/// The rows of one line: a single empty row for an empty line.
pub open spec fn wrap_piece(t: WidthTable, l: Seq<char>, max: int) -> Seq<Seq<char>> {
    if l.len() == 0 {
        seq![Seq::<char>::empty()]
    } else {
        wrap_line(t, l, max)
    }
}

/// The rows of all lines, in order.
pub open spec fn wrap_text(t: WidthTable, lines: Seq<Seq<char>>, max: int) -> Seq<Seq<char>>
    decreases lines.len(),
{
    if lines.len() == 0 {
        seq![]
    } else {
        wrap_text(t, lines.drop_last(), max) + wrap_piece(t, lines.last(), max)
    }
}

/// Views of a vector of strings.
pub open spec fn string_views(v: Seq<String>) -> Seq<Seq<char>> {
    v.map_values(|s: String| s@)
}

pub proof fn lemma_cols_of_push(t: WidthTable, s: Seq<char>, c: char)
    ensures
        cols_of(t, s.push(c)) == cols_of(t, s) + col_width(t, c),
    decreases s.len(),
{
    if s.len() > 0 {
        assert(s.push(c).drop_first() =~= s.drop_first().push(c));
        lemma_cols_of_push(t, s.drop_first(), c);
    } else {
        assert(s.push(c).drop_first() =~= s);
    }
}

pub proof fn lemma_cols_of_concat(t: WidthTable, a: Seq<char>, b: Seq<char>)
    ensures
        cols_of(t, a + b) == cols_of(t, a) + cols_of(t, b),
    decreases b.len(),
{
    if b.len() == 0 {
        assert(a + b =~= a);
    } else {
        assert(a + b =~= (a + b.drop_last()).push(b.last()));
        assert(b =~= b.drop_last().push(b.last()));
        lemma_cols_of_concat(t, a, b.drop_last());
        lemma_cols_of_push(t, a + b.drop_last(), b.last());
        lemma_cols_of_push(t, b.drop_last(), b.last());
    }
}

pub proof fn lemma_fit_len_le(t: WidthTable, s: Seq<char>, max: int)
    ensures
        fit_len(t, s, max) <= s.len(),
    decreases s.len(),
{
    if s.len() > 0 {
        lemma_fit_len_le(t, s.drop_first(), max - col_width(t, s[0]));
    }
}

pub proof fn lemma_cols_of_bound(t: WidthTable, s: Seq<char>)
    ensures
        s.len() <= cols_of(t, s) <= 2 * s.len(),
    decreases s.len(),
{
    if s.len() > 0 {
        lemma_cols_of_bound(t, s.drop_first());
    }
}

pub proof fn lemma_cols_of_spaces(t: WidthTable, n: nat)
    ensures
        cols_of(t, spaces(n)) == n,
    decreases n,
{
    if n > 0 {
        assert(spaces(n).drop_first() =~= spaces((n - 1) as nat));
        lemma_cols_of_spaces(t, (n - 1) as nat);
    }
}

/// What `fit_len` promises: a prefix that fits, and that cannot be extended.
pub proof fn lemma_fit_len(t: WidthTable, s: Seq<char>, max: int)
    requires
        max >= 0,
    ensures
        fit_len(t, s, max) <= s.len(),
        cols_of(t, s.take(fit_len(t, s, max) as int)) <= max,
        fit_len(t, s, max) < s.len() ==> cols_of(t, s.take(fit_len(t, s, max) as int))
            + col_width(t, s[fit_len(t, s, max) as int]) > max,
    decreases s.len(),
{
    if s.len() > 0 && col_width(t, s[0]) <= max {
        let rest = s.drop_first();
        let m = max - col_width(t, s[0]);
        lemma_fit_len(t, rest, m);
        let k = fit_len(t, rest, m);
        assert(s.take(k + 1 as int).drop_first() =~= rest.take(k as int));
    } else if s.len() > 0 {
        assert(s.take(0) =~= Seq::<char>::empty());
    } else {
        assert(s.take(0) =~= Seq::<char>::empty());
    }
}

pub proof fn lemma_first_newline(s: Seq<char>)
    ensures
        first_newline(s) <= s.len(),
        forall|j: int| 0 <= j < first_newline(s) ==> s[j] != '\n',
        first_newline(s) < s.len() ==> s[first_newline(s) as int] == '\n',
    decreases s.len(),
{
    if s.len() > 0 && s[0] != '\n' {
        lemma_first_newline(s.drop_first());
        assert forall|j: int| 0 <= j < first_newline(s) implies s[j] != '\n' by {
            if j > 0 {
                assert(s[j] == s.drop_first()[j - 1]);
            }
        }
    }
}

/// Columns a character takes under a table.
pub fn char_cols(t: WidthTable, ch: char) -> (w: usize)
    ensures
        w == col_width(t, ch),
{
    let c = ch as u32;
    let common = (0x1100 <= c && c <= 0x115F) || (0x2E80 <= c && c <= 0x303E) || (0x3041 <= c
        && c <= 0x33FF) || (0x4E00 <= c && c <= 0x9FFF) || (0xAC00 <= c && c <= 0xD7AF) || (0xF900
        <= c && c <= 0xFAFF) || (0xFF01 <= c && c <= 0xFF60);
    let wide = match t {
        WidthTable::Screen => common || (0x3400 <= c && c <= 0x4DBF) || (0xA000 <= c && c <= 0xA4CF)
            || (0xFE10 <= c && c <= 0xFE19) || (0xFE30 <= c && c <= 0xFE6F) || (0xFFE0 <= c && c
            <= 0xFFE6) || (0x1B000 <= c && c <= 0x1B0FF) || (0x1F004 <= c && c <= 0x1F9FF),
        WidthTable::List => common || (0x1F004 <= c && c <= 0x1F9FF),
    };
    if wide {
        2
    } else {
        1
    }
}

/// The characters of a string slice, in order.
pub fn chars_of(text: &str) -> (out: Vec<char>)
    ensures
        out@ == text@,
{
    let mut out: Vec<char> = Vec::new();
    for ch in it: text.chars()
        invariant
            it.seq() == text@,
            out@ == text@.take(it.index() as int),
    {
        out.push(ch);
    }
    out
}

/// Appends one character to a `String` (`String::push`).
#[verifier::external_body]
pub(crate) fn push_char(s: &mut String, c: char)
    ensures
        final(s)@ == old(s)@.push(c),
{
    s.push(c);
}

/// Appends `n` spaces.
pub(crate) fn push_spaces(s: &mut String, n: usize)
    ensures
        final(s)@ == old(s)@ + spaces(n as nat),
{
    let mut i: usize = 0;
    while i < n
        invariant
            i <= n,
            s@ == old(s)@ + spaces(i as nat),
        decreases n - i,
    {
        push_char(s, ' ');
        i = i + 1;
        assert(s@ =~= old(s)@ + spaces(i as nat));
    }
}

/// A string holding `chars[lo..hi]`.
pub(crate) fn string_of(chars: &Vec<char>, lo: usize, hi: usize) -> (s: String)
    requires
        lo <= hi <= chars.len(),
    ensures
        s@ == chars@.subrange(lo as int, hi as int),
{
    let mut s = String::new();
    let mut i = lo;
    while i < hi
        invariant
            lo <= i <= hi <= chars.len(),
            s@ == chars@.subrange(lo as int, i as int),
        decreases hi - i,
    {
        push_char(&mut s, chars[i]);
        i = i + 1;
        assert(s@ =~= chars@.subrange(lo as int, i as int));
    }
    s
}

/// How many characters of `chars[start..]` fit into `max` columns, and how
/// many columns they take.
pub(crate) fn fit_count(t: WidthTable, chars: &Vec<char>, start: usize, max: usize) -> (r: (
    usize,
    usize,
))
    requires
        start <= chars.len(),
    ensures
        r.0 == fit_len(t, chars@.skip(start as int), max as int),
        start + r.0 <= chars.len(),
        r.1 == cols_of(t, chars@.subrange(start as int, start + r.0)),
        r.1 <= max,
{
    let ghost s = chars@;
    let mut i = start;
    let mut cols: usize = 0;
    proof {
        lemma_fit_len(t, s.skip(start as int), max as int);
        assert(s.subrange(start as int, start as int) =~= Seq::<char>::empty());
    }
    while i < chars.len()
        invariant
            start <= i <= chars.len(),
            s == chars@,
            cols <= max,
            cols == cols_of(t, s.subrange(start as int, i as int)),
            fit_len(t, s.skip(start as int), max as int) == (i - start) + fit_len(
                t,
                s.skip(i as int),
                max - cols,
            ),
        decreases chars.len() - i,
    {
        let w = char_cols(t, chars[i]);
        assert(s.skip(i as int)[0] == s[i as int]);
        if w > max - cols {
            return (i - start, cols);
        }
        proof {
            assert(s.skip(i as int).drop_first() =~= s.skip(i + 1));
            assert(s.subrange(start as int, i + 1) =~= s.subrange(start as int, i as int).push(
                s[i as int],
            ));
            lemma_cols_of_push(t, s.subrange(start as int, i as int), s[i as int]);
        }
        cols = cols + w;
        i = i + 1;
    }
    assert(s.skip(i as int).len() == 0);
    (i - start, cols)
}

/// Columns taken by `chars[lo..hi]`.
pub(crate) fn cols_count(t: WidthTable, chars: &Vec<char>, lo: usize, hi: usize) -> (c: usize)
    requires
        lo <= hi <= chars.len(),
        hi - lo <= usize::MAX / 2,
    ensures
        c == cols_of(t, chars@.subrange(lo as int, hi as int)),
{
    let mut i = lo;
    let mut c: usize = 0;
    assert(chars@.subrange(lo as int, lo as int) =~= Seq::<char>::empty());
    while i < hi
        invariant
            lo <= i <= hi <= chars.len(),
            hi - lo <= usize::MAX / 2,
            c == cols_of(t, chars@.subrange(lo as int, i as int)),
        decreases hi - i,
    {
        proof {
            assert(chars@.subrange(lo as int, i + 1) =~= chars@.subrange(lo as int, i as int).push(
                chars@[i as int],
            ));
            lemma_cols_of_push(t, chars@.subrange(lo as int, i as int), chars@[i as int]);
            lemma_cols_of_bound(t, chars@.subrange(lo as int, i as int));
        }
        c = c + char_cols(t, chars[i]);
        i = i + 1;
    }
    c
}

/// Appends to `out` the rows one line is cut into.
pub(crate) fn wrap_into(t: WidthTable, line: &Vec<char>, max: usize, out: &mut Vec<String>)
    ensures
        string_views(final(out)@) == string_views(old(out)@) + wrap_piece(t, line@, max as int),
{
    if line.len() == 0 {
        let ghost before = string_views(out@);
        out.push(String::new());
        assert(string_views(out@) =~= before + wrap_piece(t, line@, max as int));
        return ;
    }
    let ghost l = line@;
    let mut pos: usize = 0;
    assert(l.skip(0) =~= l);
    assert(string_views(out@) + wrap_line(t, l, max as int) =~= string_views(old(out)@)
        + wrap_line(t, l.skip(0), max as int));
    while pos < line.len()
        invariant
            pos <= line.len(),
            l == line@,
            l.len() > 0,
            string_views(old(out)@) + wrap_line(t, l, max as int) == string_views(out@)
                + wrap_line(t, l.skip(pos as int), max as int),
        decreases line.len() - pos,
    {
        let (k, _) = fit_count(t, line, pos, max);
        let ghost rest = l.skip(pos as int);
        if k == 0 {
            assert(rest.drop_first() =~= l.skip(pos + 1));
            pos = pos + 1;
        } else {
            let piece = string_of(line, pos, pos + k);
            let ghost before = string_views(out@);
            out.push(piece);
            proof {
                assert(rest.take(k as int) =~= l.subrange(pos as int, pos + k));
                assert(string_views(out@) =~= before.push(rest.take(k as int)));
                assert(rest.skip(k as int) =~= l.skip(pos + k));
                assert(seq![rest.take(k as int)] + wrap_line(t, rest.skip(k as int), max as int)
                    == wrap_line(t, rest, max as int));
                assert(before + wrap_line(t, rest, max as int) =~= before.push(rest.take(k as int))
                    + wrap_line(t, rest.skip(k as int), max as int));
            }
            pos = pos + k;
        }
    }
    assert(l.skip(pos as int) =~= Seq::<char>::empty());
    assert(string_views(out@) + wrap_line(t, l.skip(pos as int), max as int) =~= string_views(
        out@,
    ));
}

/// All rows of a text of lines, cut to `max` columns.
pub(crate) fn wrap_all(t: WidthTable, lines: &Vec<Vec<char>>, max: usize) -> (out: Vec<String>)
    ensures
        string_views(out@) == wrap_text(t, lines@.map_values(|v: Vec<char>| v@), max as int),
{
    let ghost ls = lines@.map_values(|v: Vec<char>| v@);
    let mut out: Vec<String> = Vec::new();
    let mut i: usize = 0;
    assert(ls.take(0) =~= Seq::<Seq<char>>::empty());
    assert(string_views(out@) =~= Seq::<Seq<char>>::empty());
    while i < lines.len()
        invariant
            i <= lines.len(),
            ls == lines@.map_values(|v: Vec<char>| v@),
            string_views(out@) == wrap_text(t, ls.take(i as int), max as int),
        decreases lines.len() - i,
    {
        wrap_into(t, &lines[i], max, &mut out);
        assert(ls.take(i + 1).drop_last() =~= ls.take(i as int));
        assert(ls.take(i + 1).last() == lines@[i as int]@);
        i = i + 1;
    }
    assert(ls.take(i as int) =~= ls);
    out
}

/// Index of the first `'\n'` at or after `start`, or `chars.len()`.
pub(crate) fn next_newline(chars: &Vec<char>, start: usize) -> (j: usize)
    requires
        start <= chars.len(),
    ensures
        j == start + first_newline(chars@.skip(start as int)),
        j <= chars.len(),
{
    let ghost s = chars@;
    let mut j = start;
    while j < chars.len() && chars[j] != '\n'
        invariant
            start <= j <= chars.len(),
            s == chars@,
            first_newline(s.skip(start as int)) == (j - start) + first_newline(s.skip(j as int)),
        decreases chars.len() - j,
    {
        assert(s.skip(j as int)[0] == s[j as int]);
        assert(s.skip(j as int).drop_first() =~= s.skip(j + 1));
        j = j + 1;
    }
    if j < chars.len() {
        assert(s.skip(j as int)[0] == s[j as int]);
    }
    j
}

/// The lines of a text, as character vectors.
pub(crate) fn split_lines(chars: &Vec<char>) -> (out: Vec<Vec<char>>)
    ensures
        out@.map_values(|v: Vec<char>| v@) == lines_of(chars@),
{
    let ghost s = chars@;
    let mut out: Vec<Vec<char>> = Vec::new();
    let mut pos: usize = 0;
    assert(s.skip(0) =~= s);
    assert(out@.map_values(|v: Vec<char>| v@) + lines_of(s) =~= lines_of(s));
    while pos < chars.len()
        invariant
            pos <= chars.len(),
            s == chars@,
            lines_of(s) == out@.map_values(|v: Vec<char>| v@) + lines_of(s.skip(pos as int)),
        decreases chars.len() - pos,
    {
        let j = next_newline(chars, pos);
        let ghost rest = s.skip(pos as int);
        proof {
            lemma_first_newline(rest);
        }
        let mut hi = j;
        if hi > pos && chars[hi - 1] == '\r' {
            hi = hi - 1;
        }
        let mut line: Vec<char> = Vec::new();
        let mut k = pos;
        while k < hi
            invariant
                pos <= k <= hi <= j <= chars.len(),
                s == chars@,
                line@ == s.subrange(pos as int, k as int),
            decreases hi - k,
        {
            line.push(chars[k]);
            k = k + 1;
            assert(line@ =~= s.subrange(pos as int, k as int));
        }
        let ghost old_out = out@.map_values(|v: Vec<char>| v@);
        proof {
            assert(rest.take((j - pos) as int) =~= s.subrange(pos as int, j as int));
            assert(line@ =~= strip_cr(rest.take((j - pos) as int)));
        }
        out.push(line);
        assert(out@.map_values(|v: Vec<char>| v@) =~= old_out.push(strip_cr(
            rest.take((j - pos) as int),
        )));
        if j < chars.len() {
            assert(rest.skip((j - pos) + 1) =~= s.skip(j + 1));
            pos = j + 1;
        } else {
            assert(strip_cr(rest) == strip_cr(rest.take((j - pos) as int))) by {
                assert(rest.take((j - pos) as int) =~= rest);
            }
            assert(s.skip(j as int) =~= Seq::<char>::empty());
            pos = j;
        }
    }
    assert(s.skip(pos as int) =~= Seq::<char>::empty());
    assert(out@.map_values(|v: Vec<char>| v@) + Seq::<Seq<char>>::empty() =~= out@.map_values(
        |v: Vec<char>| v@,
    ));
    out
}

/// The lower-case form of a string (`str::to_lowercase`).
pub uninterp spec fn std_lowercase(s: Seq<char>) -> Seq<char>;

/// A string without its leading and trailing white space (`str::trim`).
pub uninterp spec fn std_trim(s: Seq<char>) -> Seq<char>;

/// Whether `q` occurs in `s`.
pub open spec fn occurs_in(s: Seq<char>, q: Seq<char>) -> bool {
    exists|i: int| 0 <= i && i + q.len() <= s.len() && #[trigger] s.subrange(i, i + q.len()) == q
}

/// `str::to_lowercase`: each character replaced by its Unicode lower-case
/// mapping. Claimed: the result is the one `std_lowercase` names.
#[verifier::external_body]
pub(crate) fn to_lowercase(s: &str) -> (r: String)
    ensures
        r@ == std_lowercase(s@),
{
    s.to_lowercase()
}

/// `str::trim`: the string without leading and trailing Unicode white
/// space. Claimed: the result is the one `std_trim` names.
#[verifier::external_body]
pub(crate) fn trim(s: &str) -> (r: String)
    ensures
        r@ == std_trim(s@),
{
    s.trim().to_string()
}

/// Whether `q` occurs in `s` (what `str::contains` answers for a string
/// pattern).
pub(crate) fn contains(s: &str, q: &str) -> (b: bool)
    ensures
        b == occurs_in(s@, q@),
{
    let a = chars_of(s);
    let b = chars_of(q);
    if b.len() > a.len() {
        return false;
    }
    let al = a.len();
    let last = al - b.len();
    let mut i: usize = 0;
    while i <= last
        invariant
            a@ == s@,
            b@ == q@,
            b@.len() <= a@.len(),
            al == a@.len(),
            last == a@.len() - b@.len(),
            i <= last + 1,
            forall|j: int| 0 <= j < i ==> #[trigger] s@.subrange(j, j + q@.len()) != q@,
        decreases last + 1 - i,
    {
        let mut k: usize = 0;
        let mut same = true;
        while same && k < b.len()
            invariant
                a@ == s@,
                b@ == q@,
                i <= last,
                al == a@.len(),
                last == a@.len() - b@.len(),
                k <= b@.len(),
                forall|m: int| 0 <= m < k ==> a@[i + m] == b@[m],
                !same ==> k < b@.len() && a@[i + k] != b@[k as int],
            decreases b.len() - k + if same { 1int } else { 0int },
        {
            if a[i + k] == b[k] {
                k = k + 1;
            } else {
                same = false;
            }
        }
        if same {
            assert(s@.subrange(i as int, i + q@.len()) =~= q@);
            return true;
        }
        assert(s@.subrange(i as int, i + q@.len())[k as int] != q@[k as int]);
        if i == last {
            assert forall|j: int| 0 <= j && j + q@.len() <= s@.len() implies #[trigger] s@.subrange(
                j,
                j + q@.len(),
            ) != q@ by {
                assert(j <= i);
            }
            return false;
        }
        i = i + 1;
    }
    assert forall|j: int| 0 <= j && j + q@.len() <= s@.len() implies #[trigger] s@.subrange(
        j,
        j + q@.len(),
    ) != q@ by {
        assert(j < i);
    }
    false
}

/// `String::pop`: removes the last character, if any.
#[verifier::external_body]
pub(crate) fn pop_char(s: &mut String)
    ensures
        final(s)@ == (if old(s)@.len() > 0 {
            old(s)@.drop_last()
        } else {
            old(s)@
        }),
{
    s.pop();
}

} // verus!
