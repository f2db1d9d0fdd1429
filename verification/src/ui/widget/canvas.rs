//! What the list widgets draw, as plain values: cell and span operations
//! on a grid, with their colours, for the terminal backend to apply.
use ratatui::layout::{Constraint, Layout, Rect};
use vstd::prelude::*;

verus! {

/// The colours the widgets use.
#[derive(Clone, Copy, PartialEq, Eq, Structural, Debug)]
pub enum Hue {
    Reset,
    Yellow,
    Cyan,
    Blue,
    DarkGray,
    Red,
    White,
    Gray,
    Green,
}

/// A text style: a foreground colour, bold, reversed.
#[derive(Clone, Copy, PartialEq, Eq, Structural, Debug)]
pub struct Tone {
    pub fg: Option<Hue>,
    pub bold: bool,
    pub reversed: bool,
}

impl Tone {
    /// No colour, no modifier.
    pub fn plain() -> (t: Self)
        ensures
            t == plain_tone(),
    {
        Tone { fg: None, bold: false, reversed: false }
    }

    /// A foreground colour.
    pub fn fg(h: Hue) -> (t: Self)
        ensures
            t == (Tone { fg: Some(h), bold: false, reversed: false }),
    {
        Tone { fg: Some(h), bold: false, reversed: false }
    }

    /// A foreground colour, bold.
    pub fn bold(h: Hue) -> (t: Self)
        ensures
            t == (Tone { fg: Some(h), bold: true, reversed: false }),
    {
        Tone { fg: Some(h), bold: true, reversed: false }
    }
}

pub open spec fn plain_tone() -> Tone {
    Tone { fg: None, bold: false, reversed: false }
}

/// A rectangle of cells.
#[derive(Clone, Copy, PartialEq, Eq, Structural, Debug)]
pub struct Area {
    pub x: u16,
    pub y: u16,
    pub width: u16,
    pub height: u16,
}

/// The area lies on the grid: its right and bottom edges are columns and
/// rows a `u16` can name.
pub open spec fn on_grid(a: Area) -> bool {
    a.x + a.width <= u16::MAX && a.y + a.height <= u16::MAX
}

/// What is done at a place of the grid.
#[derive(Clone, Copy, PartialEq, Eq, Structural, Debug)]
pub enum OpKind {
    /// The cell takes the text as its symbol, and the tone.
    Cell,
    /// The cell takes the text as its symbol and keeps its style.
    Symbol,
    /// The cell takes the tone and keeps its symbol.
    Restyle,
    /// The text is written from the cell on, in the tone, over at most
    /// `width` columns.
    Span,
}

/// One drawing operation.
pub struct Op {
    pub kind: OpKind,
    pub x: u16,
    pub y: u16,
    pub text: String,
    pub tone: Tone,
    pub width: u16,
}

/// A drawing operation as plain values.
pub struct OpView {
    pub kind: OpKind,
    pub x: u16,
    pub y: u16,
    pub text: Seq<char>,
    pub tone: Tone,
    pub width: u16,
}

impl View for Op {
    type V = OpView;

    open spec fn view(&self) -> OpView {
        OpView {
            kind: self.kind,
            x: self.x,
            y: self.y,
            text: self.text@,
            tone: self.tone,
            width: self.width,
        }
    }
}

/// The views of drawing operations.
pub open spec fn ops_view(ops: Seq<Op>) -> Seq<OpView> {
    ops.map_values(|o: Op| o@)
}

/// A cell operation.
pub open spec fn cell(kind: OpKind, x: int, y: int, text: Seq<char>, tone: Tone) -> OpView {
    OpView { kind, x: x as u16, y: y as u16, text, tone, width: 1 }
}

/// A span operation.
pub open spec fn span(x: int, y: int, text: Seq<char>, tone: Tone, width: int) -> OpView {
    OpView { kind: OpKind::Span, x: x as u16, y: y as u16, text, tone, width: width as u16 }
}

/// Appends an operation.
pub fn put(ops: &mut Vec<Op>, kind: OpKind, x: u16, y: u16, text: String, tone: Tone, width: u16)
    ensures
        ops_view(final(ops)@) == ops_view(old(ops)@).push(
            OpView { kind, x, y, text: text@, tone, width },
        ),
{
    let ghost before = ops_view(ops@);
    ops.push(Op { kind, x, y, text, tone, width });
    assert(ops_view(ops@) =~= before.push(OpView { kind, x, y, text: text@, tone, width }));
}

/// A size constraint of a layout, as ratatui takes them.
#[derive(Clone, Copy, PartialEq, Eq, Structural, Debug)]
pub enum Cons {
    /// At least this many cells.
    Min(u16),
    /// Exactly this many cells.
    Length(u16),
    /// This percentage of the space, at most 100.
    Percentage(u16),
}

/// The areas ratatui's vertical `Layout` gives `area` under `cons`.
pub uninterp spec fn split_v_of(area: Area, cons: Seq<Cons>) -> Seq<Area>;

/// The areas ratatui's horizontal `Layout` gives `area` under `cons`.
pub uninterp spec fn split_h_of(area: Area, cons: Seq<Cons>) -> Seq<Area>;

/// `Layout::vertical(cons).split(area)`: one area per constraint, stacked
/// from the top. Claimed: the result is the one `split_v_of` names.
#[verifier::external_body]
pub(crate) fn split_vertical(area: Area, cons: &Vec<Cons>) -> (r: Vec<Area>)
    ensures
        r@ == split_v_of(area, cons@),
        r@.len() == cons@.len(),
{
    let rect = Rect { x: area.x, y: area.y, width: area.width, height: area.height };
    let cs: Vec<Constraint> = cons.iter().map(|c| match c {
        Cons::Min(n) => Constraint::Min(*n),
        Cons::Length(n) => Constraint::Length(*n),
        Cons::Percentage(n) => Constraint::Percentage(*n),
    }).collect();
    Layout::vertical(cs).split(rect).iter().map(|r| Area { x: r.x, y: r.y, width: r.width, height: r.height }).collect()
}

/// `Layout::horizontal(cons).split(area)`: one area per constraint, side
/// by side from the left. Claimed: the result is the one `split_h_of`
/// names.
#[verifier::external_body]
pub(crate) fn split_horizontal(area: Area, cons: &Vec<Cons>) -> (r: Vec<Area>)
    ensures
        r@ == split_h_of(area, cons@),
        r@.len() == cons@.len(),
{
    let rect = Rect { x: area.x, y: area.y, width: area.width, height: area.height };
    let cs: Vec<Constraint> = cons.iter().map(|c| match c {
        Cons::Min(n) => Constraint::Min(*n),
        Cons::Length(n) => Constraint::Length(*n),
        Cons::Percentage(n) => Constraint::Percentage(*n),
    }).collect();
    Layout::horizontal(cs).split(rect).iter().map(|r| Area { x: r.x, y: r.y, width: r.width, height: r.height }).collect()
}

} // verus!
