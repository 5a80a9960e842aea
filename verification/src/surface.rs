//! The character grid that widgets draw on.
//!
//! The grid itself is `tui::buffer::Buffer`. This module gives it a plain
//! model, a rectangle and a row-major sequence of cells, and states over that
//! model what each buffer operation used by the widgets does.

use crate::util::{bordered, BorderType, Borders};
use vstd::prelude::*;

verus! {

/// A rectangle in grid coordinates.
#[derive(Clone, Copy, Debug, PartialEq, Eq, Structural)]
pub struct Rect {
    pub x: u16,
    pub y: u16,
    pub width: u16,
    pub height: u16,
}

/// The colours that the dashboard paints with.
#[derive(Clone, Copy, Debug, PartialEq, Eq, Structural)]
pub enum Color {
    Reset,
    Black,
    Rgb(u8, u8, u8),
}

/// An incremental change of a cell's look: colours to replace, and modifier
/// bits to add and to remove.
#[derive(Clone, Copy, Debug, PartialEq, Eq, Structural)]
pub struct CellStyle {
    pub fg: Option<Color>,
    pub bg: Option<Color>,
    pub add_modifier: u16,
    pub sub_modifier: u16,
}

/// The modifier bit for bold text.
pub const BOLD: u16 = 1;

/// What one cell of the grid holds.
pub struct Cell {
    pub symbol: Seq<char>,
    pub fg: Color,
    pub bg: Color,
    pub modifier: u16,
}

/// The model of a grid: the rectangle it covers and its cells, row by row.
pub struct Surface {
    pub area: Rect,
    pub cells: Seq<Cell>,
}

impl Rect {
    pub open spec fn spec_left(self) -> u16 {
        self.x
    }

    pub open spec fn spec_top(self) -> u16 {
        self.y
    }

    pub open spec fn spec_right(self) -> u16 {
        if self.x + self.width > u16::MAX {
            u16::MAX
        } else {
            (self.x + self.width) as u16
        }
    }

    pub open spec fn spec_bottom(self) -> u16 {
        if self.y + self.height > u16::MAX {
            u16::MAX
        } else {
            (self.y + self.height) as u16
        }
    }

    /// The position `(x, y)` lies in the rectangle.
    pub open spec fn contains(self, x: int, y: int) -> bool {
        self.x <= x < self.x + self.width && self.y <= y < self.y + self.height
    }

    /// Every position of `inner` lies in the rectangle.
    pub open spec fn covers(self, inner: Rect) -> bool {
        &&& self.x <= inner.x
        &&& self.y <= inner.y
        &&& inner.x + inner.width <= self.x + self.width
        &&& inner.y + inner.height <= self.y + self.height
    }

    /// The leftmost column.
    #[verifier::when_used_as_spec(spec_left)]
    pub fn left(self) -> (r: u16)
        ensures
            r == self.spec_left(),
    {
        self.x
    }

    /// The topmost row.
    #[verifier::when_used_as_spec(spec_top)]
    pub fn top(self) -> (r: u16)
        ensures
            r == self.spec_top(),
    {
        self.y
    }

    /// The column after the last one, held to the largest coordinate.
    #[verifier::when_used_as_spec(spec_right)]
    pub fn right(self) -> (r: u16)
        ensures
            r == self.spec_right(),
    {
        self.x.saturating_add(self.width)
    }

    /// The row after the last one, held to the largest coordinate.
    #[verifier::when_used_as_spec(spec_bottom)]
    pub fn bottom(self) -> (r: u16)
        ensures
            r == self.spec_bottom(),
    {
        self.y.saturating_add(self.height)
    }
}

impl CellStyle {
    /// The style that changes nothing.
    pub open spec fn spec_plain() -> CellStyle {
        CellStyle { fg: None, bg: None, add_modifier: 0, sub_modifier: 0 }
    }

    pub open spec fn spec_fg(self, color: Color) -> CellStyle {
        CellStyle { fg: Some(color), ..self }
    }

    pub open spec fn spec_bg(self, color: Color) -> CellStyle {
        CellStyle { bg: Some(color), ..self }
    }

    pub open spec fn spec_bold(self) -> CellStyle {
        CellStyle {
            add_modifier: self.add_modifier | BOLD,
            sub_modifier: self.sub_modifier & !BOLD,
            ..self
        }
    }

    /// The style that changes nothing.
    #[verifier::when_used_as_spec(spec_plain)]
    pub fn plain() -> (r: CellStyle)
        ensures
            r == Self::spec_plain(),
    {
        CellStyle { fg: None, bg: None, add_modifier: 0, sub_modifier: 0 }
    }

    /// This style with the foreground set to `color`.
    #[verifier::when_used_as_spec(spec_fg)]
    pub fn fg(self, color: Color) -> (r: CellStyle)
        ensures
            r == self.spec_fg(color),
    {
        CellStyle { fg: Some(color), ..self }
    }

    /// This style with the background set to `color`.
    #[verifier::when_used_as_spec(spec_bg)]
    pub fn bg(self, color: Color) -> (r: CellStyle)
        ensures
            r == self.spec_bg(color),
    {
        CellStyle { bg: Some(color), ..self }
    }

    /// This style with bold text switched on.
    #[verifier::when_used_as_spec(spec_bold)]
    pub fn bold(self) -> (r: CellStyle)
        ensures
            r == self.spec_bold(),
    {
        CellStyle {
            add_modifier: self.add_modifier | BOLD,
            sub_modifier: self.sub_modifier & !BOLD,
            ..self
        }
    }
}

impl Cell {
    /// The cell that an empty grid is made of: a space in the terminal's own
    /// colours.
    pub open spec fn blank() -> Cell {
        Cell { symbol: seq![' '], fg: Color::Reset, bg: Color::Reset, modifier: 0 }
    }

    /// This cell after `style` was applied: the colours that the style names
    /// replace the cell's, its added bits are set and its removed bits
    /// cleared. Only the nine low modifier bits exist.
    pub open spec fn styled(self, style: CellStyle) -> Cell {
        Cell {
            symbol: self.symbol,
            fg: if let Some(c) = style.fg { c } else { self.fg },
            bg: if let Some(c) = style.bg { c } else { self.bg },
            modifier: (self.modifier | (style.add_modifier & 0x1ff)) & !(style.sub_modifier
                & 0x1ff),
        }
    }
}

impl Surface {
    /// The area fits the coordinate range and there is one cell for each of
    /// its positions, few enough to be numbered in sixteen bits.
    pub open spec fn wf(self) -> bool {
        &&& self.area.x + self.area.width <= u16::MAX
        &&& self.area.y + self.area.height <= u16::MAX
        &&& self.area.width * self.area.height <= u16::MAX
        &&& self.cells.len() == self.area.width * self.area.height
    }

    /// Where the cell of position `(x, y)` stands in `cells`.
    pub open spec fn index(self, x: int, y: int) -> int {
        (y - self.area.y) * self.area.width + (x - self.area.x)
    }

    /// The cell at position `(x, y)`.
    pub open spec fn at(self, x: int, y: int) -> Cell {
        self.cells[self.index(x, y)]
    }

    /// The grid with the cell at `(x, y)` replaced.
    pub open spec fn with_cell(self, x: int, y: int, cell: Cell) -> Surface {
        Surface { area: self.area, cells: self.cells.update(self.index(x, y), cell) }
    }

    /// The grid after `symbol` was put at `(x, y)` with `style`.
    pub open spec fn put(self, x: int, y: int, symbol: Seq<char>, style: CellStyle) -> Surface {
        self.with_cell(x, y, Cell { symbol, ..self.at(x, y).styled(style) })
    }

    /// The grid after the cell at `(x, y)` was blanked.
    pub open spec fn erase(self, x: int, y: int) -> Surface {
        self.with_cell(x, y, Cell::blank())
    }

    /// The grid after `style` was applied to every cell of `rect`.
    pub open spec fn paint(self, rect: Rect, style: CellStyle) -> Surface {
        Surface {
            area: self.area,
            cells: Seq::new(
                self.cells.len(),
                |i: int|
                    if rect.contains(
                        self.area.x + i % (self.area.width as int),
                        self.area.y + i / (self.area.width as int),
                    ) {
                        self.cells[i].styled(style)
                    } else {
                        self.cells[i]
                    },
            ),
        }
    }

    /// The grid after every cell of `rect` was blanked.
    pub open spec fn cleared(self, rect: Rect) -> Surface {
        Surface {
            area: self.area,
            cells: Seq::new(
                self.cells.len(),
                |i: int|
                    if rect.contains(
                        self.area.x + i % (self.area.width as int),
                        self.area.y + i / (self.area.width as int),
                    ) {
                        Cell::blank()
                    } else {
                        self.cells[i]
                    },
            ),
        }
    }

    /// The grid after `text` was printed from `(x, y)` rightwards with
    /// `style`.
    pub open spec fn print(self, x: int, y: int, text: Seq<char>, style: CellStyle) -> Surface {
        Surface {
            area: self.area,
            cells: printed_cells(self.cells, self.area, x as u16, y as u16, text, style),
        }
    }

    /// `put` where `(x, y)` lies in the grid; elsewhere nothing is drawn.
    pub open spec fn plot(self, x: int, y: int, symbol: Seq<char>, style: CellStyle) -> Surface {
        if self.area.contains(x, y) {
            self.put(x, y, symbol, style)
        } else {
            self
        }
    }

    /// `erase` where `(x, y)` lies in the grid; elsewhere nothing changes.
    pub open spec fn wipe(self, x: int, y: int) -> Surface {
        if self.area.contains(x, y) {
            self.erase(x, y)
        } else {
            self
        }
    }

    /// `print` where `(x, y)` lies in the grid; elsewhere nothing is drawn.
    pub open spec fn with_text(self, x: int, y: int, text: Seq<char>, style: CellStyle) -> Surface {
        if self.area.contains(x, y) {
            self.print(x, y, text, style)
        } else {
            self
        }
    }

    /// `paint` where the grid covers `rect`; elsewhere nothing changes.
    pub open spec fn tint(self, rect: Rect, style: CellStyle) -> Surface {
        if self.area.covers(rect) {
            self.paint(rect, style)
        } else {
            self
        }
    }

    /// A paragraph can be set into `rect`: the grid covers the rectangle,
    /// and has a column to the right of it, on which a mark without width
    /// at the end of a full line comes to stand, unless the rectangle has no
    /// column at all.
    pub open spec fn takes_paragraph(self, rect: Rect) -> bool {
        self.area.covers(rect) && (rect.width == 0 || rect.x + rect.width < self.area.x
            + self.area.width)
    }

    /// The grid after `lines` were set into `rect` as a centred, wrapped
    /// paragraph; where no paragraph can be set into the rectangle nothing
    /// is drawn.
    pub open spec fn with_paragraph(self, rect: Rect, lines: Seq<Seq<char>>) -> Surface {
        if self.takes_paragraph(rect) {
            Surface { area: self.area, cells: paragraph_cells(self.cells, self.area, rect, lines) }
        } else {
            self
        }
    }

    /// `n` cells from `(x, y)` rightwards, each plotted with `symbol`.
    pub open spec fn hline(
        self,
        x: int,
        y: int,
        n: nat,
        symbol: Seq<char>,
        style: CellStyle,
    ) -> Surface
        decreases n,
    {
        if n == 0 {
            self
        } else {
            self.hline(x, y, (n - 1) as nat, symbol, style).plot(x + n - 1, y, symbol, style)
        }
    }

    /// `n` cells from `(x, y)` downwards, each plotted with `symbol`.
    pub open spec fn vline(
        self,
        x: int,
        y: int,
        n: nat,
        symbol: Seq<char>,
        style: CellStyle,
    ) -> Surface
        decreases n,
    {
        if n == 0 {
            self
        } else {
            self.vline(x, y, (n - 1) as nat, symbol, style).plot(x, y + n - 1, symbol, style)
        }
    }

    /// `n` cells from `(x, y)` rightwards, each wiped.
    pub open spec fn wipe_row(self, x: int, y: int, n: nat) -> Surface
        decreases n,
    {
        if n == 0 {
            self
        } else {
            self.wipe_row(x, y, (n - 1) as nat).wipe(x + n - 1, y)
        }
    }

    /// The first `rows` rows of `rect`, wiped.
    pub open spec fn wipe_rows(self, rect: Rect, rows: nat) -> Surface
        decreases rows,
    {
        if rows == 0 {
            self
        } else {
            self.wipe_rows(rect, (rows - 1) as nat).wipe_row(
                rect.x as int,
                rect.y + rows - 1,
                rect.width as nat,
            )
        }
    }

}

/// `tui::buffer::Buffer`, the grid of the terminal library. Nothing of its
/// inside is known here but what `buffer_area` and `buffer_cells` name.
#[verifier::external_type_specification]
#[verifier::external_body]
pub struct ExBuffer(tui::buffer::Buffer);

/// `tui::style::Style`, the terminal library's own form of a `CellStyle`. It
/// is only handed on to the buffer's routines.
#[verifier::external_type_specification]
#[verifier::external_body]
pub struct ExStyle(tui::style::Style);

/// The cells of a buffer, row by row.
pub uninterp spec fn buffer_cells(buf: tui::buffer::Buffer) -> Seq<Cell>;

/// The rectangle that a buffer covers.
pub uninterp spec fn buffer_area(buf: tui::buffer::Buffer) -> Rect;

/// The cells of a grid after `Buffer::set_string` printed `text` from `(x, y)`
/// with `style`: how a text is cut into graphemes, and how many columns each of
/// them fills, is the printing routine's own matter.
pub uninterp spec fn printed_cells(
    cells: Seq<Cell>,
    area: Rect,
    x: u16,
    y: u16,
    text: Seq<char>,
    style: CellStyle,
) -> Seq<Cell>;

/// The model of a buffer.
pub open spec fn surface(buf: tui::buffer::Buffer) -> Surface {
    Surface { area: buffer_area(buf), cells: buffer_cells(buf) }
}

/// In a well-formed grid every position of the area has its own place in the
/// cell sequence.
pub proof fn lemma_index_in_range(s: Surface, x: int, y: int)
    requires
        s.wf(),
        s.area.contains(x, y),
    ensures
        0 <= s.index(x, y) < s.cells.len(),
        s.index(x, y) % (s.area.width as int) == x - s.area.x,
        s.index(x, y) / (s.area.width as int) == y - s.area.y,
{
    let w = s.area.width as int;
    let h = s.area.height as int;
    let r = y - s.area.y;
    let c = x - s.area.x;
    assert(0 <= r * w && r * w + w <= h * w) by (nonlinear_arith)
        requires
            0 <= r < h,
            0 < w,
    ;
    assert((r * w + c) % w == c && (r * w + c) / w == r) by (nonlinear_arith)
        requires
            0 <= c < w,
            0 <= r,
    ;
}

/// In a well-formed grid every place in the cell sequence is that of a
/// position of the area.
pub proof fn lemma_index_position(s: Surface, i: int)
    requires
        s.wf(),
        0 <= i < s.cells.len(),
    ensures
        s.area.contains(
            s.area.x + i % (s.area.width as int),
            s.area.y + i / (s.area.width as int),
        ),
        s.index(s.area.x + i % (s.area.width as int), s.area.y + i / (s.area.width as int)) == i,
{
    let w = s.area.width as int;
    let h = s.area.height as int;
    assert(w > 0) by (nonlinear_arith)
        requires
            0 <= i < w * h,
            0 <= w,
    ;
    assert(0 <= i % w < w && 0 <= i / w < h && (i / w) * w + i % w == i) by (nonlinear_arith)
        requires
            0 <= i < w * h,
            0 < w,
    ;
}

/// Different positions of the area have different places in the cell
/// sequence.
pub proof fn lemma_index_injective(s: Surface, x1: int, y1: int, x2: int, y2: int)
    requires
        s.wf(),
        s.area.contains(x1, y1),
        s.area.contains(x2, y2),
        s.index(x1, y1) == s.index(x2, y2),
    ensures
        x1 == x2,
        y1 == y2,
{
    lemma_index_in_range(s, x1, y1);
    lemma_index_in_range(s, x2, y2);
}

/// Replacing one cell of the area keeps the grid well formed, changes that
/// position and no other.
pub proof fn lemma_with_cell(s: Surface, x: int, y: int, cell: Cell)
    requires
        s.wf(),
        s.area.contains(x, y),
    ensures
        s.with_cell(x, y, cell).wf(),
        s.with_cell(x, y, cell).at(x, y) == cell,
        forall|a: int, b: int|
            s.area.contains(a, b) && (a != x || b != y) ==> #[trigger] s.with_cell(x, y, cell).at(
                a,
                b,
            ) == s.at(a, b),
{
    lemma_index_in_range(s, x, y);
    assert forall|a: int, b: int| s.area.contains(a, b) && (a != x || b != y) implies #[trigger]
        s.with_cell(x, y, cell).at(a, b) == s.at(a, b) by {
        lemma_index_in_range(s, a, b);
        if s.index(a, b) == s.index(x, y) {
            lemma_index_injective(s, a, b, x, y);
        }
    }
}

/// A `CellStyle` in the terminal library's own form: `Style` with the same
/// colours, `Color::Reset`, `Color::Black` or `Color::Rgb`, and with the
/// modifiers that `Modifier::from_bits_truncate` makes of the two bit sets,
/// which drops every bit above the ninth. Nothing is stated of the result:
/// the routines that take it say what the style does to a cell.
#[verifier::external_body]
fn outside_style(style: CellStyle) -> tui::style::Style {
    let color = |c: Color| match c {
        Color::Reset => tui::style::Color::Reset,
        Color::Black => tui::style::Color::Black,
        Color::Rgb(r, g, b) => tui::style::Color::Rgb(r, g, b),
    };
    tui::style::Style {
        fg: style.fg.map(color),
        bg: style.bg.map(color),
        add_modifier: tui::style::Modifier::from_bits_truncate(style.add_modifier),
        sub_modifier: tui::style::Modifier::from_bits_truncate(style.sub_modifier),
    }
}

/// `Buffer::empty` on a rectangle: a grid of blank cells that covers it.
#[verifier::external_body]
fn empty_buffer(area: Rect) -> (buf: tui::buffer::Buffer)
    requires
        area.width * area.height <= u16::MAX,
    ensures
        buffer_area(buf) == area,
        buffer_cells(buf) == Seq::new((area.width * area.height) as nat, |i: int| Cell::blank()),
{
    tui::buffer::Buffer::empty(
        tui::layout::Rect { x: area.x, y: area.y, width: area.width, height: area.height },
    )
}

/// `Buffer::get_mut`, then `Cell::set_symbol` and `Cell::set_style`: the cell
/// at `(x, y)` takes the symbol and the style's changes; no other cell
/// changes.
#[verifier::external_body]
pub(crate) fn put_symbol(
    buf: &mut tui::buffer::Buffer,
    x: u16,
    y: u16,
    symbol: &str,
    style: CellStyle,
)
    requires
        surface(*old(buf)).wf(),
        buffer_area(*old(buf)).contains(x as int, y as int),
    ensures
        buffer_area(*final(buf)) == buffer_area(*old(buf)),
        buffer_cells(*final(buf)) == surface(*old(buf)).put(
            x as int,
            y as int,
            symbol@,
            style,
        ).cells,
{
    buf.get_mut(x, y).set_symbol(symbol).set_style(outside_style(style));
}

/// `Buffer::get_mut`, then `Cell::reset`: the cell at `(x, y)` becomes blank;
/// no other cell changes.
#[verifier::external_body]
pub(crate) fn reset_cell(buf: &mut tui::buffer::Buffer, x: u16, y: u16)
    requires
        surface(*old(buf)).wf(),
        buffer_area(*old(buf)).contains(x as int, y as int),
    ensures
        buffer_area(*final(buf)) == buffer_area(*old(buf)),
        buffer_cells(*final(buf)) == surface(*old(buf)).erase(x as int, y as int).cells,
{
    buf.get_mut(x, y).reset();
}

/// `Buffer::set_string`: prints `text` from `(x, y)` rightwards, cut at the
/// right edge of the grid. The cells that result have a name only; what is
/// stated besides is that the grid keeps its area and size, and that cells
/// outside the row from `x` to the right edge keep what they held.
#[verifier::external_body]
pub(crate) fn put_text(buf: &mut tui::buffer::Buffer, x: u16, y: u16, text: &str, style: CellStyle)
    requires
        surface(*old(buf)).wf(),
        buffer_area(*old(buf)).contains(x as int, y as int),
    ensures
        buffer_area(*final(buf)) == buffer_area(*old(buf)),
        buffer_cells(*final(buf)) == printed_cells(
            buffer_cells(*old(buf)),
            buffer_area(*old(buf)),
            x,
            y,
            text@,
            style,
        ),
        buffer_cells(*final(buf)).len() == buffer_cells(*old(buf)).len(),
        forall|a: int, b: int|
            buffer_area(*old(buf)).contains(a, b) && (b != y || a < x) ==> #[trigger] surface(
                *final(buf),
            ).at(a, b) == surface(*old(buf)).at(a, b),
{
    buf.set_string(x, y, text, outside_style(style));
}

/// `Buffer::set_style` on a rectangle inside the grid: every cell of the
/// rectangle takes the style's changes and keeps its symbol; no other cell
/// changes.
#[verifier::external_body]
pub(crate) fn paint_area(buf: &mut tui::buffer::Buffer, rect: Rect, style: CellStyle)
    requires
        surface(*old(buf)).wf(),
        rect.width == 0 || rect.height == 0 || buffer_area(*old(buf)).covers(rect),
    ensures
        buffer_area(*final(buf)) == buffer_area(*old(buf)),
        buffer_cells(*final(buf)) == surface(*old(buf)).paint(rect, style).cells,
{
    let area = tui::layout::Rect { x: rect.x, y: rect.y, width: rect.width, height: rect.height };
    buf.set_style(area, outside_style(style));
}

/// A grid of blank cells over `area`, or nothing where the area has more
/// positions than a grid can number.
pub fn blank_surface(area: Rect) -> (r: Option<tui::buffer::Buffer>)
    ensures
        r is Some <==> area.width * area.height <= u16::MAX,
        r matches Some(buf) ==> {
            &&& buffer_area(buf) == area
            &&& buffer_cells(buf) == Seq::new(
                (area.width * area.height) as nat,
                |i: int| Cell::blank(),
            )
        },
{
    assert(area.width * area.height <= 0xffff * 0xffff) by (nonlinear_arith)
        requires
            area.width <= 0xffff,
            area.height <= 0xffff,
    ;
    let cells: u32 = area.width as u32 * area.height as u32;
    if cells <= 0xffff {
        Some(empty_buffer(area))
    } else {
        None
    }
}

/// `Buffer::area`: the rectangle that the buffer covers.
#[verifier::external_body]
fn area_of(buf: &tui::buffer::Buffer) -> (r: Rect)
    ensures
        r == buffer_area(*buf),
{
    let area = buf.area();
    Rect { x: area.x, y: area.y, width: area.width, height: area.height }
}

/// Whether `(x, y)` is a position of the grid.
pub fn in_grid(buf: &tui::buffer::Buffer, x: u16, y: u16) -> (r: bool)
    ensures
        r == buffer_area(*buf).contains(x as int, y as int),
{
    let area = area_of(buf);
    area.x <= x && (x as u32) < area.x as u32 + area.width as u32 && area.y <= y && (y as u32)
        < area.y as u32 + area.height as u32
}

/// Whether every position of `rect` is a position of the grid.
pub fn grid_covers(buf: &tui::buffer::Buffer, rect: Rect) -> (r: bool)
    ensures
        r == buffer_area(*buf).covers(rect),
{
    let area = area_of(buf);
    area.x <= rect.x && area.y <= rect.y && rect.x as u32 + rect.width as u32 <= area.x as u32
        + area.width as u32 && rect.y as u32 + rect.height as u32 <= area.y as u32
        + area.height as u32
}

/// Plotting, wiping and writing keep a grid well formed where the printed
/// cells are as many as before.
pub proof fn lemma_plot(s: Surface, x: int, y: int, symbol: Seq<char>, style: CellStyle)
    requires
        s.wf(),
    ensures
        s.plot(x, y, symbol, style).wf(),
        s.plot(x, y, symbol, style).area == s.area,
        forall|a: int, b: int|
            s.area.contains(a, b) && (a != x || b != y) ==> #[trigger] s.plot(
                x,
                y,
                symbol,
                style,
            ).at(a, b) == s.at(a, b),
        s.area.contains(x, y) ==> s.plot(x, y, symbol, style).at(x, y) == (Cell {
            symbol,
            ..s.at(x, y).styled(style)
        }),
{
    if s.area.contains(x, y) {
        lemma_with_cell(s, x, y, Cell { symbol, ..s.at(x, y).styled(style) });
    }
}

/// Wiping keeps a grid well formed and changes one position at most.
pub proof fn lemma_wipe(s: Surface, x: int, y: int)
    requires
        s.wf(),
    ensures
        s.wipe(x, y).wf(),
        s.wipe(x, y).area == s.area,
        forall|a: int, b: int|
            s.area.contains(a, b) && (a != x || b != y) ==> #[trigger] s.wipe(x, y).at(a, b)
                == s.at(a, b),
        s.area.contains(x, y) ==> s.wipe(x, y).at(x, y) == Cell::blank(),
{
    if s.area.contains(x, y) {
        lemma_with_cell(s, x, y, Cell::blank());
    }
}

/// Puts `symbol` with `style` at `(x, y)`; outside the grid nothing is drawn.
pub fn plot(buf: &mut tui::buffer::Buffer, x: u16, y: u16, symbol: &str, style: CellStyle)
    requires
        surface(*old(buf)).wf(),
    ensures
        surface(*final(buf)) == surface(*old(buf)).plot(x as int, y as int, symbol@, style),
        surface(*final(buf)).wf(),
{
    proof {
        lemma_plot(surface(*buf), x as int, y as int, symbol@, style);
    }
    if in_grid(buf, x, y) {
        put_symbol(buf, x, y, symbol, style);
    }
}

/// Blanks the cell at `(x, y)`; outside the grid nothing changes.
pub fn wipe(buf: &mut tui::buffer::Buffer, x: u16, y: u16)
    requires
        surface(*old(buf)).wf(),
    ensures
        surface(*final(buf)) == surface(*old(buf)).wipe(x as int, y as int),
        surface(*final(buf)).wf(),
{
    proof {
        lemma_wipe(surface(*buf), x as int, y as int);
    }
    if in_grid(buf, x, y) {
        reset_cell(buf, x, y);
    }
}

/// Prints `text` from `(x, y)` rightwards; from outside the grid nothing is
/// drawn.
pub fn draw_text(buf: &mut tui::buffer::Buffer, x: u16, y: u16, text: &str, style: CellStyle)
    requires
        surface(*old(buf)).wf(),
    ensures
        surface(*final(buf)) == surface(*old(buf)).with_text(x as int, y as int, text@, style),
        surface(*final(buf)).wf(),
        forall|a: int, b: int|
            buffer_area(*old(buf)).contains(a, b) && (b != y || a < x) ==> #[trigger] surface(
                *final(buf),
            ).at(a, b) == surface(*old(buf)).at(a, b),
{
    if in_grid(buf, x, y) {
        put_text(buf, x, y, text, style);
    }
}

/// Applies `style` to every cell of `rect`; where the grid does not cover
/// the rectangle nothing changes.
pub fn tint(buf: &mut tui::buffer::Buffer, rect: Rect, style: CellStyle)
    requires
        surface(*old(buf)).wf(),
    ensures
        surface(*final(buf)) == surface(*old(buf)).tint(rect, style),
        surface(*final(buf)).wf(),
{
    if grid_covers(buf, rect) {
        paint_area(buf, rect, style);
    }
}

/// `plot` for coordinates that may lie beyond the coordinate range, where
/// there is no grid.
pub fn plot_wide(buf: &mut tui::buffer::Buffer, x: u32, y: u32, symbol: &str, style: CellStyle)
    requires
        surface(*old(buf)).wf(),
    ensures
        surface(*final(buf)) == surface(*old(buf)).plot(x as int, y as int, symbol@, style),
        surface(*final(buf)).wf(),
{
    if x <= 0xffff && y <= 0xffff {
        plot(buf, x as u16, y as u16, symbol, style);
    }
}

/// `draw_text` for coordinates that may lie beyond the coordinate range,
/// where there is no grid.
pub fn draw_text_wide(buf: &mut tui::buffer::Buffer, x: u32, y: u32, text: &str, style: CellStyle)
    requires
        surface(*old(buf)).wf(),
    ensures
        surface(*final(buf)) == surface(*old(buf)).with_text(x as int, y as int, text@, style),
        surface(*final(buf)).wf(),
{
    if x <= 0xffff && y <= 0xffff {
        draw_text(buf, x as u16, y as u16, text, style);
    }
}

/// The cells of a grid after `Paragraph::render` set `lines` into `rect`,
/// each line centred and wrapped at the rectangle's width.
pub uninterp spec fn paragraph_cells(
    cells: Seq<Cell>,
    area: Rect,
    rect: Rect,
    lines: Seq<Seq<char>>,
) -> Seq<Cell>;

/// The texts of the lines.
pub open spec fn line_texts(lines: Seq<String>) -> Seq<Seq<char>> {
    Seq::new(lines.len(), |i: int| lines[i]@)
}

/// `Paragraph::new` on the lines, with `Alignment::Center` and a `Wrap` that
/// does not trim, then `Widget::render` into `rect`: the cells that result
/// have a name only; the grid keeps its area and its size. The routine
/// writes a mark without width one column to the right of a full line, so
/// that column has to lie in the grid.
#[verifier::external_body]
pub(crate) fn put_paragraph(buf: &mut tui::buffer::Buffer, rect: Rect, lines: &Vec<String>)
    requires
        surface(*old(buf)).wf(),
        surface(*old(buf)).takes_paragraph(rect),
    ensures
        buffer_area(*final(buf)) == buffer_area(*old(buf)),
        buffer_cells(*final(buf)) == paragraph_cells(
            buffer_cells(*old(buf)),
            buffer_area(*old(buf)),
            rect,
            line_texts(lines@),
        ),
        buffer_cells(*final(buf)).len() == buffer_cells(*old(buf)).len(),
{
    let text: Vec<tui::text::Spans> = lines.iter().map(|l| tui::text::Spans::from(l.as_str())).collect();
    let area = tui::layout::Rect { x: rect.x, y: rect.y, width: rect.width, height: rect.height };
    let paragraph = tui::widgets::Paragraph::new(text)
        .alignment(tui::layout::Alignment::Center)
        .wrap(tui::widgets::Wrap { trim: false });
    tui::widgets::Widget::render(paragraph, area, buf);
}

/// Sets `lines` into `rect`, each line centred and wrapped; where the grid
/// does not cover the rectangle, or has no column to the right of it,
/// nothing is drawn.
pub fn draw_paragraph(buf: &mut tui::buffer::Buffer, rect: Rect, lines: &Vec<String>)
    requires
        surface(*old(buf)).wf(),
    ensures
        surface(*final(buf)) == surface(*old(buf)).with_paragraph(rect, line_texts(lines@)),
        surface(*final(buf)).wf(),
{
    let area = area_of(buf);
    if grid_covers(buf, rect) && (rect.width == 0 || rect.x as u32 + (rect.width as u32)
        < area.x as u32 + area.width as u32) {
        put_paragraph(buf, rect, lines);
    }
}

/// The cells of a grid after `Gauge::render` drew a bordered gauge with a
/// title into `rect`, filled to `percent` hundredths.
pub uninterp spec fn gauge_cells(
    cells: Seq<Cell>,
    area: Rect,
    rect: Rect,
    title: Seq<char>,
    percent: u16,
    style: CellStyle,
) -> Seq<Cell>;

/// The cells of a grid after `Block::render` drew a block with all borders
/// and a title into `rect`.
pub uninterp spec fn titled_block_cells(
    cells: Seq<Cell>,
    area: Rect,
    rect: Rect,
    title: Seq<char>,
    style: CellStyle,
) -> Seq<Cell>;

/// The smallest rectangle that holds two rectangles.
pub open spec fn union_of(a: Rect, b: Rect) -> Rect {
    let x1 = if a.x <= b.x {
        a.x
    } else {
        b.x
    };
    let y1 = if a.y <= b.y {
        a.y
    } else {
        b.y
    };
    let x2 = if a.x + a.width >= b.x + b.width {
        a.x + a.width
    } else {
        b.x + b.width
    };
    let y2 = if a.y + a.height >= b.y + b.height {
        a.y + a.height
    } else {
        b.y + b.height
    };
    Rect { x: x1, y: y1, width: (x2 - x1) as u16, height: (y2 - y1) as u16 }
}

impl Surface {
    /// The grid after a gauge was drawn into `rect`; where the grid does not
    /// cover the rectangle, the rectangle has no room inside its border, or
    /// the gauge is filled beyond the whole, nothing is drawn.
    pub open spec fn with_gauge(
        self,
        rect: Rect,
        title: Seq<char>,
        percent: u16,
        style: CellStyle,
    ) -> Surface {
        if self.area.covers(rect) && rect.width >= 3 && rect.height >= 3 && percent <= 100 {
            Surface {
                area: self.area,
                cells: gauge_cells(self.cells, self.area, rect, title, percent, style),
            }
        } else {
            self
        }
    }

    /// The grid after a block without a title was drawn into `rect`, which
    /// the grid covers: every cell of the rectangle takes the style, and
    /// its outer ring the plain border on all sides, in no style of its
    /// own. A rectangle without a cell stays as it is.
    pub open spec fn blocked(self, rect: Rect, style: CellStyle) -> Surface {
        if rect.width == 0 || rect.height == 0 {
            self
        } else {
            bordered(
                self.paint(rect, style),
                rect,
                Borders::all(),
                BorderType::Plain.line_symbols(),
                CellStyle::plain(),
            )
        }
    }

    /// The two grids together can be merged: the smallest rectangle that
    /// holds both has no more positions than can be numbered in sixteen
    /// bits, also when its first column is added to their number.
    pub open spec fn merges_with(self, other: Surface) -> bool {
        let both = union_of(self.area, other.area);
        both.width * both.height <= u16::MAX && both.width * both.height + both.x <= 65536
    }

    /// The grid after a block was drawn into `rect`, with a title or
    /// without; where the grid does not cover the rectangle nothing is
    /// drawn.
    pub open spec fn with_block(self, rect: Rect, title: Option<Seq<char>>, style: CellStyle)
        -> Surface {
        if self.area.covers(rect) {
            Surface {
                area: self.area,
                cells: match title {
                    Some(t) => titled_block_cells(self.cells, self.area, rect, t, style),
                    None => self.blocked(rect, style).cells,
                },
            }
        } else {
            self
        }
    }

    /// The grid after another grid was laid over it: it covers the
    /// smallest rectangle that holds both, and each position holds the
    /// other grid's cell where that grid covers it, else this grid's, else
    /// a blank. Where the two cannot be merged nothing changes.
    pub open spec fn merged(self, other: Surface) -> Surface {
        if self.merges_with(other) {
            let both = union_of(self.area, other.area);
            Surface {
                area: both,
                cells: Seq::new(
                    (both.width * both.height) as nat,
                    |i: int|
                        {
                            let x = both.x + i % (both.width as int);
                            let y = both.y + i / (both.width as int);
                            if other.area.contains(x, y) {
                                other.at(x, y)
                            } else if self.area.contains(x, y) {
                                self.at(x, y)
                            } else {
                                Cell::blank()
                            }
                        },
                ),
            }
        } else {
            self
        }
    }
}

/// `Gauge::default` with a `Block` that has all borders, the title and the
/// style, with the style as gauge style and with `Gauge::percent`, then
/// `Widget::render` into `rect`: the cells that result have a name only; the
/// grid keeps its area and its size.
#[verifier::external_body]
pub(crate) fn put_gauge(
    buf: &mut tui::buffer::Buffer,
    rect: Rect,
    title: &str,
    percent: u16,
    style: CellStyle,
)
    requires
        surface(*old(buf)).wf(),
        buffer_area(*old(buf)).covers(rect),
        rect.width >= 3,
        rect.height >= 3,
        percent <= 100,
    ensures
        buffer_area(*final(buf)) == buffer_area(*old(buf)),
        buffer_cells(*final(buf)) == gauge_cells(
            buffer_cells(*old(buf)),
            buffer_area(*old(buf)),
            rect,
            title@,
            percent,
            style,
        ),
        buffer_cells(*final(buf)).len() == buffer_cells(*old(buf)).len(),
{
    let block = tui::widgets::Block::default()
        .title(title)
        .style(outside_style(style))
        .borders(tui::widgets::Borders::ALL);
    let gauge = tui::widgets::Gauge::default()
        .block(block)
        .gauge_style(outside_style(style))
        .percent(percent);
    let area = tui::layout::Rect { x: rect.x, y: rect.y, width: rect.width, height: rect.height };
    tui::widgets::Widget::render(gauge, area, buf);
}

/// `Block::default` with all borders and the style, then `Widget::render`
/// into `rect`: every cell of the rectangle takes the style, then the sides
/// and the corners are set in plain lines and in no style of their own; a
/// rectangle without a cell is left alone. The grid keeps its area and its
/// size.
#[verifier::external_body]
pub(crate) fn put_block(buf: &mut tui::buffer::Buffer, rect: Rect, style: CellStyle)
    requires
        surface(*old(buf)).wf(),
        buffer_area(*old(buf)).covers(rect),
    ensures
        buffer_area(*final(buf)) == buffer_area(*old(buf)),
        buffer_cells(*final(buf)) == surface(*old(buf)).blocked(rect, style).cells,
        buffer_cells(*final(buf)).len() == buffer_cells(*old(buf)).len(),
{
    let block = tui::widgets::Block::default()
        .borders(tui::widgets::Borders::ALL)
        .style(outside_style(style));
    let area = tui::layout::Rect { x: rect.x, y: rect.y, width: rect.width, height: rect.height };
    tui::widgets::Widget::render(block, area, buf);
}

/// `Block::default` with all borders, the title and the style, then
/// `Widget::render` into `rect`: the cells that result have a name only; the
/// grid keeps its area and its size.
#[verifier::external_body]
pub(crate) fn put_titled_block(
    buf: &mut tui::buffer::Buffer,
    rect: Rect,
    title: &str,
    style: CellStyle,
)
    requires
        surface(*old(buf)).wf(),
        buffer_area(*old(buf)).covers(rect),
    ensures
        buffer_area(*final(buf)) == buffer_area(*old(buf)),
        buffer_cells(*final(buf)) == titled_block_cells(
            buffer_cells(*old(buf)),
            buffer_area(*old(buf)),
            rect,
            title@,
            style,
        ),
        buffer_cells(*final(buf)).len() == buffer_cells(*old(buf)).len(),
{
    let block = tui::widgets::Block::default()
        .borders(tui::widgets::Borders::ALL)
        .title(title)
        .style(outside_style(style));
    let area = tui::layout::Rect { x: rect.x, y: rect.y, width: rect.width, height: rect.height };
    tui::widgets::Widget::render(block, area, buf);
}

/// `Buffer::merge`: the grid grows to the smallest rectangle that holds both
/// grids, with a cell for each of its positions. The cells of this grid are
/// moved to their new places, the rest is blank, and the cells of the other
/// grid are laid over them. The routine numbers a position in sixteen bits
/// and adds its column before it takes the first column away, so the number
/// of positions and the first column together have to fit.
#[verifier::external_body]
pub(crate) fn merge_buffer(buf: &mut tui::buffer::Buffer, other: &tui::buffer::Buffer)
    requires
        surface(*old(buf)).wf(),
        surface(*other).wf(),
        surface(*old(buf)).merges_with(surface(*other)),
    ensures
        buffer_area(*final(buf)) == union_of(buffer_area(*old(buf)), buffer_area(*other)),
        buffer_cells(*final(buf)) == surface(*old(buf)).merged(surface(*other)).cells,
{
    buf.merge(other);
}

/// Draws a bordered gauge with a title into `rect`, filled to `percent`
/// hundredths.
pub fn draw_gauge(
    buf: &mut tui::buffer::Buffer,
    rect: Rect,
    title: &str,
    percent: u16,
    style: CellStyle,
)
    requires
        surface(*old(buf)).wf(),
    ensures
        surface(*final(buf)) == surface(*old(buf)).with_gauge(rect, title@, percent, style),
        surface(*final(buf)).wf(),
{
    if grid_covers(buf, rect) && rect.width >= 3 && rect.height >= 3 && percent <= 100 {
        put_gauge(buf, rect, title, percent, style);
    }
}

/// Draws a block with all borders into `rect`, with a title or without.
pub fn draw_block(buf: &mut tui::buffer::Buffer, rect: Rect, title: Option<&str>, style: CellStyle)
    requires
        surface(*old(buf)).wf(),
    ensures
        surface(*final(buf)) == surface(*old(buf)).with_block(
            rect,
            match title {
                Some(t) => Some(t@),
                None => None,
            },
            style,
        ),
        surface(*final(buf)).wf(),
{
    if grid_covers(buf, rect) {
        match title {
            Some(t) => put_titled_block(buf, rect, t, style),
            None => put_block(buf, rect, style),
        }
    }
}

/// The smallest rectangle that holds the areas of two well-formed grids.
fn union_area(a: Rect, b: Rect) -> (r: Rect)
    requires
        a.x + a.width <= u16::MAX,
        a.y + a.height <= u16::MAX,
        b.x + b.width <= u16::MAX,
        b.y + b.height <= u16::MAX,
    ensures
        r == union_of(a, b),
{
    let x1 = if a.x <= b.x {
        a.x
    } else {
        b.x
    };
    let y1 = if a.y <= b.y {
        a.y
    } else {
        b.y
    };
    let x2 = if a.x + a.width >= b.x + b.width {
        a.x + a.width
    } else {
        b.x + b.width
    };
    let y2 = if a.y + a.height >= b.y + b.height {
        a.y + a.height
    } else {
        b.y + b.height
    };
    Rect { x: x1, y: y1, width: x2 - x1, height: y2 - y1 }
}

/// Lays the cells of `other` over the grid, which grows to hold both; where
/// both together have more positions than a grid can number, nothing
/// changes.
pub fn merge(buf: &mut tui::buffer::Buffer, other: &tui::buffer::Buffer)
    requires
        surface(*old(buf)).wf(),
        surface(*other).wf(),
    ensures
        surface(*final(buf)) == surface(*old(buf)).merged(surface(*other)),
        surface(*final(buf)).wf(),
{
    let both = union_area(area_of(buf), area_of(other));
    assert(both.width * both.height <= 0xffff * 0xffff) by (nonlinear_arith)
        requires
            both.width <= 0xffff,
            both.height <= 0xffff,
    ;
    let positions: u64 = both.width as u64 * both.height as u64;
    if positions <= 0xffff && positions + both.x as u64 <= 65536 {
        merge_buffer(buf, other);
    }
}

} // verus!
