//! Drawing routines shared by the widgets, and the bounded step that every
//! cursor of the dashboard moves by.

use crate::surface::{
    buffer_area, lemma_index_position, lemma_plot, lemma_wipe, plot, plot_wide, surface, wipe, Cell, CellStyle, Rect,
    Surface,
};
use crate::text::{
    all_digits, decimal, int_text, lemma_number_grows, number, push_char, push_decimal, push_int,
    push_text,
};
use vstd::prelude::*;
use vstd::string::StrSliceExecFns;

verus! {

/// The weight of a border's lines.
#[derive(Clone, Copy, Debug, PartialEq, Eq, Structural)]
pub enum BorderType {
    Plain,
    Rounded,
    Double,
    Thick,
}

/// The sides of a rectangle that get a border.
#[derive(Clone, Copy, Debug, PartialEq, Eq, Structural)]
pub struct Borders {
    pub left: bool,
    pub top: bool,
    pub right: bool,
    pub bottom: bool,
}

/// The glyphs that a border is drawn with.
#[derive(Clone, Copy, Debug)]
pub struct LineSet {
    pub vertical: &'static str,
    pub horizontal: &'static str,
    pub top_right: &'static str,
    pub top_left: &'static str,
    pub bottom_right: &'static str,
    pub bottom_left: &'static str,
}

impl Borders {
    pub open spec fn spec_all() -> Borders {
        Borders { left: true, top: true, right: true, bottom: true }
    }

    pub open spec fn spec_none() -> Borders {
        Borders { left: false, top: false, right: false, bottom: false }
    }

    /// At least one side is asked for.
    pub open spec fn any(self) -> bool {
        self.left || self.top || self.right || self.bottom
    }

    /// All four sides.
    #[verifier::when_used_as_spec(spec_all)]
    pub fn all() -> (r: Borders)
        ensures
            r == Self::spec_all(),
    {
        Borders { left: true, top: true, right: true, bottom: true }
    }

    /// No side.
    #[verifier::when_used_as_spec(spec_none)]
    pub fn none() -> (r: Borders)
        ensures
            r == Self::spec_none(),
    {
        Borders { left: false, top: false, right: false, bottom: false }
    }
}

impl BorderType {
    pub open spec fn spec_line_symbols(self) -> LineSet {
        match self {
            BorderType::Plain => LineSet {
                vertical: "\u{2502}",
                horizontal: "\u{2500}",
                top_right: "\u{2510}",
                top_left: "\u{250c}",
                bottom_right: "\u{2518}",
                bottom_left: "\u{2514}",
            },
            BorderType::Rounded => LineSet {
                vertical: "\u{2502}",
                horizontal: "\u{2500}",
                top_right: "\u{256e}",
                top_left: "\u{256d}",
                bottom_right: "\u{256f}",
                bottom_left: "\u{2570}",
            },
            BorderType::Double => LineSet {
                vertical: "\u{2551}",
                horizontal: "\u{2550}",
                top_right: "\u{2557}",
                top_left: "\u{2554}",
                bottom_right: "\u{255d}",
                bottom_left: "\u{255a}",
            },
            BorderType::Thick => LineSet {
                vertical: "\u{2503}",
                horizontal: "\u{2501}",
                top_right: "\u{2513}",
                top_left: "\u{250f}",
                bottom_right: "\u{251b}",
                bottom_left: "\u{2517}",
            },
        }
    }

    /// The box-drawing glyphs of this border weight.
    #[verifier::when_used_as_spec(spec_line_symbols)]
    pub fn line_symbols(self) -> (r: LineSet)
        ensures
            r == self.spec_line_symbols(),
    {
        match self {
            BorderType::Plain => LineSet {
                vertical: "\u{2502}",
                horizontal: "\u{2500}",
                top_right: "\u{2510}",
                top_left: "\u{250c}",
                bottom_right: "\u{2518}",
                bottom_left: "\u{2514}",
            },
            BorderType::Rounded => LineSet {
                vertical: "\u{2502}",
                horizontal: "\u{2500}",
                top_right: "\u{256e}",
                top_left: "\u{256d}",
                bottom_right: "\u{256f}",
                bottom_left: "\u{2570}",
            },
            BorderType::Double => LineSet {
                vertical: "\u{2551}",
                horizontal: "\u{2550}",
                top_right: "\u{2557}",
                top_left: "\u{2554}",
                bottom_right: "\u{255d}",
                bottom_left: "\u{255a}",
            },
            BorderType::Thick => LineSet {
                vertical: "\u{2503}",
                horizontal: "\u{2501}",
                top_right: "\u{2513}",
                top_left: "\u{250f}",
                bottom_right: "\u{251b}",
                bottom_left: "\u{2517}",
            },
        }
    }
}

/// The value that a cursor at `value` moves to when stepped by `amount`
/// between `lower` and `upper`: the sum, held to the bounds. Where the bounds
/// leave no room the cursor stays.
pub open spec fn bounded_step(value: int, lower: int, upper: int, amount: int) -> int {
    if lower > upper {
        value
    } else if value + amount < lower {
        lower
    } else if value + amount > upper {
        upper
    } else {
        value + amount
    }
}

/// Moves `value` by `amount`, stopping at `lower` and at `upper`.
pub fn generic_increment(value: &mut u32, lower: u32, upper: u32, amount: i32)
    ensures
        *final(value) == bounded_step(*old(value) as int, lower as int, upper as int, amount as int),
{
    if lower > upper {
        return ;
    }
    let target: i64 = *value as i64 + amount as i64;
    if target < lower as i64 {
        *value = lower;
    } else if target > upper as i64 {
        *value = upper;
    } else {
        *value = target as u32;
    }
}

/// Along a horizontal line every position keeps a well-formed grid well
/// formed, and positions off the line keep their cells.
pub proof fn lemma_hline(s: Surface, x: int, y: int, n: nat, symbol: Seq<char>, style: CellStyle)
    requires
        s.wf(),
    ensures
        s.hline(x, y, n, symbol, style).wf(),
        s.hline(x, y, n, symbol, style).area == s.area,
        forall|a: int, b: int|
            s.area.contains(a, b) && !(b == y && x <= a < x + n) ==> #[trigger] s.hline(
                x,
                y,
                n,
                symbol,
                style,
            ).at(a, b) == s.at(a, b),
    decreases n,
{
    if n > 0 {
        let before = s.hline(x, y, (n - 1) as nat, symbol, style);
        lemma_hline(s, x, y, (n - 1) as nat, symbol, style);
        lemma_plot(before, x + n - 1, y, symbol, style);
    }
}

/// Along a vertical line every position keeps a well-formed grid well
/// formed, and positions off the line keep their cells.
pub proof fn lemma_vline(s: Surface, x: int, y: int, n: nat, symbol: Seq<char>, style: CellStyle)
    requires
        s.wf(),
    ensures
        s.vline(x, y, n, symbol, style).wf(),
        s.vline(x, y, n, symbol, style).area == s.area,
        forall|a: int, b: int|
            s.area.contains(a, b) && !(a == x && y <= b < y + n) ==> #[trigger] s.vline(
                x,
                y,
                n,
                symbol,
                style,
            ).at(a, b) == s.at(a, b),
    decreases n,
{
    if n > 0 {
        let before = s.vline(x, y, (n - 1) as nat, symbol, style);
        lemma_vline(s, x, y, (n - 1) as nat, symbol, style);
        lemma_plot(before, x, y + n - 1, symbol, style);
    }
}

/// Draws `n` cells from `(x, y)` rightwards with `symbol`.
pub fn draw_hline(
    buf: &mut tui::buffer::Buffer,
    x: u32,
    y: u32,
    n: u16,
    symbol: &str,
    style: CellStyle,
)
    requires
        surface(*old(buf)).wf(),
    ensures
        surface(*final(buf)) == surface(*old(buf)).hline(
            x as int,
            y as int,
            n as nat,
            symbol@,
            style,
        ),
        surface(*final(buf)).wf(),
{
    let mut i: u16 = 0;
    while i < n
        invariant
            i <= n,
            surface(*buf).wf(),
            surface(*buf) == surface(*old(buf)).hline(x as int, y as int, i as nat, symbol@, style),
        decreases n - i,
    {
        if x <= 0xffff {
            plot_wide(buf, x + i as u32, y, symbol, style);
        } else {
            proof {
                lemma_plot(surface(*buf), x + i, y as int, symbol@, style);
            }
        }
        i = i + 1;
    }
}

/// Draws `n` cells from `(x, y)` downwards with `symbol`.
pub fn draw_vline(
    buf: &mut tui::buffer::Buffer,
    x: u32,
    y: u32,
    n: u16,
    symbol: &str,
    style: CellStyle,
)
    requires
        surface(*old(buf)).wf(),
    ensures
        surface(*final(buf)) == surface(*old(buf)).vline(
            x as int,
            y as int,
            n as nat,
            symbol@,
            style,
        ),
        surface(*final(buf)).wf(),
{
    let mut i: u16 = 0;
    while i < n
        invariant
            i <= n,
            surface(*buf).wf(),
            surface(*buf) == surface(*old(buf)).vline(x as int, y as int, i as nat, symbol@, style),
        decreases n - i,
    {
        if y <= 0xffff {
            plot_wide(buf, x, y + i as u32, symbol, style);
        } else {
            proof {
                lemma_plot(surface(*buf), x as int, y + i, symbol@, style);
            }
        }
        i = i + 1;
    }
}

/// The position `(x, y)` lies on the outer ring of `rect`.
pub open spec fn on_perimeter(rect: Rect, x: int, y: int) -> bool {
    rect.contains(x, y) && (x == rect.x || x == rect.x + rect.width - 1 || y == rect.y || y
        == rect.y + rect.height - 1)
}

/// The grid after the borders of `rect` were drawn: the four sides that
/// `borders` asks for, left, top, right, bottom, and then each corner whose
/// two sides are both asked for.
pub open spec fn bordered(
    s: Surface,
    rect: Rect,
    borders: Borders,
    set: LineSet,
    style: CellStyle,
) -> Surface {
    let x0 = rect.x as int;
    let y0 = rect.y as int;
    let x1 = rect.x + rect.width - 1;
    let y1 = rect.y + rect.height - 1;
    let w = rect.width as nat;
    let h = rect.height as nat;
    let a = if borders.left {
        s.vline(x0, y0, h, set.vertical@, style)
    } else {
        s
    };
    let b = if borders.top {
        a.hline(x0, y0, w, set.horizontal@, style)
    } else {
        a
    };
    let c = if borders.right {
        b.vline(x1, y0, h, set.vertical@, style)
    } else {
        b
    };
    let d = if borders.bottom {
        c.hline(x0, y1, w, set.horizontal@, style)
    } else {
        c
    };
    let e = if borders.right && borders.bottom {
        d.plot(x1, y1, set.bottom_right@, style)
    } else {
        d
    };
    let f = if borders.right && borders.top {
        e.plot(x1, y0, set.top_right@, style)
    } else {
        e
    };
    let g = if borders.left && borders.bottom {
        f.plot(x0, y1, set.bottom_left@, style)
    } else {
        f
    };
    if borders.left && borders.top {
        g.plot(x0, y0, set.top_left@, style)
    } else {
        g
    }
}

/// Drawing borders keeps a grid well formed and leaves every position that
/// is not on the rectangle's outer ring as it was.
pub proof fn lemma_bordered(
    s: Surface,
    rect: Rect,
    borders: Borders,
    set: LineSet,
    style: CellStyle,
)
    requires
        s.wf(),
        rect.width >= 1,
        rect.height >= 1,
    ensures
        bordered(s, rect, borders, set, style).wf(),
        bordered(s, rect, borders, set, style).area == s.area,
        forall|x: int, y: int|
            s.area.contains(x, y) && !on_perimeter(rect, x, y) ==> #[trigger] bordered(
                s,
                rect,
                borders,
                set,
                style,
            ).at(x, y) == s.at(x, y),
{
    let x0 = rect.x as int;
    let y0 = rect.y as int;
    let x1 = rect.x + rect.width - 1;
    let y1 = rect.y + rect.height - 1;
    let w = rect.width as nat;
    let h = rect.height as nat;
    let a = if borders.left {
        s.vline(x0, y0, h, set.vertical@, style)
    } else {
        s
    };
    lemma_vline(s, x0, y0, h, set.vertical@, style);
    let b = if borders.top {
        a.hline(x0, y0, w, set.horizontal@, style)
    } else {
        a
    };
    lemma_hline(a, x0, y0, w, set.horizontal@, style);
    let c = if borders.right {
        b.vline(x1, y0, h, set.vertical@, style)
    } else {
        b
    };
    lemma_vline(b, x1, y0, h, set.vertical@, style);
    let d = if borders.bottom {
        c.hline(x0, y1, w, set.horizontal@, style)
    } else {
        c
    };
    lemma_hline(c, x0, y1, w, set.horizontal@, style);
    let e = if borders.right && borders.bottom {
        d.plot(x1, y1, set.bottom_right@, style)
    } else {
        d
    };
    lemma_plot(d, x1, y1, set.bottom_right@, style);
    let f = if borders.right && borders.top {
        e.plot(x1, y0, set.top_right@, style)
    } else {
        e
    };
    lemma_plot(e, x1, y0, set.top_right@, style);
    let g = if borders.left && borders.bottom {
        f.plot(x0, y1, set.bottom_left@, style)
    } else {
        f
    };
    lemma_plot(f, x0, y1, set.bottom_left@, style);
    lemma_plot(g, x0, y0, set.top_left@, style);
}

/// Draws the sides of `rect` that `borders` asks for, and the corners between
/// two drawn sides, with the glyphs of `border_type`. Only positions on the
/// rectangle's outer ring are touched, and of those only the ones that lie
/// in the grid.
pub fn draw_rect_borders(
    buf: &mut tui::buffer::Buffer,
    rect: Rect,
    borders: Borders,
    border_type: BorderType,
    border_style: CellStyle,
)
    requires
        surface(*old(buf)).wf(),
        borders.any() ==> rect.width >= 1 && rect.height >= 1,
        rect.x + rect.width <= u16::MAX,
        rect.y + rect.height <= u16::MAX,
    ensures
        surface(*final(buf)) == bordered(
            surface(*old(buf)),
            rect,
            borders,
            border_type.line_symbols(),
            border_style,
        ),
        surface(*final(buf)).wf(),
        forall|x: int, y: int|
            buffer_area(*old(buf)).contains(x, y) && !on_perimeter(rect, x, y)
                ==> #[trigger] surface(*final(buf)).at(x, y) == surface(*old(buf)).at(x, y),
{
    let symbols = border_type.line_symbols();
    proof {
        if borders.any() {
            lemma_bordered(surface(*buf), rect, borders, symbols, border_style);
        }
    }
    if borders.left {
        draw_vline(buf, rect.x as u32, rect.y as u32, rect.height, symbols.vertical, border_style);
    }
    if borders.top {
        draw_hline(buf, rect.x as u32, rect.y as u32, rect.width, symbols.horizontal, border_style);
    }
    if borders.right {
        let x: u16 = rect.x + rect.width - 1;
        draw_vline(buf, x as u32, rect.y as u32, rect.height, symbols.vertical, border_style);
    }
    if borders.bottom {
        let y: u16 = rect.y + rect.height - 1;
        draw_hline(buf, rect.x as u32, y as u32, rect.width, symbols.horizontal, border_style);
    }
    if borders.right && borders.bottom {
        plot(
            buf,
            rect.x + rect.width - 1,
            rect.y + rect.height - 1,
            symbols.bottom_right,
            border_style,
        );
    }
    if borders.right && borders.top {
        plot(buf, rect.x + rect.width - 1, rect.y, symbols.top_right, border_style);
    }
    if borders.left && borders.bottom {
        plot(buf, rect.x, rect.y + rect.height - 1, symbols.bottom_left, border_style);
    }
    if borders.left && borders.top {
        plot(buf, rect.x, rect.y, symbols.top_left, border_style);
    }
}

/// Blanks every cell of `area` that lies in the grid; all other cells keep
/// what they held.
pub fn clear_area(buf: &mut tui::buffer::Buffer, area: Rect)
    requires
        surface(*old(buf)).wf(),
    ensures
        surface(*final(buf)) == surface(*old(buf)).cleared(area),
        surface(*final(buf)).wf(),
        forall|x: int, y: int|
            buffer_area(*old(buf)).contains(x, y) ==> #[trigger] surface(*final(buf)).at(x, y)
                == if area.contains(x, y) {
                Cell::blank()
            } else {
                surface(*old(buf)).at(x, y)
            },
{
    let right = area.right();
    let bottom = area.bottom();
    let mut y: u16 = area.top();
    while y < bottom
        invariant
            area.y <= y <= bottom,
            right == area.spec_right(),
            bottom == area.spec_bottom(),
            surface(*buf).wf(),
            buffer_area(*buf) == buffer_area(*old(buf)),
            forall|a: int, b: int|
                buffer_area(*old(buf)).contains(a, b) ==> #[trigger] surface(*buf).at(a, b) == if
                    area.contains(a, b) && b < y {
                    Cell::blank()
                } else {
                    surface(*old(buf)).at(a, b)
                },
        decreases bottom - y,
    {
        let mut x: u16 = area.left();
        while x < right
            invariant
                area.x <= x <= right,
                area.y <= y < bottom,
                right == area.spec_right(),
                bottom == area.spec_bottom(),
                surface(*buf).wf(),
                buffer_area(*buf) == buffer_area(*old(buf)),
                forall|a: int, b: int|
                    buffer_area(*old(buf)).contains(a, b) ==> #[trigger] surface(*buf).at(a, b)
                        == if area.contains(a, b) && (b < y || (b == y && a < x)) {
                        Cell::blank()
                    } else {
                        surface(*old(buf)).at(a, b)
                    },
            decreases right - x,
        {
            proof {
                lemma_wipe(surface(*buf), x as int, y as int);
            }
            wipe(buf, x, y);
            x = x + 1;
        }
        y = y + 1;
    }
    proof {
        let before = surface(*old(buf));
        let after = surface(*buf);
        assert forall|i: int| 0 <= i < after.cells.len() implies after.cells[i] == before.cleared(
            area,
        ).cells[i] by {
            lemma_index_position(before, i);
            let x = before.area.x + i % (before.area.width as int);
            let y = before.area.y + i / (before.area.width as int);
            assert(after.at(x, y) == after.cells[i]);
            assert(before.at(x, y) == before.cells[i]);
        }
        assert(after.cells =~= before.cleared(area).cells);
    }
}

/// The rectangle of `percent_x` by `percent_y` hundredths of `r`, set in
/// the middle of `r`: each size and each margin is a whole number of cells,
/// rounded down, so a cell left over goes to the right and to the bottom.
pub open spec fn centered(percent_x: u16, percent_y: u16, r: Rect) -> Rect {
    Rect {
        x: (r.x + r.width * ((100 - percent_x) / 2) / 100) as u16,
        y: (r.y + r.height * ((100 - percent_y) / 2) / 100) as u16,
        width: (r.width * percent_x / 100) as u16,
        height: (r.height * percent_y / 100) as u16,
    }
}

/// A share of a length, in hundredths, rounded down.
pub fn percent_of(length: u16, percent: u16) -> (r: u16)
    requires
        percent <= 100,
    ensures
        r == length * percent / 100,
        r <= length,
{
    assert(length * percent <= length * 100 && 0 <= length * percent) by (nonlinear_arith)
        requires
            0 <= percent <= 100,
            0 <= length,
    ;
    (length as u32 * percent as u32 / 100) as u16
}

/// The margin and the share of a centred part fit into the whole.
pub proof fn lemma_centered_fits(length: int, percent: int)
    requires
        0 <= length,
        0 <= percent <= 100,
    ensures
        length * ((100 - percent) / 2) / 100 + length * percent / 100 <= length,
        0 <= length * ((100 - percent) / 2) / 100,
        0 <= length * percent / 100,
{
    let m = (100 - percent) / 2;
    assert(length * m + length * percent <= length * 100 && 0 <= length * m && 0 <= length
        * percent) by (nonlinear_arith)
        requires
            0 <= length,
            0 <= m,
            0 <= percent,
            m + percent <= 100,
    ;
}

/// The rectangle of the given percentages of `r`'s width and height, in the
/// middle of `r`. It lies inside `r`.
pub fn centered_rect(percent_x: u16, percent_y: u16, r: Rect) -> (popup: Rect)
    requires
        percent_x <= 100,
        percent_y <= 100,
        r.x + r.width <= u16::MAX,
        r.y + r.height <= u16::MAX,
    ensures
        popup == centered(percent_x, percent_y, r),
        r.covers(popup),
{
    proof {
        lemma_centered_fits(r.width as int, percent_x as int);
        lemma_centered_fits(r.height as int, percent_y as int);
    }
    let margin_x = percent_of(r.width, (100 - percent_x) / 2);
    let margin_y = percent_of(r.height, (100 - percent_y) / 2);
    Rect {
        x: r.x + margin_x,
        y: r.y + margin_y,
        width: percent_of(r.width, percent_x),
        height: percent_of(r.height, percent_y),
    }
}

/// The command that tells how bright the screen is.
pub const BRIGHTNESS_COMMAND: &'static str = "light -G | tr -d '\\n'";

/// The command that tells how loud the sound is.
pub const VOLUME_COMMAND: &'static str =
    "awk -F\"[][]\" '/Left:/ { print $2 }' <(amixer sget Master) | tr -d '\\n%'";

/// The command that lists the events of a month, for a program that lies
/// under the directory `cwd`.
pub open spec fn events_command(cwd: Seq<char>, year: int, month: int, num_of_days: int) -> Seq<
    char,
> {
    "python "@ + cwd + "/src/get_events.py "@ + int_text(year) + seq![' '] + decimal(month as nat)
        + seq![' '] + int_text(num_of_days)
}

/// The command that lists the events of a month.
pub fn get_calendar_events(cwd: &str, year: i32, month: u32, num_of_days: i64) -> (r: String)
    ensures
        r@ == events_command(cwd@, year as int, month as int, num_of_days as int),
{
    let mut out = String::new();
    push_text(&mut out, "python ");
    push_text(&mut out, cwd);
    push_text(&mut out, "/src/get_events.py ");
    push_int(&mut out, year as i64);
    push_char(&mut out, ' ');
    push_decimal(&mut out, month as u64);
    push_char(&mut out, ' ');
    push_int(&mut out, num_of_days);
    assert(out@ == events_command(cwd@, year as int, month as int, num_of_days as int)) by {
        assert(Seq::<char>::empty() + "python "@ == "python "@);
    }
    out
}

/// The command that sets the brightness of the screen to `new_val`.
pub fn set_backlight(new_val: u16) -> (r: String)
    ensures
        r@ == "light -S "@ + decimal(new_val as nat),
{
    let mut out = String::new();
    push_text(&mut out, "light -S ");
    push_decimal(&mut out, new_val as u64);
    assert(Seq::<char>::empty() + "light -S "@ == "light -S "@);
    out
}

/// The command that sets the volume of the sound to `new_val` hundredths.
pub fn set_volume(new_val: u16) -> (r: String)
    ensures
        r@ == "amixer sset Master "@ + decimal(new_val as nat) + seq!['%'],
{
    let mut out = String::new();
    push_text(&mut out, "amixer sset Master ");
    push_decimal(&mut out, new_val as u64);
    push_char(&mut out, '%');
    assert(Seq::<char>::empty() + "amixer sset Master "@ == "amixer sset Master "@);
    out
}

/// The command that gives the colours of the desktop.
pub fn get_xresources() -> (r: &'static str)
    ensures
        r@ == "xresources_as_json"@,
{
    "xresources_as_json"
}

/// The brightness that the answer of the brightness command comes to, given
/// the number that the answer writes, rounded up to a whole, or nothing
/// where the answer writes no number: that number, held to the range of the
/// type, and nothing at all where there is none.
pub open spec fn brightness_of(rounded_up: Option<u64>) -> u16 {
    match rounded_up {
        Some(n) => if n > u16::MAX {
            u16::MAX
        } else {
            n as u16
        },
        None => 0,
    }
}

/// The brightness that the answer of the brightness command comes to.
pub fn get_brightness(rounded_up: Option<u64>) -> (r: u16)
    ensures
        r == brightness_of(rounded_up),
{
    match rounded_up {
        Some(n) => if n > 0xffff {
            0xffff
        } else {
            n as u16
        },
        None => 0,
    }
}

/// The volume that the answer of the volume command states: the whole
/// number that it writes, where that fits the type, with a plus sign in
/// front or without; none where the answer is anything else.
pub open spec fn volume_of(answer: Seq<char>) -> int {
    let body = if answer.len() > 0 && answer[0] == '+' {
        answer.subrange(1, answer.len() as int)
    } else {
        answer
    };
    if body.len() > 0 && all_digits(body) && number(body) <= u16::MAX {
        number(body) as int
    } else {
        0
    }
}

/// The volume that the answer of the volume command states.
pub fn get_volume(answer: &str) -> (r: u16)
    ensures
        r == volume_of(answer@),
{
    let n = answer.unicode_len();
    let body = if n > 0 && answer.get_char(0) == '+' {
        answer.substring_char(1, n)
    } else {
        answer
    };
    let len = body.unicode_len();
    if len == 0 {
        return 0;
    }
    let mut value: u32 = 0;
    let mut i: usize = 0;
    while i < len
        invariant
            i <= len,
            len == body@.len(),
            value <= u16::MAX,
            volume_of(answer@) == if body@.len() > 0 && all_digits(body@) && number(body@)
                <= u16::MAX {
                number(body@) as int
            } else {
                0
            },
            all_digits(body@.take(i as int)),
            value == number(body@.take(i as int)),
        decreases len - i,
    {
        let c = body.get_char(i);
        if !(c >= '0' && c <= '9') {
            assert(!all_digits(body@)) by {
                assert(body@[i as int] == c);
            }
            return 0;
        }
        proof {
            assert(body@.take(i + 1).drop_last() == body@.take(i as int));
            assert(body@.take(i + 1).last() == c);
            assert(all_digits(body@.take(i + 1))) by {
                assert forall|k: int| 0 <= k < i + 1 implies '0' <= #[trigger] body@.take(i + 1)[k]
                    && body@.take(i + 1)[k] <= '9' by {
                    if k < i {
                        assert(body@.take(i + 1)[k] == body@.take(i as int)[k]);
                    }
                }
            }
        }
        value = value * 10 + (c as u32 - 48);
        if value > 0xffff {
            proof {
                if all_digits(body@) {
                    lemma_number_grows(body@, i + 1);
                }
            }
            return 0;
        }
        i = i + 1;
    }
    assert(body@.take(len as int) == body@);
    value as u16
}

/// A bounded step is clamped and saturating: it ends between the bounds; a
/// cursor at the lower bound that is stepped downwards stays there, and so
/// does one at the upper bound that is stepped upwards; and where the sum
/// lies between the bounds it is the sum.
pub proof fn law_bounded_step(value: int, lower: int, upper: int, amount: int)
    requires
        lower <= upper,
    ensures
        lower <= bounded_step(value, lower, upper, amount) <= upper,
        value <= lower && amount <= 0 ==> bounded_step(value, lower, upper, amount) == lower,
        value >= upper && amount >= 0 ==> bounded_step(value, lower, upper, amount) == upper,
        lower <= value + amount <= upper ==> bounded_step(value, lower, upper, amount) == value
            + amount,
{
}

/// Stepping a cursor downwards again and again from the lower bound leaves
/// it at the lower bound.
pub proof fn law_bounded_step_repeated(lower: int, upper: int, amounts: Seq<int>)
    requires
        lower <= upper,
        forall|i: int| 0 <= i < amounts.len() ==> #[trigger] amounts[i] <= 0,
    ensures
        stepped_through(lower, lower, upper, amounts) == lower,
    decreases amounts.len(),
{
    if amounts.len() > 0 {
        law_bounded_step_repeated(lower, upper, amounts.drop_last());
    }
}

/// The value of a cursor after it was stepped by each of the amounts in
/// turn.
pub open spec fn stepped_through(value: int, lower: int, upper: int, amounts: Seq<int>) -> int
    decreases amounts.len(),
{
    if amounts.len() == 0 {
        value
    } else {
        bounded_step(
            stepped_through(value, lower, upper, amounts.drop_last()),
            lower,
            upper,
            amounts.last(),
        )
    }
}

/// A value held between two bounds: the larger of the lower bound and of
/// the smaller of the upper bound and the value.
pub open spec fn held(value: int, lower: int, upper: int) -> int {
    if value < lower {
        lower
    } else if value > upper {
        upper
    } else {
        value
    }
}

/// A bounded step is the sum of value and amount, held between the bounds.
pub proof fn law_bounded_step_is_sum_held(value: int, lower: int, upper: int, amount: int)
    requires
        lower <= upper,
    ensures
        bounded_step(value, lower, upper, amount) == held(value + amount, lower, upper),
{
}

} // verus!
