//! Large letters: a text set in the glyphs of the standard FIGlet font.

use crate::surface::{draw_text_wide, surface, CellStyle, Rect, Surface};
use crate::text::{push_char, push_text};
use vstd::prelude::*;
use vstd::string::StrSliceExecFns;

verus! {

/// The glyphs that `FIGfont::convert` finds for a text in the standard font,
/// each as its rows from the top; nothing where the text is empty or none of
/// its characters has a glyph.
pub uninterp spec fn figure_glyphs(message: Seq<char>) -> Option<Seq<Seq<Seq<char>>>>;

/// The rows of a glyph.
pub open spec fn glyph_rows(glyph: Vec<String>) -> Seq<Seq<char>> {
    Seq::new(glyph@.len(), |i: int| glyph@[i]@)
}

/// The glyphs of a figure.
pub open spec fn glyphs_of(figure: Vec<Vec<String>>) -> Seq<Seq<Seq<char>>> {
    Seq::new(figure@.len(), |i: int| glyph_rows(figure@[i]))
}

/// `FIGfont::standard`, then `FIGfont::convert`: the rows of the glyph of
/// each character of the text that the font has. An empty text has no
/// figure, and a figure has a glyph at least and no more glyphs than the
/// text has characters.
#[verifier::external_body]
pub(crate) fn figure_rows(message: &str) -> (r: Option<Vec<Vec<String>>>)
    ensures
        (match r {
            Some(figure) => Some(glyphs_of(figure)),
            None => None,
        }) == figure_glyphs(message@),
        message@.len() == 0 ==> r is None,
        r matches Some(figure) ==> 1 <= figure@.len() <= message@.len(),
{
    let font = figlet_rs::FIGfont::standard().ok()?;
    let figure = font.convert(message)?;
    Some(figure.characters.iter().map(|c| c.characters.clone()).collect())
}

/// One character of a figure and where it stands.
pub struct Stamp {
    pub x: int,
    pub y: int,
    pub c: char,
}

/// The first `n` rows of a glyph, with a line break between every two.
pub open spec fn joined_rows(rows: Seq<Seq<char>>, n: nat) -> Seq<char>
    decreases n,
{
    if n == 0 {
        Seq::empty()
    } else if n == 1 {
        rows[0]
    } else {
        joined_rows(rows, (n - 1) as nat) + seq!['\n'] + rows[n - 1]
    }
}

/// The length of the longest of the first `n` rows of a glyph.
pub open spec fn widest_row(rows: Seq<Seq<char>>, n: nat) -> nat
    decreases n,
{
    if n == 0 {
        0
    } else if rows[n - 1].len() > widest_row(rows, (n - 1) as nat) {
        rows[n - 1].len()
    } else {
        widest_row(rows, (n - 1) as nat)
    }
}

/// Where the pen stands within a glyph, and what was stamped so far.
pub struct Pen {
    pub ox: int,
    pub oy: int,
    pub stamps: Seq<Stamp>,
}

/// The pen after the first `n` characters of the text of a glyph that
/// begins `x` columns into the figure. A line break takes the pen to the
/// start of the next row; any other character moves it one column on and is
/// stamped there, unless that lies more than the width to the right or
/// more than the height below the corner of `rect`.
pub open spec fn glyph_pen(rect: Rect, x: int, text: Seq<char>, stamps: Seq<Stamp>, n: nat) -> Pen
    decreases n,
{
    if n == 0 {
        Pen { ox: 0, oy: 0, stamps }
    } else {
        let p = glyph_pen(rect, x, text, stamps, (n - 1) as nat);
        let c = text[n - 1];
        if c == '\n' {
            Pen { ox: 0, oy: p.oy + 1, stamps: p.stamps }
        } else {
            let px = rect.x + p.ox + 1 + x;
            let py = rect.y + p.oy;
            Pen {
                ox: p.ox + 1,
                oy: p.oy,
                stamps: if px <= rect.x + rect.width && py <= rect.y + rect.height {
                    p.stamps.push(Stamp { x: px, y: py, c })
                } else {
                    p.stamps
                },
            }
        }
    }
}

/// How wide a figure is so far, and what was stamped.
pub struct Figure {
    pub x: int,
    pub stamps: Seq<Stamp>,
}

/// The figure of the first `n` glyphs: each glyph begins where the one
/// before it ends, and is as wide as its longest row.
pub open spec fn figure_of(rect: Rect, glyphs: Seq<Seq<Seq<char>>>, n: nat) -> Figure
    decreases n,
{
    if n == 0 {
        Figure { x: 0, stamps: Seq::empty() }
    } else {
        let f = figure_of(rect, glyphs, (n - 1) as nat);
        let rows = glyphs[n - 1];
        let text = joined_rows(rows, rows.len());
        Figure {
            x: f.x + widest_row(rows, rows.len()),
            stamps: glyph_pen(rect, f.x, text, f.stamps, text.len()).stamps,
        }
    }
}

/// The leftmost column of the first `n` stamps.
pub open spec fn min_x(stamps: Seq<Stamp>, n: nat) -> int
    decreases n,
{
    if n <= 1 {
        stamps[0].x
    } else if stamps[n - 1].x < min_x(stamps, (n - 1) as nat) {
        stamps[n - 1].x
    } else {
        min_x(stamps, (n - 1) as nat)
    }
}

/// The rightmost column of the first `n` stamps.
pub open spec fn max_x(stamps: Seq<Stamp>, n: nat) -> int
    decreases n,
{
    if n <= 1 {
        stamps[0].x
    } else if stamps[n - 1].x > max_x(stamps, (n - 1) as nat) {
        stamps[n - 1].x
    } else {
        max_x(stamps, (n - 1) as nat)
    }
}

/// The topmost row of the first `n` stamps.
pub open spec fn min_y(stamps: Seq<Stamp>, n: nat) -> int
    decreases n,
{
    if n <= 1 {
        stamps[0].y
    } else if stamps[n - 1].y < min_y(stamps, (n - 1) as nat) {
        stamps[n - 1].y
    } else {
        min_y(stamps, (n - 1) as nat)
    }
}

/// The lowest row of the first `n` stamps.
pub open spec fn max_y(stamps: Seq<Stamp>, n: nat) -> int
    decreases n,
{
    if n <= 1 {
        stamps[0].y
    } else if stamps[n - 1].y > max_y(stamps, (n - 1) as nat) {
        stamps[n - 1].y
    } else {
        max_y(stamps, (n - 1) as nat)
    }
}

/// The grid after the first `n` stamps were printed, each moved `shift`
/// columns to the right.
pub open spec fn stamps_drawn(
    s: Surface,
    stamps: Seq<Stamp>,
    shift: int,
    style: CellStyle,
    n: nat,
) -> Surface
    decreases n,
{
    if n == 0 {
        s
    } else {
        stamps_drawn(s, stamps, shift, style, (n - 1) as nat).with_text(
            stamps[n - 1].x + shift,
            stamps[n - 1].y,
            seq![stamps[n - 1].c],
            style,
        )
    }
}

/// What a text in large letters comes to in `rect`: its stamps, or none
/// where the font has no glyph for it.
pub open spec fn ascii_stamps(rect: Rect, text: Seq<char>) -> Seq<Stamp> {
    match figure_glyphs(text) {
        Some(glyphs) => figure_of(rect, glyphs, glyphs.len()).stamps,
        None => Seq::empty(),
    }
}

/// How far the stamps are moved to the right: so that they stand in the
/// middle of `rect` where that is asked for, else not at all.
pub open spec fn ascii_shift(rect: Rect, stamps: Seq<Stamp>, center_x: bool) -> int {
    if center_x && stamps.len() > 0 {
        rect.width / 2 - (max_x(stamps, stamps.len()) - min_x(stamps, stamps.len())) / 2 - 1
    } else {
        0
    }
}

/// The width and the height that the stamps span, less one each.
pub open spec fn ascii_extent(stamps: Seq<Stamp>) -> (int, int) {
    if stamps.len() == 0 {
        (0, 0)
    } else {
        (
            max_x(stamps, stamps.len()) - min_x(stamps, stamps.len()),
            max_y(stamps, stamps.len()) - min_y(stamps, stamps.len()),
        )
    }
}

/// A stamp as the drawing routine keeps it.
pub struct Mark {
    pub x: u32,
    pub y: u32,
    pub c: char,
}

/// The stamps that marks stand for.
pub open spec fn marks_view(marks: Seq<Mark>) -> Seq<Stamp> {
    Seq::new(marks.len(), |i: int| Stamp { x: marks[i].x as int, y: marks[i].y as int, c: marks[i].c })
}

/// Every mark lies right of the corner of `rect`, the width at most, and
/// from its top downwards, the height at most.
pub open spec fn marks_within(rect: Rect, marks: Seq<Mark>) -> bool {
    forall|i: int|
        0 <= i < marks.len() ==> rect.x < (#[trigger] marks[i]).x <= rect.x + rect.width && rect.y
            <= marks[i].y <= rect.y + rect.height
}

/// The text of a glyph: its rows with line breaks between them.
fn glyph_text(rows: &Vec<String>) -> (r: (String, usize))
    ensures
        r.0@ == joined_rows(glyph_rows(*rows), rows@.len()),
        r.1 == widest_row(glyph_rows(*rows), rows@.len()),
{
    let ghost view = glyph_rows(*rows);
    let mut text = String::new();
    let mut widest: usize = 0;
    let n = rows.len();
    let mut k: usize = 0;
    while k < n
        invariant
            k <= n,
            n == rows@.len(),
            view == glyph_rows(*rows),
            text@ == joined_rows(view, k as nat),
            widest == widest_row(view, k as nat),
        decreases n - k,
    {
        if k > 0 {
            push_char(&mut text, '\n');
        }
        push_text(&mut text, rows[k].as_str());
        let len = rows[k].as_str().unicode_len();
        if len > widest {
            widest = len;
        }
        proof {
            assert(view[k as int] == rows@[k as int]@);
            if k == 0 {
                assert(Seq::<char>::empty() + view[0] == view[0]);
            } else {
                assert(joined_rows(view, (k + 1) as nat) == joined_rows(view, k as nat) + seq!['\n']
                    + view[k as int]);
                assert(joined_rows(view, k as nat).push('\n') == joined_rows(view, k as nat)
                    + seq!['\n']);
            }
        }
        k = k + 1;
    }
    (text, widest)
}

/// A glyph that begins beyond the width of the rectangle stamps nothing.
proof fn lemma_pen_beyond(rect: Rect, x: int, text: Seq<char>, stamps: Seq<Stamp>, n: nat)
    requires
        x > rect.width,
        n <= text.len(),
    ensures
        glyph_pen(rect, x, text, stamps, n).stamps == stamps,
        glyph_pen(rect, x, text, stamps, n).ox >= 0,
    decreases n,
{
    if n > 0 {
        lemma_pen_beyond(rect, x, text, stamps, (n - 1) as nat);
    }
}

/// Stamps the characters of one glyph.
fn stamp_glyph(rect: Rect, x: u128, text: &str, marks: &mut Vec<Mark>)
    requires
        marks_within(rect, old(marks)@),
    ensures
        marks_within(rect, final(marks)@),
        marks_view(final(marks)@) == glyph_pen(
            rect,
            x as int,
            text@,
            marks_view(old(marks)@),
            text@.len(),
        ).stamps,
{
    let n = text.unicode_len();
    if x > 0xffff {
        proof {
            lemma_pen_beyond(rect, x as int, text@, marks_view(marks@), n as nat);
        }
        return ;
    }
    let mut ox: usize = 0;
    let mut oy: usize = 0;
    let mut i: usize = 0;
    while i < n
        invariant
            i <= n,
            n == text@.len(),
            ox <= i,
            oy <= i,
            x <= 0xffff,
            marks_within(rect, marks@),
            glyph_pen(rect, x as int, text@, marks_view(old(marks)@), i as nat) == (Pen {
                ox: ox as int,
                oy: oy as int,
                stamps: marks_view(marks@),
            }),
        decreases n - i,
    {
        let c = text.get_char(i);
        if c == '\n' {
            oy = oy + 1;
            ox = 0;
        } else {
            let px: u128 = rect.x as u128 + ox as u128 + 1 + x;
            let py: u128 = rect.y as u128 + oy as u128;
            if px <= rect.x as u128 + rect.width as u128 && py <= rect.y as u128 + rect.height
                as u128 {
                let ghost before = marks_view(marks@);
                marks.push(Mark { x: px as u32, y: py as u32, c });
                assert(marks_view(marks@) =~= before.push(
                    Stamp { x: px as int, y: py as int, c },
                ));
            }
            ox = ox + 1;
        }
        i = i + 1;
    }
}

/// The stamps of a figure: what its glyphs, set side by side from the corner
/// of `rect`, come to.
pub fn stamp_figure(rect: Rect, figure: &Vec<Vec<String>>) -> (marks: Vec<Mark>)
    ensures
        marks_within(rect, marks@),
        marks_view(marks@) == figure_of(rect, glyphs_of(*figure), figure@.len()).stamps,
{
    let ghost glyphs = glyphs_of(*figure);
    let mut marks: Vec<Mark> = Vec::new();
    let mut x: u128 = 0;
    let n = figure.len();
    let mut g: usize = 0;
    assert(marks_view(marks@) =~= Seq::<Stamp>::empty());
    while g < n
        invariant
            g <= n,
            n == figure@.len(),
            glyphs == glyphs_of(*figure),
            x <= g * 0x1_0000_0000_0000_0000,
            marks_within(rect, marks@),
            figure_of(rect, glyphs, g as nat) == (Figure {
                x: x as int,
                stamps: marks_view(marks@),
            }),
        decreases n - g,
    {
        let (text, widest) = glyph_text(&figure[g]);
        assert(glyphs[g as int] == glyph_rows(figure@[g as int]));
        assert(g * 0x1_0000_0000_0000_0000 + 0x1_0000_0000_0000_0000 == (g + 1)
            * 0x1_0000_0000_0000_0000 && (g + 1) * 0x1_0000_0000_0000_0000
            <= 0x1_0000_0000_0000_0000 * 0x1_0000_0000_0000_0000) by (nonlinear_arith)
            requires
                g < 0x1_0000_0000_0000_0000,
        ;
        stamp_glyph(rect, x, text.as_str(), &mut marks);
        x = x + widest as u128;
        g = g + 1;
    }
    marks
}

/// The extremes of stamps lie among the stamps.
proof fn lemma_extremes(stamps: Seq<Stamp>, n: nat, lo_x: int, hi_x: int, lo_y: int, hi_y: int)
    requires
        1 <= n <= stamps.len(),
        forall|i: int|
            0 <= i < stamps.len() ==> lo_x <= (#[trigger] stamps[i]).x <= hi_x && lo_y
                <= stamps[i].y <= hi_y,
    ensures
        lo_x <= min_x(stamps, n) <= max_x(stamps, n) <= hi_x,
        lo_y <= min_y(stamps, n) <= max_y(stamps, n) <= hi_y,
    decreases n,
{
    if n > 1 {
        lemma_extremes(stamps, (n - 1) as nat, lo_x, hi_x, lo_y, hi_y);
    }
}

/// Sets `string` in large letters into `rect`, from its top left corner or,
/// where `center_x` asks for it, in the middle of its width, and gives the
/// width and the height that the letters span, less one each. Letters that
/// lie beyond the rectangle are left out, and so are those outside the grid.
/// A text that the font has no glyph for draws nothing and spans nothing.
pub fn draw_ascii_string(
    buf: &mut tui::buffer::Buffer,
    rect: Rect,
    string: &str,
    style: CellStyle,
    center_x: bool,
    center_y: bool,
) -> (extent: (u16, u16))
    requires
        surface(*old(buf)).wf(),
    ensures
        surface(*final(buf)) == stamps_drawn(
            surface(*old(buf)),
            ascii_stamps(rect, string@),
            ascii_shift(rect, ascii_stamps(rect, string@), center_x),
            style,
            ascii_stamps(rect, string@).len(),
        ),
        surface(*final(buf)).wf(),
        (extent.0 as int, extent.1 as int) == ascii_extent(ascii_stamps(rect, string@)),
{
    let figure = match figure_rows(string) {
        Some(figure) => figure,
        None => {
            return (0, 0);
        },
    };
    let marks = stamp_figure(rect, &figure);
    let ghost stamps = marks_view(marks@);
    proof {
        assert(stamps == ascii_stamps(rect, string@));
    }
    let n = marks.len();
    if n == 0 {
        return (0, 0);
    }
    let mut lo_x: u32 = marks[0].x;
    let mut hi_x: u32 = marks[0].x;
    let mut lo_y: u32 = marks[0].y;
    let mut hi_y: u32 = marks[0].y;
    let mut i: usize = 1;
    while i < n
        invariant
            1 <= i <= n,
            n == marks@.len(),
            stamps == marks_view(marks@),
            lo_x == min_x(stamps, i as nat),
            hi_x == max_x(stamps, i as nat),
            lo_y == min_y(stamps, i as nat),
            hi_y == max_y(stamps, i as nat),
        decreases n - i,
    {
        let m = &marks[i];
        assert(stamps[i as int].x == m.x && stamps[i as int].y == m.y);
        if m.x < lo_x {
            lo_x = m.x;
        }
        if m.x > hi_x {
            hi_x = m.x;
        }
        if m.y < lo_y {
            lo_y = m.y;
        }
        if m.y > hi_y {
            hi_y = m.y;
        }
        i = i + 1;
    }
    proof {
        assert forall|i: int| 0 <= i < stamps.len() implies rect.x + 1 <= (#[trigger] stamps[i]).x
            <= rect.x + rect.width && rect.y <= stamps[i].y <= rect.y + rect.height by {
            assert(stamps[i].x == marks@[i].x && stamps[i].y == marks@[i].y);
        }
        lemma_extremes(
            stamps,
            n as nat,
            rect.x + 1,
            rect.x + rect.width,
            rect.y as int,
            rect.y + rect.height,
        );
    }
    let shift: i64 = if center_x {
        (rect.width / 2) as i64 - ((hi_x - lo_x) / 2) as i64 - 1
    } else {
        0
    };
    let mut k: usize = 0;
    while k < n
        invariant
            k <= n,
            n == marks@.len(),
            stamps == marks_view(marks@),
            -0x1_0000 <= shift <= 0x1_0000,
            surface(*buf).wf(),
            surface(*buf) == stamps_drawn(surface(*old(buf)), stamps, shift as int, style, k as nat),
        decreases n - k,
    {
        let m = &marks[k];
        assert(stamps[k as int] == Stamp { x: m.x as int, y: m.y as int, c: m.c });
        let column: i64 = m.x as i64 + shift;
        let mut letter = String::new();
        push_char(&mut letter, m.c);
        assert(letter@ == seq![m.c]);
        if column >= 0 && column <= 0xffff_ffff {
            draw_text_wide(buf, column as u32, m.y, letter.as_str(), style);
        }
        k = k + 1;
    }
    ((hi_x - lo_x) as u16, (hi_y - lo_y) as u16)
}

} // verus!
