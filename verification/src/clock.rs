//! The clock: the time in large letters and the date below it.

use crate::ascii::{ascii_extent, ascii_shift, ascii_stamps, draw_ascii_string, stamps_drawn};
use crate::date::{clock_text, clock_text_of, date_long, date_long_of, Date};
use crate::styles::{AppStyles, ColorData};
use crate::surface::{draw_text_wide, surface, CellStyle, Rect, Surface};
use crate::util::{bordered, draw_rect_borders, BorderType, Borders};
use vstd::prelude::*;

verus! {

/// The moment that the clock shows. It is replaced as a whole whenever the
/// clock is brought up to date.
#[derive(Clone, Copy, Debug, PartialEq, Eq, Structural)]
pub struct ClockState {
    pub date: Date,
    pub hour: u32,
    pub minute: u32,
}

impl ClockState {
    /// The clock at a moment.
    pub fn new(date: Date, hour: u32, minute: u32) -> (r: ClockState)
        ensures
            r == (ClockState { date, hour, minute }),
    {
        ClockState { date, hour, minute }
    }
}

/// The widget that draws the clock.
#[derive(Clone, Copy, Debug)]
pub struct Clock {
    pub with_border: bool,
}

/// The area has room inside a border and lies in the coordinate range.
pub open spec fn clock_fits(area: Rect) -> bool {
    &&& area.width >= 2
    &&& area.height >= 2
    &&& area.x + area.width <= u16::MAX
    &&& area.y + area.height <= u16::MAX
}

/// The inside of the border of the clock.
pub open spec fn clock_inner(area: Rect) -> Rect {
    Rect {
        x: (area.x + 1) as u16,
        y: (area.y + 1) as u16,
        width: (area.width - 2) as u16,
        height: (area.height - 2) as u16,
    }
}

/// The grid after the clock was drawn into `area`: a plain border where the
/// clock has one, the time in large letters in the middle of the width, and
/// the date in the second column of the grid, two rows further down than
/// the letters are high.
pub open spec fn clock_drawn(
    s: Surface,
    area: Rect,
    with_border: bool,
    state: ClockState,
    colors: ColorData,
) -> Surface {
    let main = AppStyles::Main.get(colors);
    let inner = clock_inner(area);
    let stamps = ascii_stamps(inner, clock_text(state.hour as nat, state.minute as nat));
    stamps_drawn(
        bordered(
            s,
            area,
            if with_border {
                Borders::all()
            } else {
                Borders::none()
            },
            BorderType::Plain.line_symbols(),
            main,
        ),
        stamps,
        ascii_shift(inner, stamps, true),
        main,
        stamps.len(),
    ).with_text(1, ascii_extent(stamps).1 + 2, date_long(state.date), CellStyle::plain())
}

impl Clock {
    /// A clock with a border or without.
    pub fn new(with_border: bool) -> (r: Clock)
        ensures
            r.with_border == with_border,
    {
        Clock { with_border }
    }

    /// Whether `area` has room for the clock.
    pub fn fits(area: Rect) -> (r: bool)
        ensures
            r == clock_fits(area),
    {
        area.width >= 2 && area.height >= 2 && area.x as u32 + area.width as u32 <= 0xffff
            && area.y as u32 + area.height as u32 <= 0xffff
    }

    /// Draws the clock into `area`.
    pub fn render(
        self,
        area: Rect,
        buf: &mut tui::buffer::Buffer,
        state: &mut ClockState,
        colors: ColorData,
    )
        requires
            surface(*old(buf)).wf(),
            clock_fits(area),
        ensures
            surface(*final(buf)) == clock_drawn(
                surface(*old(buf)),
                area,
                self.with_border,
                *old(state),
                colors,
            ),
            surface(*final(buf)).wf(),
            *final(state) == *old(state),
    {
        let cur_time = clock_text_of(state.hour, state.minute);
        let cur_date = date_long_of(state.date);
        let main = AppStyles::Main.get(colors);
        draw_rect_borders(
            buf,
            area,
            if self.with_border {
                Borders::all()
            } else {
                Borders::none()
            },
            BorderType::Plain,
            main,
        );
        let inner = Rect {
            x: area.x + 1,
            y: area.y + 1,
            width: area.width - 2,
            height: area.height - 2,
        };
        let (_, text_height) = draw_ascii_string(buf, inner, cur_time.as_str(), main, true, false);
        draw_text_wide(buf, 1, text_height as u32 + 2, cur_date.as_str(), CellStyle::plain());
    }
}

} // verus!
