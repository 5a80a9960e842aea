//! The wait popup: the last frame with a notice over its middle, shown
//! while the dashboard waits for the store or for a command.

use crate::styles::{AppStyles, ColorData};
use crate::surface::{draw_text_wide, merge, surface, Rect, Surface};
use crate::text::{center, centered_text};
use crate::util::{bordered, centered, centered_rect, clear_area, draw_rect_borders, BorderType, Borders};
use vstd::prelude::*;

verus! {

/// The wait popup over the grid of the last frame.
pub struct WaitPopup<'a> {
    pub old_buffer: &'a tui::buffer::Buffer,
}

/// The grid after the wait popup was drawn: the last frame is laid over the
/// grid, and over the middle of `area` a blanked box with a plain border
/// says to wait. A box without room inside the border is not drawn.
pub open spec fn wait_popup_drawn(s: Surface, old_frame: Surface, area: Rect, colors: ColorData)
    -> Surface {
    let merged = s.merged(old_frame);
    let rect = centered(50, 50, area);
    let main = AppStyles::Main.get(colors);
    if rect.width >= 2 && rect.height >= 2 {
        bordered(
            merged.cleared(rect),
            rect,
            Borders::all(),
            BorderType::Plain.line_symbols(),
            main,
        ).with_text(
            rect.x + 1,
            rect.y + 1 + (rect.height - 2) / 2,
            centered_text("Please Wait"@, (rect.width - 2) as nat, ' '),
            main,
        )
    } else {
        merged
    }
}

impl<'a> WaitPopup<'a> {
    /// The wait popup over the grid of the last frame.
    pub fn new(old_buffer: &'a tui::buffer::Buffer) -> (r: WaitPopup<'a>)
        ensures
            r.old_buffer == old_buffer,
    {
        WaitPopup { old_buffer }
    }

    /// Draws the wait popup over the middle of `area`.
    pub fn render(self, area: Rect, buf: &mut tui::buffer::Buffer, colors: ColorData)
        requires
            surface(*old(buf)).wf(),
            surface(*self.old_buffer).wf(),
            area.x + area.width <= u16::MAX,
            area.y + area.height <= u16::MAX,
        ensures
            surface(*final(buf)) == wait_popup_drawn(
                surface(*old(buf)),
                surface(*self.old_buffer),
                area,
                colors,
            ),
            surface(*final(buf)).wf(),
    {
        merge(buf, self.old_buffer);
        let rect = centered_rect(50, 50, area);
        if rect.width >= 2 && rect.height >= 2 {
            let main = AppStyles::Main.get(colors);
            clear_area(buf, rect);
            draw_rect_borders(buf, rect, Borders::all(), BorderType::Plain, main);
            let notice = center("Please Wait", (rect.width - 2) as usize, ' ');
            draw_text_wide(
                buf,
                rect.x as u32 + 1,
                rect.y as u32 + 1 + ((rect.height - 2) / 2) as u32,
                notice.as_str(),
                main,
            );
        }
    }
}

} // verus!
