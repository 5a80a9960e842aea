//! A popup: a bordered box over the middle of the screen that holds a
//! paragraph.

use crate::styles::{AppStyles, ColorData};
use crate::surface::{draw_paragraph, line_texts, surface, Rect, Surface};
use crate::util::{bordered, centered, centered_rect, clear_area, draw_rect_borders, BorderType, Borders};
use vstd::prelude::*;

verus! {

/// A popup with the lines of its paragraph and its size in hundredths of
/// the area that it is drawn over.
#[derive(Debug)]
pub struct Popup {
    pub lines: Vec<String>,
    pub width_percent: u16,
    pub height_percent: u16,
}

/// The inside of the border of a popup.
pub open spec fn popup_inner(popup: Rect) -> Rect {
    Rect {
        x: (popup.x + 1) as u16,
        y: (popup.y + 1) as u16,
        width: (popup.width - 2) as u16,
        height: (popup.height - 2) as u16,
    }
}

/// The grid after a popup was drawn over the middle of `area`: its box is
/// blanked, gets a thick border, and holds the paragraph. A box without
/// room inside the border is not drawn.
pub open spec fn popup_drawn(
    s: Surface,
    area: Rect,
    lines: Seq<Seq<char>>,
    width_percent: u16,
    height_percent: u16,
    colors: ColorData,
) -> Surface {
    let popup = centered(width_percent, height_percent, area);
    if popup.width >= 2 && popup.height >= 2 {
        bordered(
            s.cleared(popup),
            popup,
            Borders::all(),
            BorderType::Thick.line_symbols(),
            AppStyles::Main.get(colors),
        ).with_paragraph(popup_inner(popup), lines)
    } else {
        s
    }
}

impl Popup {
    /// A popup.
    pub fn new(lines: Vec<String>, width_percent: u16, height_percent: u16) -> (r: Popup)
        ensures
            r.lines == lines,
            r.width_percent == width_percent,
            r.height_percent == height_percent,
    {
        Popup { lines, width_percent, height_percent }
    }

    /// Draws the popup over the middle of `area`.
    pub fn render(self, area: Rect, buf: &mut tui::buffer::Buffer, colors: ColorData)
        requires
            surface(*old(buf)).wf(),
            self.width_percent <= 100,
            self.height_percent <= 100,
            area.x + area.width <= u16::MAX,
            area.y + area.height <= u16::MAX,
        ensures
            surface(*final(buf)) == popup_drawn(
                surface(*old(buf)),
                area,
                line_texts(self.lines@),
                self.width_percent,
                self.height_percent,
                colors,
            ),
            surface(*final(buf)).wf(),
    {
        let popup = centered_rect(self.width_percent, self.height_percent, area);
        if popup.width >= 2 && popup.height >= 2 {
            clear_area(buf, popup);
            draw_rect_borders(
                buf,
                popup,
                Borders::all(),
                BorderType::Thick,
                AppStyles::Main.get(colors),
            );
            let inner = Rect {
                x: popup.x + 1,
                y: popup.y + 1,
                width: popup.width - 2,
                height: popup.height - 2,
            };
            draw_paragraph(buf, inner, &self.lines);
        }
    }
}

} // verus!
