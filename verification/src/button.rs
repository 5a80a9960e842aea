//! A button: a bordered box with a caption.

use crate::styles::{AppStyles, ColorData};
use crate::surface::{draw_text, surface, Rect, Surface};
use crate::util::{bordered, draw_rect_borders, BorderType, Borders};
use vstd::prelude::*;

verus! {

/// A button.
#[derive(Debug)]
pub struct Button {
    pub text: String,
    pub is_selected: bool,
}

/// The box of a button has a cell at least and lies in the coordinate range.
pub open spec fn button_fits(area: Rect) -> bool {
    &&& area.width >= 1
    &&& area.height >= 1
    &&& area.x + area.width <= u16::MAX
    &&& area.y + area.height <= u16::MAX
}

/// The grid after a button was drawn into `area`: a plain border in the
/// style of a selected or of a deselected button, where the box has a cell,
/// and the caption from the top left corner in the background style.
pub open spec fn button_drawn(
    s: Surface,
    area: Rect,
    text: Seq<char>,
    is_selected: bool,
    colors: ColorData,
) -> Surface {
    let framed = if button_fits(area) {
        bordered(
            s,
            area,
            Borders::all(),
            BorderType::Plain.line_symbols(),
            if is_selected {
                AppStyles::ButtonSelected.get(colors)
            } else {
                AppStyles::ButtonDeselected.get(colors)
            },
        )
    } else {
        s
    };
    framed.with_text(area.x as int, area.y as int, text, AppStyles::Backgroud.get(colors))
}

impl Button {
    /// A button with a caption.
    pub fn new(text: String, is_selected: bool) -> (r: Button)
        ensures
            r.text == text,
            r.is_selected == is_selected,
    {
        Button { text, is_selected }
    }

    /// Draws the button into `area`.
    pub fn render(self, area: Rect, buf: &mut tui::buffer::Buffer, colors: ColorData)
        requires
            surface(*old(buf)).wf(),
        ensures
            surface(*final(buf)) == button_drawn(
                surface(*old(buf)),
                area,
                self.text@,
                self.is_selected,
                colors,
            ),
            surface(*final(buf)).wf(),
    {
        if area.width >= 1 && area.height >= 1 && area.x as u32 + area.width as u32 <= 0xffff
            && area.y as u32 + area.height as u32 <= 0xffff {
            draw_rect_borders(
                buf,
                area,
                Borders::all(),
                BorderType::Plain,
                if self.is_selected {
                    AppStyles::ButtonSelected.get(colors)
                } else {
                    AppStyles::ButtonDeselected.get(colors)
                },
            );
        }
        draw_text(buf, area.x, area.y, self.text.as_str(), AppStyles::Backgroud.get(colors));
    }
}

} // verus!
