//! A progress bar: a titled gauge that is filled to a percentage.

use crate::styles::{AppStyles, ColorData};
use crate::surface::{draw_gauge, surface, Rect};
use vstd::prelude::*;

verus! {

/// A progress bar.
#[derive(Debug)]
pub struct ProgressBar {
    pub title: String,
    pub progress: u16,
}

impl ProgressBar {
    /// A progress bar with a title, filled to `progress` hundredths.
    pub fn new(title: String, progress: u16) -> (r: ProgressBar)
        ensures
            r.title == title,
            r.progress == progress,
    {
        ProgressBar { title, progress }
    }

    /// Draws the bar into `area` as a bordered gauge in the style of
    /// progress bars. A bar that is filled beyond a hundred, or whose area
    /// has no room inside the border, is not drawn.
    pub fn render(&self, area: Rect, buf: &mut tui::buffer::Buffer, colors: ColorData)
        requires
            surface(*old(buf)).wf(),
        ensures
            surface(*final(buf)) == surface(*old(buf)).with_gauge(
                area,
                self.title@,
                self.progress,
                AppStyles::ProgressBar.get(colors),
            ),
            surface(*final(buf)).wf(),
    {
        draw_gauge(
            buf,
            area,
            self.title.as_str(),
            self.progress,
            AppStyles::ProgressBar.get(colors),
        );
    }
}

} // verus!
