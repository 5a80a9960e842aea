//! The film tracker: a search form and the films that a search found.

use crate::form::{form_drawn, Form, FormField, FormFieldStyle, FormState, TextField};
use crate::money_tracker::text_field;
use crate::styles::{AppStyles, ColorData};
use crate::surface::{draw_text_wide, surface, Rect, Surface};
use vstd::prelude::*;
use vstd::string::StringExecFns;

verus! {

/// A film that a search found.
#[derive(Debug)]
pub struct MovieSearchItem {
    pub title: String,
    pub imdb_id: String,
}

/// The search form and what the last search found.
#[derive(Debug)]
pub struct FilmTrackerState {
    pub search_form: FormState,
    pub movie_search_items: Vec<MovieSearchItem>,
}

/// The widget that draws the film tracker.
#[derive(Clone, Copy, Debug)]
pub struct FilmTracker;

/// The grid after the titles of the first `n` films were written, one below
/// the other from the fourth row of `area`.
pub open spec fn films_drawn(
    s: Surface,
    area: Rect,
    items: Seq<MovieSearchItem>,
    colors: ColorData,
    n: nat,
) -> Surface
    decreases n,
{
    if n == 0 {
        s
    } else {
        films_drawn(s, area, items, colors, (n - 1) as nat).with_text(
            area.x as int,
            area.y + 3 + (n - 1),
            items[n - 1].title@,
            AppStyles::Main.get(colors),
        )
    }
}

/// The grid after the film tracker was drawn into `area`: the search form in
/// the left quarter of the top three rows, and the films below.
pub open spec fn film_tracker_drawn(
    s: Surface,
    area: Rect,
    state: FilmTrackerState,
    colors: ColorData,
) -> Surface {
    films_drawn(
        form_drawn(
            s,
            Rect { x: area.x, y: area.y, width: area.width / 4, height: 3 },
            state.search_form@,
            state.search_form@.fields.len(),
        ),
        area,
        state.movie_search_items@,
        colors,
        state.movie_search_items@.len(),
    )
}

impl FilmTrackerState {
    /// The tracker at the start: a form with an empty title, and no film.
    pub fn new(colors: ColorData) -> (r: FilmTrackerState)
        ensures
            r.search_form.wf(),
            r.search_form@.selected_field == 0,
            r.search_form@.fields == seq![text_field("Title"@, false, colors)],
            r.movie_search_items@.len() == 0,
    {
        let mut search_form = FormState::new();
        search_form.add_field(
            FormField::Text(
                TextField::new(
                    String::new(),
                    false,
                    FormFieldStyle::new(String::from_str("Title"), colors),
                ),
            ),
        );
        assert(search_form@.fields =~= seq![text_field("Title"@, false, colors)]);
        FilmTrackerState { search_form, movie_search_items: Vec::new() }
    }

    /// Takes what a search found.
    pub fn search_movie(&mut self, found: Vec<MovieSearchItem>)
        ensures
            final(self).movie_search_items == found,
            final(self).search_form == old(self).search_form,
    {
        self.movie_search_items = found;
    }
}

impl FilmTracker {
    /// The widget.
    pub fn new() -> (r: FilmTracker) {
        FilmTracker {  }
    }

    /// Draws the film tracker into `area`.
    pub fn render(
        self,
        area: Rect,
        buf: &mut tui::buffer::Buffer,
        state: &mut FilmTrackerState,
        colors: ColorData,
    )
        requires
            surface(*old(buf)).wf(),
            old(state).search_form.wf(),
        ensures
            surface(*final(buf)) == film_tracker_drawn(surface(*old(buf)), area, *old(state), colors),
            surface(*final(buf)).wf(),
            *final(state) == *old(state),
    {
        let search_form_rect = Rect { x: area.x, y: area.y, width: area.width / 4, height: 3 };
        Form::new().render(search_form_rect, buf, &mut state.search_form);
        let ghost formed = surface(*buf);
        let n = state.movie_search_items.len();
        let mut p: usize = 0;
        while p < n
            invariant
                p <= n,
                n == state.movie_search_items@.len(),
                *state == *old(state),
                surface(*buf).wf(),
                surface(*buf) == films_drawn(
                    formed,
                    area,
                    state.movie_search_items@,
                    colors,
                    p as nat,
                ),
            decreases n - p,
        {
            if p <= 0xffff {
                draw_text_wide(
                    buf,
                    area.x as u32,
                    area.y as u32 + 3 + p as u32,
                    state.movie_search_items[p].title.as_str(),
                    AppStyles::Main.get(colors),
                );
            }
            p = p + 1;
        }
    }
}

} // verus!
