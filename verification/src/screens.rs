//! The screens of the dashboard: which widgets each is made of, and where
//! they stand.

use crate::app::App;
use crate::calendar::{calendar_shown, selected_events, Calendar, CalendarEvent};
use crate::clock::{clock_drawn, Clock};
use crate::film_tracker::{film_tracker_drawn, FilmTracker};
use crate::grade_tracker::{grade_fits, grade_tracker_drawn, GradeTracker};
use crate::money_tracker::{money_drawn, money_fits, money_state_drawn, MoneyTracker};
use crate::popup::{popup_drawn, Popup};
use crate::progress_bar::ProgressBar;
use crate::styles::AppStyles;
use crate::surface::{draw_block, line_texts, surface, Rect, Surface};
use crate::text::{decimal, push_char, push_decimal};
use vstd::prelude::*;
use vstd::string::{StrSliceExecFns, StringExecFns};

verus! {

/// The screens of the dashboard.
#[derive(Clone, Copy, Debug, PartialEq, Eq, Structural)]
pub enum Screen {
    DashboardScreen,
    CalendarScreen,
    GradeScreen,
    MoneyScreen,
    FilmScreen,
}

/// The lines of a text that were closed by a line break, and the line that
/// is still open, after its first `n` characters.
pub open spec fn lines_read(text: Seq<char>, n: nat) -> (Seq<Seq<char>>, Seq<char>)
    decreases n,
{
    if n == 0 {
        (Seq::empty(), Seq::empty())
    } else {
        let (closed, open) = lines_read(text, (n - 1) as nat);
        if text[n - 1] == '\n' {
            (closed.push(open), Seq::empty())
        } else {
            (closed, open.push(text[n - 1]))
        }
    }
}

/// The lines of a text: what stands between its line breaks, before the
/// first and behind the last. A text without a line break is one line.
pub open spec fn lines_of(text: Seq<char>) -> Seq<Seq<char>> {
    lines_read(text, text.len()).0.push(lines_read(text, text.len()).1)
}

/// The lines of a text.
pub fn split_lines(text: &str) -> (r: Vec<String>)
    ensures
        line_texts(r@) == lines_of(text@),
{
    let mut closed: Vec<String> = Vec::new();
    let mut open = String::new();
    let n = text.unicode_len();
    let mut i: usize = 0;
    assert(line_texts(closed@) =~= Seq::<Seq<char>>::empty());
    while i < n
        invariant
            i <= n,
            n == text@.len(),
            lines_read(text@, i as nat) == (line_texts(closed@), open@),
        decreases n - i,
    {
        let c = text.get_char(i);
        if c == '\n' {
            let ghost before = line_texts(closed@);
            closed.push(open);
            assert(line_texts(closed@) =~= before.push(open@));
            open = String::new();
        } else {
            push_char(&mut open, c);
        }
        i = i + 1;
    }
    let ghost before = line_texts(closed@);
    closed.push(open);
    assert(line_texts(closed@) =~= before.push(open@));
    closed
}

/// The note at the foot of the popup of an event: which of the events of
/// the day it is, and of how many.
pub open spec fn event_count_note(index: nat, count: nat) -> Seq<char> {
    seq![' '] + decimal(index + 1) + seq!['/'] + decimal(count) + seq![' ']
}

/// The lines of the popup of the event with index `index` of `count`: its
/// title, the lines of its description, and the note of its place.
pub open spec fn event_lines(event: CalendarEvent, index: nat, count: nat) -> Seq<Seq<char>> {
    seq![event.title@] + lines_of(event.description@) + seq![event_count_note(index, count)]
}

/// The lines of the popup of an event.
pub fn event_lines_of(event: &CalendarEvent, index: usize, count: usize) -> (r: Vec<String>)
    requires
        index < count,
    ensures
        line_texts(r@) == event_lines(*event, index as nat, count as nat),
{
    let mut lines: Vec<String> = Vec::new();
    lines.push(event.title.clone());
    let mut description = split_lines(event.description.as_str());
    let ghost described = line_texts(description@);
    let ghost head = line_texts(lines@);
    assert(head =~= seq![event.title@]);
    lines.append(&mut description);
    assert(line_texts(lines@) =~= head + described);
    let mut note = String::new();
    push_char(&mut note, ' ');
    push_decimal(&mut note, index as u64 + 1);
    push_char(&mut note, '/');
    push_decimal(&mut note, count as u64);
    push_char(&mut note, ' ');
    assert(note@ == event_count_note(index as nat, count as nat)) by {
        assert(Seq::<char>::empty().push(' ') == seq![' ']);
    }
    let ghost body = line_texts(lines@);
    lines.push(note);
    assert(line_texts(lines@) =~= body.push(note@));
    lines
}

/// The area is large enough for the dashboard and lies in the coordinate
/// range.
pub open spec fn dashboard_fits(area: Rect) -> bool {
    &&& area.width >= 4
    &&& area.height >= 12
    &&& area.x + area.width <= u16::MAX
    &&& area.y + area.height <= u16::MAX
}

/// The grid after the dashboard was drawn: in the left half the clock with
/// a border in the upper half, an empty block below it, and at the foot
/// the bars of brightness and volume, three rows each; in the right half
/// the block of the calendar in the upper third and the block of the things
/// to do below. The parts are laid out from the corner of the grid.
pub open spec fn dashboard_drawn(s: Surface, area: Rect, app: App) -> Surface {
    let half = area.width / 2;
    let third = area.height / 3;
    let main = AppStyles::Main.get(app.colors);
    let bar = AppStyles::ProgressBar.get(app.colors);
    clock_drawn(
        s,
        Rect { x: 0, y: 0, width: half, height: area.height / 2 },
        true,
        app.clock_state,
        app.colors,
    ).with_gauge(
        Rect { x: 0, y: (area.height - 6) as u16, width: half, height: 3 },
        "Brightness"@,
        app.brightness,
        bar,
    ).with_gauge(
        Rect { x: 0, y: (area.height - 3) as u16, width: half, height: 3 },
        "Volume"@,
        app.volume,
        bar,
    ).with_block(
        Rect {
            x: 0,
            y: area.height / 2,
            width: half,
            height: (area.height / 2 - 6) as u16,
        },
        None,
        main,
    ).with_block(
        Rect { x: half, y: third, width: half, height: (area.height - third) as u16 },
        Some("TODO"@),
        main,
    ).with_block(Rect { x: half, y: 0, width: half, height: third }, Some("Calendar"@), main)
}

/// Draws the dashboard.
pub fn dashboard_screen(area: Rect, buf: &mut tui::buffer::Buffer, app: &mut App)
    requires
        surface(*old(buf)).wf(),
        dashboard_fits(area),
    ensures
        surface(*final(buf)) == dashboard_drawn(surface(*old(buf)), area, *old(app)),
        surface(*final(buf)).wf(),
        *final(app) == *old(app),
{
    let clock = Clock::new(true);
    let main = AppStyles::Main.get(app.colors);
    let clock_rect = Rect { x: 0, y: 0, width: area.width / 2, height: area.height / 2 };
    let bb_rect = Rect { x: 0, y: area.height - 6, width: area.width / 2, height: 3 };
    let vb_rect = Rect { x: 0, y: area.height - 3, width: area.width / 2, height: 3 };
    let block_rect = Rect {
        x: 0,
        y: area.height / 2,
        width: area.width / 2,
        height: area.height / 2 - 6,
    };
    clock.render(clock_rect, buf, &mut app.clock_state, app.colors);
    let brightness_bar = ProgressBar::new(String::from_str("Brightness"), app.brightness);
    brightness_bar.render(bb_rect, buf, app.colors);
    let volume_bar = ProgressBar::new(String::from_str("Volume"), app.volume);
    volume_bar.render(vb_rect, buf, app.colors);
    draw_block(buf, block_rect, None, main);
    let block_rect = Rect {
        x: area.width / 2,
        y: area.height / 3,
        width: area.width / 2,
        height: area.height - area.height / 3,
    };
    draw_block(buf, block_rect, Some("TODO"), main);
    let block_rect = Rect { x: area.width / 2, y: 0, width: area.width / 2, height: area.height / 3 };
    draw_block(buf, block_rect, Some("Calendar"), main);
}

/// The grid after the calendar screen was drawn: the calendar, and over its
/// middle, where the popup is open and the selected event is one of the
/// events of the selected day, the popup of that event.
pub open spec fn calendar_screen_drawn(s: Surface, area: Rect, app: App) -> Surface {
    let state = app.calendar_state;
    let events = selected_events(state);
    let drawn = calendar_shown(s, area, state, app.colors);
    if state.show_popup && state.selected_event < events.len() {
        popup_drawn(
            drawn,
            area,
            event_lines(events[state.selected_event as int], state.selected_event as nat, events.len()),
            50,
            50,
            app.colors,
        )
    } else {
        drawn
    }
}

/// The dashboard after the calendar screen was drawn: an open popup of a
/// day without events is closed.
pub open spec fn calendar_screen_left(app: App) -> App {
    if app.calendar_state.show_popup && selected_events(app.calendar_state).len() == 0 {
        App { calendar_state: app.calendar_state.toggled(), ..app }
    } else {
        app
    }
}

/// Draws the calendar screen.
pub fn calendar_screen(area: Rect, buf: &mut tui::buffer::Buffer, app: &mut App)
    requires
        surface(*old(buf)).wf(),
        old(app).wf(),
        area.x + area.width <= u16::MAX,
        area.y + area.height <= u16::MAX,
    ensures
        surface(*final(buf)) == calendar_screen_drawn(surface(*old(buf)), area, *old(app)),
        surface(*final(buf)).wf(),
        *final(app) == calendar_screen_left(*old(app)),
        final(app).wf(),
{
    let cal = Calendar::new();
    cal.render(area, buf, &mut app.calendar_state, app.colors);
    if app.calendar_state.show_popup {
        let mut lines: Option<Vec<String>> = None;
        let mut count: usize = 0;
        match app.calendar_state.data.get(&app.calendar_state.selected_day) {
            Some(cur_data) => {
                count = cur_data.len();
                let index = app.calendar_state.selected_event as usize;
                if index < count {
                    lines = Some(event_lines_of(&cur_data[index], index, count));
                }
            },
            None => {},
        }
        match lines {
            Some(lines) => {
                let popup = Popup::new(lines, 50, 50);
                popup.render(area, buf, app.colors);
            },
            None => {
                if count == 0 {
                    app.calendar_state.popup_toggle();
                }
            },
        }
    }
}

/// Draws the grade screen: the grade tracker over the whole area.
pub fn grade_screen(area: Rect, buf: &mut tui::buffer::Buffer, app: &mut App)
    requires
        surface(*old(buf)).wf(),
        old(app).wf(),
        grade_fits(area, old(app).grade_state.data@.len()),
    ensures
        surface(*final(buf)) == grade_tracker_drawn(
            surface(*old(buf)),
            area,
            old(app).grade_state,
            old(app).colors,
        ),
        surface(*final(buf)).wf(),
        *final(app) == *old(app),
{
    let g = GradeTracker::new();
    g.render(area, buf, &mut app.grade_state, app.colors);
}

/// Draws the film screen: the film tracker over the whole area.
pub fn film_screen(area: Rect, buf: &mut tui::buffer::Buffer, app: &mut App)
    requires
        surface(*old(buf)).wf(),
        old(app).wf(),
    ensures
        surface(*final(buf)) == film_tracker_drawn(
            surface(*old(buf)),
            area,
            old(app).film_state,
            old(app).colors,
        ),
        surface(*final(buf)).wf(),
        *final(app) == *old(app),
{
    let f = FilmTracker::new();
    f.render(area, buf, &mut app.film_state, app.colors);
}

/// Draws the money screen: the money tracker over the whole area.
pub fn money_screen(area: Rect, buf: &mut tui::buffer::Buffer, app: &mut App)
    requires
        surface(*old(buf)).wf(),
        old(app).wf(),
        money_fits(area),
    ensures
        surface(*final(buf)) == money_drawn(
            surface(*old(buf)),
            area,
            old(app).money_state,
            old(app).colors,
        ),
        surface(*final(buf)).wf(),
        money_state_drawn(
            old(app).money_state,
            final(app).money_state,
            surface(*old(buf)),
            area,
            old(app).colors,
        ),
        *final(app) == (App { money_state: final(app).money_state, ..*old(app) }),
        final(app).wf(),
{
    let m = MoneyTracker::new();
    m.render(area, buf, &mut app.money_state, app.colors);
}

/// The area is large enough for a screen.
pub open spec fn screen_fits(screen: Screen, area: Rect, app: App) -> bool {
    match screen {
        Screen::DashboardScreen => dashboard_fits(area),
        Screen::CalendarScreen => area.x + area.width <= u16::MAX && area.y + area.height
            <= u16::MAX,
        Screen::GradeScreen => grade_fits(area, app.grade_state.data@.len()),
        Screen::MoneyScreen => money_fits(area),
        Screen::FilmScreen => true,
    }
}

/// The grid after a screen was drawn into an area that is large enough for
/// it.
pub open spec fn screen_drawn(screen: Screen, s: Surface, area: Rect, app: App) -> Surface {
    match screen {
        Screen::DashboardScreen => dashboard_drawn(s, area, app),
        Screen::CalendarScreen => calendar_screen_drawn(s, area, app),
        Screen::GradeScreen => grade_tracker_drawn(s, area, app.grade_state, app.colors),
        Screen::MoneyScreen => money_drawn(s, area, app.money_state, app.colors),
        Screen::FilmScreen => film_tracker_drawn(s, area, app.film_state, app.colors),
    }
}

/// The dashboard `post` is the dashboard `pre` after a screen was drawn into
/// an area that is large enough for it: only the calendar screen and the
/// money screen change anything.
pub open spec fn screen_left(screen: Screen, pre: App, post: App, s: Surface, area: Rect) -> bool {
    match screen {
        Screen::CalendarScreen => post == calendar_screen_left(pre),
        Screen::MoneyScreen => {
            &&& money_state_drawn(pre.money_state, post.money_state, s, area, pre.colors)
            &&& post == (App { money_state: post.money_state, ..pre })
        },
        _ => post == pre,
    }
}

impl Screen {
    /// Whether `area` is large enough for the screen.
    pub fn fits(self, area: Rect, app: &App) -> (r: bool)
        ensures
            r == screen_fits(self, area, *app),
    {
        match self {
            Screen::DashboardScreen => area.width >= 4 && area.height >= 12 && area.x as u32
                + area.width as u32 <= 0xffff && area.y as u32 + area.height as u32 <= 0xffff,
            Screen::CalendarScreen => area.x as u32 + area.width as u32 <= 0xffff && area.y as u32
                + area.height as u32 <= 0xffff,
            Screen::GradeScreen => GradeTracker::fits(area, app.grade_state.data.len()),
            Screen::MoneyScreen => MoneyTracker::fits(area),
            Screen::FilmScreen => true,
        }
    }

    /// Draws the screen into `area`. Into an area that is too small for it
    /// nothing is drawn, and nothing changes.
    pub fn render(self, area: Rect, buf: &mut tui::buffer::Buffer, app: &mut App)
        requires
            surface(*old(buf)).wf(),
            old(app).wf(),
        ensures
            surface(*final(buf)).wf(),
            final(app).wf(),
            screen_fits(self, area, *old(app)) ==> surface(*final(buf)) == screen_drawn(
                self,
                surface(*old(buf)),
                area,
                *old(app),
            ) && screen_left(self, *old(app), *final(app), surface(*old(buf)), area),
            !screen_fits(self, area, *old(app)) ==> surface(*final(buf)) == surface(*old(buf))
                && *final(app) == *old(app),
    {
        if self.fits(area, app) {
            match self {
                Screen::DashboardScreen => dashboard_screen(area, buf, app),
                Screen::CalendarScreen => calendar_screen(area, buf, app),
                Screen::GradeScreen => grade_screen(area, buf, app),
                Screen::MoneyScreen => money_screen(area, buf, app),
                Screen::FilmScreen => film_screen(area, buf, app),
            }
        }
    }
}

} // verus!
