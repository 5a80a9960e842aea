//! The calendar: the month that is shown, the selected day, the events of
//! each day, and the way the month and the events are drawn.

use crate::date::{
    days_in_month, num_of_days, start_day, valid_date, weekday_of, MAX_YEAR, MIN_YEAR,
};
use crate::date::{clock_text, clock_text_of, month_name, month_name_of, weekday_name, weekday_name_of};
use crate::styles::{AppStyles, ColorData};
use crate::surface::{
    draw_paragraph, draw_text_wide, line_texts, plot_wide, surface, CellStyle, Color, Rect, Surface,
};
use crate::text::{
    decimal, int_text, push_char, push_decimal, push_int, push_repeat, push_text,
    push_two_digits, two_digits,
};
use crate::util::{
    bordered, bounded_step, draw_hline, draw_rect_borders, draw_vline, generic_increment,
    BorderType, Borders, LineSet,
};
use std::collections::HashMap;
use vstd::prelude::*;
use vstd::string::StrSliceExecFns;

verus! {

broadcast use vstd::std_specs::hash::group_hash_axioms;

/// A point of time within the month that is shown: the day of the month
/// and the time of that day.
#[derive(Clone, Copy, Debug, PartialEq, Eq, Structural)]
pub struct EventTime {
    pub day: u32,
    pub hour: u32,
    pub minute: u32,
}

/// An event of the calendar.
#[derive(Debug)]
pub struct CalendarEvent {
    pub start: EventTime,
    pub end: EventTime,
    pub title: String,
    pub description: String,
}

impl CalendarEvent {
    /// A copy of the event.
    pub fn duplicate(&self) -> (r: CalendarEvent)
        ensures
            r == *self,
    {
        CalendarEvent {
            start: self.start,
            end: self.end,
            title: self.title.clone(),
            description: self.description.clone(),
        }
    }
}

/// The events that start on `day`, in the order in which `events` has them.
pub open spec fn events_on(events: Seq<CalendarEvent>, day: u32) -> Seq<CalendarEvent>
    decreases events.len(),
{
    if events.len() == 0 {
        Seq::empty()
    } else if events.last().start.day == day {
        events_on(events.drop_last(), day).push(events.last())
    } else {
        events_on(events.drop_last(), day)
    }
}

/// The map holds, for each day on which an event starts, the events of that
/// day in their order, and nothing for any other day.
pub open spec fn grouped(
    map: Map<u32, Vec<CalendarEvent>>,
    events: Seq<CalendarEvent>,
) -> bool {
    forall|day: u32|
        {
            &&& #[trigger] map.contains_key(day) <==> events_on(events, day).len() > 0
            &&& map.contains_key(day) ==> map[day]@ == events_on(events, day)
        }
}

/// Sorts events by the day on which they start.
pub fn group_by_day(events: &Vec<CalendarEvent>) -> (days_data: HashMap<u32, Vec<CalendarEvent>>)
    ensures
        grouped(days_data@, events@),
{
    let mut days_data: HashMap<u32, Vec<CalendarEvent>> = HashMap::new();
    let n = events.len();
    let mut i: usize = 0;
    while i < n
        invariant
            i <= n,
            n == events@.len(),
            grouped(days_data@, events@.take(i as int)),
        decreases n - i,
    {
        let event = events[i].duplicate();
        let day = event.start.day;
        let ghost before = days_data@;
        let ghost prefix = events@.take(i as int);
        let ghost next = events@.take(i + 1);
        proof {
            assert(next.drop_last() == prefix);
            assert(next.last() == event);
            assert(before.contains_key(day) <==> events_on(prefix, day).len() > 0);
        }
        let mut list: Vec<CalendarEvent> = match days_data.remove(&day) {
            Some(found) => found,
            None => Vec::new(),
        };
        list.push(event);
        days_data.insert(day, list);
        proof {
            assert forall|d: u32|
                {
                    &&& #[trigger] days_data@.contains_key(d) <==> events_on(next, d).len() > 0
                    &&& days_data@.contains_key(d) ==> days_data@[d]@ == events_on(next, d)
                } by {
                assert(before.contains_key(d) <==> events_on(prefix, d).len() > 0);
                if d == day {
                    assert(events_on(next, d) == events_on(prefix, d).push(event));
                    if !before.contains_key(d) {
                        assert(events_on(prefix, d) =~= Seq::empty());
                    }
                } else {
                    assert(events_on(next, d) == events_on(prefix, d));
                }
            }
        }
        i = i + 1;
    }
    assert(events@.take(n as int) == events@);
    days_data
}

/// What the calendar shows and what is selected in it.
#[derive(Debug)]
pub struct CalendarState {
    pub data: HashMap<u32, Vec<CalendarEvent>>,
    pub selected_day: u32,
    pub cur_day: u32,
    pub cur_month: u32,
    pub cur_year: i32,
    pub num_of_days: i64,
    pub start_day: u32,
    pub show_popup: bool,
    pub selected_event: u32,
}

/// The number of a month, counted from the first month of the year 0.
pub open spec fn month_index(year: int, month: int) -> int {
    year * 12 + (month - 1)
}

/// The month can be shown: it is one of the twelve, in one of the years that
/// dates can have.
pub open spec fn month_in_range(year: int, month: int) -> bool {
    1 <= month <= 12 && MIN_YEAR <= year <= MAX_YEAR
}

impl CalendarState {
    /// The number of events on a day.
    pub open spec fn events_count(&self, day: u32) -> nat {
        if self.data@.contains_key(day) {
            self.data@[day]@.len()
        } else {
            0
        }
    }

    /// The length of the month and the weekday of its first day are those of
    /// the month and the year that are shown.
    pub open spec fn wf(&self) -> bool {
        &&& month_in_range(self.cur_year as int, self.cur_month as int)
        &&& self.num_of_days == days_in_month(self.cur_year as int, self.cur_month as int)
        &&& self.start_day == weekday_of(self.cur_year as int, self.cur_month as int, 1)
    }

    /// The selected event is one of the selected day's, or the first where
    /// the day has none.
    pub open spec fn event_in_range(&self) -> bool {
        self.selected_event == 0 || self.selected_event < self.events_count(self.selected_day)
    }

    /// The calendar of the month of today, with today selected and the
    /// events of the month sorted by day.
    pub fn new(cur_year: i32, cur_month: u32, cur_day: u32, events: &Vec<CalendarEvent>) -> (r:
        CalendarState)
        requires
            valid_date(cur_year as int, cur_month as int, cur_day as int),
        ensures
            r.wf(),
            grouped(r.data@, events@),
            r.selected_day == cur_day,
            r.cur_day == cur_day,
            r.cur_month == cur_month,
            r.cur_year == cur_year,
            !r.show_popup,
            r.selected_event == 0,
    {
        let days = match num_of_days(cur_month, cur_year) {
            Some(n) => n,
            None => 0,
        };
        let first = match start_day(cur_month, cur_year) {
            Some(n) => n,
            None => 0,
        };
        CalendarState {
            data: group_by_day(events),
            selected_day: cur_day,
            cur_day,
            cur_month,
            cur_year,
            num_of_days: days,
            start_day: first,
            show_popup: false,
            selected_event: 0,
        }
    }

    /// Takes the events of the month that is shown, sorted by day. Nothing
    /// else changes.
    pub fn set_data(&mut self, events: &Vec<CalendarEvent>)
        ensures
            grouped(final(self).data@, events@),
            *final(self) == (CalendarState { data: final(self).data, ..*old(self) }),
    {
        self.data = group_by_day(events);
    }

    /// The number of the month to which `amount` steps lead.
    pub open spec fn step_target(&self, amount: i32) -> int {
        month_index(self.cur_year as int, self.cur_month as int) + amount
    }

    /// The month to which `amount` steps lead can be shown, so the step is
    /// taken.
    pub open spec fn step_taken(&self, amount: i32) -> bool {
        month_in_range(self.step_target(amount) / 12, self.step_target(amount) % 12 + 1)
    }

    /// The calendar `post` is this one after the month was stepped by
    /// `amount`: where the month that the steps lead to can be shown, it is
    /// shown, with its length and the weekday of its first day, and with no
    /// events; what is selected stays as it was. Else nothing has changed.
    pub open spec fn month_stepped(&self, post: CalendarState, amount: i32) -> bool {
        let target = self.step_target(amount);
        if self.step_taken(amount) {
            &&& post.data@ == Map::<u32, Vec<CalendarEvent>>::empty()
            &&& post == (CalendarState {
                data: post.data,
                cur_year: (target / 12) as i32,
                cur_month: (target % 12 + 1) as u32,
                num_of_days: days_in_month(target / 12, target % 12 + 1) as i64,
                start_day: weekday_of(target / 12, target % 12 + 1, 1) as u32,
                ..*self
            })
        } else {
            post == *self
        }
    }

    /// Steps the month that is shown by `amount` months, forwards or
    /// backwards, into the next or the last year where the step crosses the
    /// end of a year. The length of the new month and the weekday of its
    /// first day are set with it, whatever they were before, and the events
    /// of the old month are dropped. A step that would leave the years that
    /// dates can have is not taken.
    pub fn increment_month(&mut self, amount: i32)
        requires
            month_in_range(old(self).cur_year as int, old(self).cur_month as int),
        ensures
            old(self).month_stepped(*final(self), amount),
            old(self).wf() || old(self).step_taken(amount) ==> final(self).wf(),
    {
        let target: i64 = self.cur_year as i64 * 12 + (self.cur_month as i64 - 1) + amount as i64;
        let year: i64 = if target >= 0 {
            target / 12
        } else {
            -((-target + 11) / 12)
        };
        let month: i64 = target - year * 12 + 1;
        assert(year == target as int / 12 && month == target as int % 12 + 1);
        if year >= MIN_YEAR as i64 && year <= MAX_YEAR as i64 {
            let new_year = year as i32;
            let new_month = month as u32;
            match (start_day(new_month, new_year), num_of_days(new_month, new_year)) {
                (Some(first), Some(days)) => {
                    self.cur_year = new_year;
                    self.cur_month = new_month;
                    self.start_day = first;
                    self.num_of_days = days;
                    self.data = HashMap::new();
                },
                _ => {},
            }
        }
    }

    /// The number of events on a day.
    pub fn count_events(&self, day: u32) -> (r: usize)
        ensures
            r == self.events_count(day),
    {
        match self.data.get(&day) {
            Some(list) => list.len(),
            None => 0,
        }
    }

    /// The calendar after the selected day was moved by `amount`: it stops
    /// at the first and at the last day of the month.
    pub open spec fn day_stepped(self, amount: i32) -> CalendarState {
        CalendarState {
            selected_day: bounded_step(
                self.selected_day as int,
                1,
                self.num_of_days as int,
                amount as int,
            ) as u32,
            ..self
        }
    }

    /// Moves the selected day by `amount`, stopping at the first and at the
    /// last day of the month.
    pub fn increment_selected_day(&mut self, amount: i32)
        requires
            old(self).wf(),
        ensures
            final(self).wf(),
            *final(self) == old(self).day_stepped(amount),
            1 <= final(self).selected_day <= final(self).num_of_days,
    {
        generic_increment(&mut self.selected_day, 1, self.num_of_days as u32, amount);
    }

    /// The calendar after the popup was toggled.
    pub open spec fn toggled(self) -> CalendarState {
        CalendarState { show_popup: !self.show_popup, selected_event: 0, ..self }
    }

    /// Opens the popup where it is closed and closes it where it is open;
    /// either way the first event becomes the selected one.
    pub fn popup_toggle(&mut self)
        ensures
            *final(self) == old(self).toggled(),
            final(self).event_in_range(),
    {
        self.show_popup = !self.show_popup;
        self.selected_event = 0;
    }

    /// The calendar after the selected event was moved by `amount`: it
    /// stops at the first and at the last event of the selected day, and
    /// stays where the day has no event.
    pub open spec fn event_stepped(self, amount: i32) -> CalendarState {
        let count = self.events_count(self.selected_day);
        if count == 0 {
            self
        } else {
            CalendarState {
                selected_event: bounded_step(
                    self.selected_event as int,
                    0,
                    if count - 1 > u32::MAX {
                        u32::MAX as int
                    } else {
                        count - 1
                    },
                    amount as int,
                ) as u32,
                ..self
            }
        }
    }

    /// Moves the selected event by `amount`, stopping at the first and at
    /// the last event of the selected day. Where the day has no event
    /// nothing changes.
    pub fn increment_selected_event(&mut self, amount: i32)
        ensures
            *final(self) == old(self).event_stepped(amount),
            old(self).event_in_range() ==> final(self).event_in_range(),
    {
        let num_of_events = self.count_events(self.selected_day);
        if num_of_events > 0 {
            let upper: u32 = if num_of_events - 1 > 0xffff_ffff {
                0xffff_ffff
            } else {
                (num_of_events - 1) as u32
            };
            generic_increment(&mut self.selected_event, 0, upper, amount);
        }
    }
}

// ----------------------------------------------------------------------------
/// The widget that draws the calendar.
#[derive(Clone, Copy, Debug)]
pub struct Calendar;

/// The mark that stands for one event in the box of a day.
pub const EVENT_MARK: &'static str = "\u{fc62}";

/// The thick bar beside an event of the timeline.
pub const THICK_VERTICAL: &'static str = "\u{2503}";

/// The thin bar between two events of the timeline.
pub const VERTICAL: &'static str = "\u{2502}";

/// Where the parts of the calendar stand.
pub struct CalendarLayout {
    /// The pane of the month: the left three quarters.
    pub c_area: Rect,
    /// The pane of the timeline: the rest.
    pub t_area: Rect,
    /// The first column and row inside the month pane's border.
    pub cx: u16,
    pub cy: u16,
    /// The width inside the border, and the height without the lines of the
    /// title and the weekdays.
    pub width: u16,
    pub height: u16,
    /// The size of the box of a day.
    pub cell_width: u16,
    pub cell_height: u16,
    /// What is left over around the boxes, halved.
    pub offset_x: u16,
    pub offset_y: u16,
}

/// The two panes are large enough for a calendar and lie in the coordinate
/// range. The month pane holds, inside its border, seven boxes side by side
/// that are three columns wide at least, for the three cells at either end
/// of an open frame, and below the lines of the title and the weekdays six
/// rows of boxes that are a row high at least. The timeline pane holds its
/// heading of six characters inside its border.
pub open spec fn panes_fit(c_area: Rect, t_area: Rect) -> bool {
    &&& c_area.width >= 23
    &&& c_area.height >= 10
    &&& c_area.x + c_area.width <= u16::MAX
    &&& c_area.y + c_area.height <= u16::MAX
    &&& t_area.width >= 8
    &&& t_area.height >= 2
    &&& t_area.x + t_area.width <= u16::MAX
    &&& t_area.y + t_area.height <= u16::MAX
}

/// The area can be split into the two panes: it lies in the coordinate
/// range, and three quarters of its width can be reckoned in sixteen bits.
pub open spec fn splits(area: Rect) -> bool {
    &&& area.width * 75 <= u16::MAX
    &&& area.x + area.width <= u16::MAX
    &&& area.y + area.height <= u16::MAX
}

/// The two panes that `Layout::split` makes of an area, three quarters of
/// the width and one quarter, side by side. Both shares can be met at once,
/// so the layout has one answer only.
pub uninterp spec fn pane_split(area: Rect) -> (Rect, Rect);

/// `Layout::default` with `Constraint::Percentage(75)` and
/// `Constraint::Percentage(25)` and `Direction::Horizontal`, then
/// `Layout::split`: the two panes have a name only.
#[verifier::external_body]
pub(crate) fn split_panes(area: Rect) -> (r: (Rect, Rect))
    requires
        splits(area),
    ensures
        r == pane_split(area),
{
    let panes = tui::layout::Layout::default()
        .constraints(
            [tui::layout::Constraint::Percentage(75), tui::layout::Constraint::Percentage(25)]
                .as_ref(),
        )
        .direction(tui::layout::Direction::Horizontal)
        .split(tui::layout::Rect { x: area.x, y: area.y, width: area.width, height: area.height });
    let own = |r: tui::layout::Rect| Rect { x: r.x, y: r.y, width: r.width, height: r.height };
    (own(panes[0]), own(panes[1]))
}

/// The layout of a calendar in its two panes.
pub open spec fn layout_of(c_area: Rect, t_area: Rect) -> CalendarLayout {
    let width = c_area.width - 2;
    let height = c_area.height - 4;
    let cell_width = width / 7;
    let cell_height = height / 6;
    CalendarLayout {
        c_area,
        t_area,
        cx: (c_area.x + 1) as u16,
        cy: (c_area.y + 1) as u16,
        width: width as u16,
        height: height as u16,
        cell_width: cell_width as u16,
        cell_height: cell_height as u16,
        offset_x: ((width - cell_width * 7) / 2) as u16,
        offset_y: ((height - cell_height * 6) / 2 + 1) as u16,
    }
}

/// The title of the month pane: the name of the month and the year.
pub open spec fn month_title(month: int, year: int) -> Seq<char> {
    month_name(month) + seq![' '] + int_text(year)
}

/// The day that the box with index `k` stands for, where the boxes are
/// counted row by row from Monday of the first week: the day of the month,
/// or 0 where the box lies before the first or after the last day.
pub open spec fn cell_day(k: int, start_day: int, num_of_days: int) -> int {
    let day = k + 1 - start_day;
    if day < 1 || day > num_of_days {
        0
    } else {
        day
    }
}

/// The box of the day with index `k`.
pub open spec fn cell_rect(l: CalendarLayout, k: int) -> Rect {
    Rect {
        x: ((k % 7) * l.cell_width + l.cx + l.offset_x) as u16,
        y: ((k / 7) * l.cell_height + l.cy + l.offset_y) as u16,
        width: l.cell_width,
        height: l.cell_height,
    }
}

/// The style of the border of a day's box: black for a box without a day,
/// else that of the selected day, of today, or of any other day, in this
/// order.
pub open spec fn cell_border_style(day: int, selected: int, today: int, colors: ColorData)
    -> CellStyle {
    if day == 0 {
        CellStyle::plain().fg(Color::Black)
    } else if day == selected {
        AppStyles::CalendarSelected.get(colors)
    } else if day == today {
        AppStyles::CalendarCurDay.get(colors)
    } else {
        AppStyles::CalendarDeselected.get(colors)
    }
}

/// The style of the number of a day: today in the main colour where it is
/// selected and in the accent colour where it is not, else the style of the
/// selected day or of any other day.
pub open spec fn cell_number_style(day: int, selected: int, today: int, colors: ColorData)
    -> CellStyle {
    if day == today {
        AppStyles::CalendarCurDay.get(colors).fg(
            if day == selected {
                colors.main
            } else {
                colors.accent
            },
        )
    } else if day == selected {
        AppStyles::CalendarSelected.get(colors)
    } else {
        AppStyles::CalendarDeselected.get(colors)
    }
}

/// The grid after the open frame of a box was drawn: both sides in full, of
/// the top and the bottom three cells at either end, and the four corners.
pub open spec fn open_frame(s: Surface, r: Rect, set: LineSet, style: CellStyle) -> Surface {
    let x0 = r.x as int;
    let y0 = r.y as int;
    let x1 = r.x + r.width - 1;
    let y1 = r.y + r.height - 1;
    let h = r.height as nat;
    let tail = if r.width >= 3 {
        r.x + r.width - 3
    } else {
        r.x as int
    };
    let tail_len = if r.width >= 3 {
        3nat
    } else {
        r.width as nat
    };
    s.vline(x0, y0, h, set.vertical@, style).hline(x0, y0, 3, set.horizontal@, style).hline(
        tail,
        y0,
        tail_len,
        set.horizontal@,
        style,
    ).vline(x1, y0, h, set.vertical@, style).hline(x0, y1, 3, set.horizontal@, style).hline(
        tail,
        y1,
        tail_len,
        set.horizontal@,
        style,
    ).plot(x1, y1, set.bottom_right@, style).plot(x1, y0, set.top_right@, style).plot(
        x0,
        y1,
        set.bottom_left@,
        style,
    ).plot(x0, y0, set.top_left@, style)
}

/// The grid after `n` event marks were set into the box `r`, side by side
/// on its second line.
pub open spec fn marks_drawn(s: Surface, r: Rect, colors: ColorData, n: nat) -> Surface
    decreases n,
{
    if n == 0 {
        s
    } else {
        marks_drawn(s, r, colors, (n - 1) as nat).with_text(
            r.x + 1 + (n - 1),
            r.y + 1,
            EVENT_MARK@,
            AppStyles::Main.get(colors),
        )
    }
}

/// The grid after the box of a day was drawn: a full frame of double lines
/// for today, a full frame of plain lines for the selected day, an open
/// frame for every other box; in a box with a day the day's number in two
/// digits in the middle of the top line, and one mark for each of its
/// events. A box without a column or a row is left out.
pub open spec fn cell_drawn(
    s: Surface,
    r: Rect,
    day: int,
    selected: int,
    today: int,
    events: nat,
    colors: ColorData,
) -> Surface {
    if r.width == 0 || r.height == 0 {
        s
    } else {
        let border_type = if day == today {
            BorderType::Double
        } else {
            BorderType::Plain
        };
        let style = cell_border_style(day, selected, today, colors);
        let framed = if day == selected || day == today {
            bordered(s, r, Borders::all(), border_type.line_symbols(), style)
        } else {
            open_frame(s, r, border_type.line_symbols(), style)
        };
        if day > 0 {
            marks_drawn(
                framed.with_text(
                    r.x + r.width / 2 - 1,
                    r.y as int,
                    two_digits(day as nat),
                    cell_number_style(day, selected, today, colors),
                ),
                r,
                colors,
                events,
            )
        } else {
            framed
        }
    }
}

/// The grid after the names of the first `n` weekdays were written, each
/// above its column of boxes, on the third row of the grid.
pub open spec fn weekdays_drawn(s: Surface, l: CalendarLayout, colors: ColorData, n: nat)
    -> Surface
    decreases n,
{
    if n == 0 {
        s
    } else {
        weekdays_drawn(s, l, colors, (n - 1) as nat).with_text(
            (n - 1) * l.cell_width + l.cx + l.offset_x,
            2,
            weekday_name(n - 1),
            AppStyles::Main.get(colors),
        )
    }
}

/// The grid after `n` copies of `text` were written one below the other
/// from `(x, y)`.
pub open spec fn column_drawn(
    s: Surface,
    x: int,
    y: int,
    n: nat,
    text: Seq<char>,
    style: CellStyle,
) -> Surface
    decreases n,
{
    if n == 0 {
        s
    } else {
        column_drawn(s, x, y, (n - 1) as nat, text, style).with_text(x, y + n - 1, text, style)
    }
}

/// The note between two events: the hours from the end of the one to the
/// start of the next, none where the next starts in an earlier hour, set
/// between two dashed lines that fill the pane as far as they can.
pub open spec fn gap_text(width: int, from_hour: int, to_hour: int) -> Seq<char> {
    let hours = if to_hour >= from_hour {
        to_hour - from_hour
    } else {
        0
    };
    let text = decimal(hours as nat) + " Hour(s)"@;
    let room = if width - 5 - text.len() >= 0 {
        width - 5 - text.len()
    } else {
        0
    };
    let lines = Seq::new((room / 2) as nat, |i: int| '-');
    lines + text + lines
}

/// The grid after the event with index `i` of the timeline was drawn into
/// the pane `inner`: the times of its start and its end, a thick bar
/// beside them, its title as a paragraph to the right, and, where an event
/// follows, a thin bar below with the note of the hours between them.
pub open spec fn event_drawn(
    s: Surface,
    inner: Rect,
    i: int,
    event: CalendarEvent,
    next: Option<CalendarEvent>,
    colors: ColorData,
) -> Surface {
    let ox = inner.x as int;
    let y = inner.y + 2 + 8 * i;
    let bold = AppStyles::Main.get(colors).bold();
    let timed = s.with_text(
        ox,
        y,
        clock_text(event.start.hour as nat, event.start.minute as nat),
        bold,
    ).with_text(ox, y + 4, clock_text(event.end.hour as nat, event.end.minute as nat), bold);
    let barred = column_drawn(timed, ox + 5, y, 5, THICK_VERTICAL@, AppStyles::Main.get(colors));
    let gapped = match next {
        Some(following) => barred.with_text(
            ox + 5,
            y + 5,
            VERTICAL@,
            AppStyles::Accent.get(colors),
        ).with_text(ox + 5, y + 6, VERTICAL@, AppStyles::Accent.get(colors)).with_text(
            ox + 5,
            y + 6,
            gap_text(inner.width as int, event.end.hour as int, following.start.hour as int),
            AppStyles::Accent.get(colors),
        ).with_text(ox + 5, y + 7, VERTICAL@, AppStyles::Accent.get(colors)),
        None => barred,
    };
    if y <= u16::MAX && ox + 6 <= u16::MAX && inner.width >= 6 {
        gapped.with_paragraph(
            Rect { x: (ox + 6) as u16, y: y as u16, width: (inner.width - 6) as u16, height: 5 },
            seq![event.title@],
        )
    } else {
        gapped
    }
}

/// The grid after the first `n` events of the timeline were drawn.
pub open spec fn timeline_drawn(
    s: Surface,
    inner: Rect,
    events: Seq<CalendarEvent>,
    colors: ColorData,
    n: nat,
) -> Surface
    decreases n,
{
    if n == 0 {
        s
    } else {
        event_drawn(
            timeline_drawn(s, inner, events, colors, (n - 1) as nat),
            inner,
            n - 1,
            events[n - 1],
            if n < events.len() {
                Some(events[n as int])
            } else {
                None
            },
            colors,
        )
    }
}

/// The grid after the first `n` boxes of the month were drawn.
pub open spec fn cells_drawn(
    s: Surface,
    l: CalendarLayout,
    state: CalendarState,
    colors: ColorData,
    n: nat,
) -> Surface
    decreases n,
{
    if n == 0 {
        s
    } else {
        let day = cell_day(n - 1, state.start_day as int, state.num_of_days as int);
        cell_drawn(
            cells_drawn(s, l, state, colors, (n - 1) as nat),
            cell_rect(l, n - 1),
            day,
            state.selected_day as int,
            state.cur_day as int,
            if day > 0 {
                state.events_count(day as u32)
            } else {
                0
            },
            colors,
        )
    }
}

/// The events of the selected day.
pub open spec fn selected_events(state: CalendarState) -> Seq<CalendarEvent> {
    if state.data@.contains_key(state.selected_day) {
        state.data@[state.selected_day]@
    } else {
        Seq::empty()
    }
}

/// The inside of the timeline pane.
pub open spec fn timeline_inner(l: CalendarLayout) -> Rect {
    Rect {
        x: (l.t_area.x + 1) as u16,
        y: (l.t_area.y + 1) as u16,
        width: (l.t_area.width - 2) as u16,
        height: (l.t_area.height - 2) as u16,
    }
}

/// The grid after the calendar was drawn into its two panes: the bordered
/// month pane with its title, the weekdays and the six weeks of boxes, and
/// the bordered timeline pane with its heading and the events of the
/// selected day.
pub open spec fn calendar_drawn(
    s: Surface,
    c_area: Rect,
    t_area: Rect,
    state: CalendarState,
    colors: ColorData,
) -> Surface {
    let l = layout_of(c_area, t_area);
    let main = AppStyles::Main.get(colors);
    let title = month_title(state.cur_month as int, state.cur_year as int);
    let inner = timeline_inner(l);
    let month = bordered(
        s,
        l.c_area,
        Borders::all(),
        BorderType::Plain.line_symbols(),
        main,
    ).with_text(l.cx + l.width / 2 - title.len() / 2, l.cy as int, title, main.bold());
    let weeks = cells_drawn(weekdays_drawn(month, l, colors, 7), l, state, colors, 42);
    let pane = bordered(
        weeks,
        l.t_area,
        Borders::all(),
        BorderType::Plain.line_symbols(),
        main,
    ).with_text(inner.x + inner.width / 2 - 3, inner.y as int, "Events"@, main.bold());
    timeline_drawn(pane, inner, selected_events(state), colors, selected_events(state).len())
}

/// The grid after the calendar was drawn into `area`: the area is split
/// into the two panes and the calendar is drawn into them. Where the area
/// cannot be split, or the panes are too small, nothing is drawn.
pub open spec fn calendar_shown(
    s: Surface,
    area: Rect,
    state: CalendarState,
    colors: ColorData,
) -> Surface {
    if splits(area) && panes_fit(pane_split(area).0, pane_split(area).1) {
        calendar_drawn(s, pane_split(area).0, pane_split(area).1, state, colors)
    } else {
        s
    }
}

impl Calendar {
    /// The widget.
    pub fn new() -> (r: Calendar) {
        Calendar {  }
    }

    /// Whether the two panes are large enough for a calendar.
    pub fn fits(c_area: Rect, t_area: Rect) -> (r: bool)
        ensures
            r == panes_fit(c_area, t_area),
    {
        c_area.width >= 23 && c_area.height >= 10 && c_area.x as u32 + c_area.width as u32
            <= 0xffff && c_area.y as u32 + c_area.height as u32 <= 0xffff && t_area.width >= 8
            && t_area.height >= 2 && t_area.x as u32 + t_area.width as u32 <= 0xffff && t_area.y
            as u32 + t_area.height as u32 <= 0xffff
    }

    /// The layout of a calendar in its two panes.
    fn layout(c_area: Rect, t_area: Rect) -> (l: CalendarLayout)
        requires
            panes_fit(c_area, t_area),
        ensures
            l == layout_of(c_area, t_area),
            l.cx + l.offset_x + 7 * l.cell_width <= u16::MAX,
            l.cy + l.offset_y + 6 * l.cell_height <= u16::MAX,
    {
        let width = c_area.width - 2;
        let height = c_area.height - 4;
        let cell_width = width / 7;
        let cell_height = height / 6;
        CalendarLayout {
            c_area,
            t_area,
            cx: c_area.x + 1,
            cy: c_area.y + 1,
            width,
            height,
            cell_width,
            cell_height,
            offset_x: (width - cell_width * 7) / 2,
            offset_y: (height - cell_height * 6) / 2 + 1,
        }
    }

    /// Draws the open frame of a box.
    fn render_open_frame(buf: &mut tui::buffer::Buffer, r: Rect, set: LineSet, style: CellStyle)
        requires
            surface(*old(buf)).wf(),
            r.width >= 1,
            r.height >= 1,
        ensures
            surface(*final(buf)) == open_frame(surface(*old(buf)), r, set, style),
            surface(*final(buf)).wf(),
    {
        let x0 = r.x as u32;
        let y0 = r.y as u32;
        let x1 = r.x as u32 + r.width as u32 - 1;
        let y1 = r.y as u32 + r.height as u32 - 1;
        let tail: u32 = if r.width >= 3 {
            r.x as u32 + r.width as u32 - 3
        } else {
            r.x as u32
        };
        let tail_len: u16 = if r.width >= 3 {
            3
        } else {
            r.width
        };
        draw_vline(buf, x0, y0, r.height, set.vertical, style);
        draw_hline(buf, x0, y0, 3, set.horizontal, style);
        draw_hline(buf, tail, y0, tail_len, set.horizontal, style);
        draw_vline(buf, x1, y0, r.height, set.vertical, style);
        draw_hline(buf, x0, y1, 3, set.horizontal, style);
        draw_hline(buf, tail, y1, tail_len, set.horizontal, style);
        plot_wide(buf, x1, y1, set.bottom_right, style);
        plot_wide(buf, x1, y0, set.top_right, style);
        plot_wide(buf, x0, y1, set.bottom_left, style);
        plot_wide(buf, x0, y0, set.top_left, style);
    }

    /// Draws the box of a day.
    fn render_cell(
        buf: &mut tui::buffer::Buffer,
        r: Rect,
        day: u32,
        selected: u32,
        today: u32,
        events: usize,
        colors: ColorData,
    )
        requires
            surface(*old(buf)).wf(),
            r.x + r.width <= u16::MAX,
            r.y + r.height <= u16::MAX,
            day <= 31,
        ensures
            surface(*final(buf)) == cell_drawn(
                surface(*old(buf)),
                r,
                day as int,
                selected as int,
                today as int,
                events as nat,
                colors,
            ),
            surface(*final(buf)).wf(),
    {
        if r.width == 0 || r.height == 0 {
            return ;
        }
        let border_type = if day == today {
            BorderType::Double
        } else {
            BorderType::Plain
        };
        let style = if day == 0 {
            CellStyle::plain().fg(Color::Black)
        } else if day == selected {
            AppStyles::CalendarSelected.get(colors)
        } else if day == today {
            AppStyles::CalendarCurDay.get(colors)
        } else {
            AppStyles::CalendarDeselected.get(colors)
        };
        if day == selected || day == today {
            draw_rect_borders(buf, r, Borders::all(), border_type, style);
        } else {
            Self::render_open_frame(buf, r, border_type.line_symbols(), style);
        }
        if day > 0 {
            let number_style = if day == today {
                AppStyles::CalendarCurDay.get(colors).fg(
                    if day == selected {
                        colors.main
                    } else {
                        colors.accent
                    },
                )
            } else if day == selected {
                AppStyles::CalendarSelected.get(colors)
            } else {
                AppStyles::CalendarDeselected.get(colors)
            };
            let mut number = String::new();
            push_two_digits(&mut number, day as u64);
            assert(number@ == two_digits(day as nat));
            let middle: u32 = r.x as u32 + (r.width / 2) as u32;
            if middle >= 1 {
                draw_text_wide(buf, middle - 1, r.y as u32, number.as_str(), number_style);
            }
            let ghost numbered = surface(*buf);
            let mut e: usize = 0;
            while e < events
                invariant
                    e <= events,
                    surface(*buf).wf(),
                    surface(*buf) == marks_drawn(numbered, r, colors, e as nat),
                decreases events - e,
            {
                if e <= 0xffff {
                    draw_text_wide(
                        buf,
                        r.x as u32 + 1 + e as u32,
                        r.y as u32 + 1,
                        EVENT_MARK,
                        AppStyles::Main.get(colors),
                    );
                }
                e = e + 1;
            }
        }
    }

    /// Writes a text `n` times, one below the other.
    fn render_column(
        buf: &mut tui::buffer::Buffer,
        x: u32,
        y: u32,
        n: u16,
        text: &str,
        style: CellStyle,
    )
        requires
            surface(*old(buf)).wf(),
            y <= 0x1000_0000,
        ensures
            surface(*final(buf)) == column_drawn(
                surface(*old(buf)),
                x as int,
                y as int,
                n as nat,
                text@,
                style,
            ),
            surface(*final(buf)).wf(),
    {
        let mut i: u16 = 0;
        while i < n
            invariant
                i <= n,
                y <= 0x1000_0000,
                surface(*buf).wf(),
                surface(*buf) == column_drawn(
                    surface(*old(buf)),
                    x as int,
                    y as int,
                    i as nat,
                    text@,
                    style,
                ),
            decreases n - i,
        {
            draw_text_wide(buf, x, y + i as u32, text, style);
            i = i + 1;
        }
    }

    /// The note between two events.
    fn gap_text_of(width: u16, from_hour: u32, to_hour: u32) -> (r: String)
        ensures
            r@ == gap_text(width as int, from_hour as int, to_hour as int),
    {
        let hours: u32 = if to_hour >= from_hour {
            to_hour - from_hour
        } else {
            0
        };
        let mut text = String::new();
        push_decimal(&mut text, hours as u64);
        push_text(&mut text, " Hour(s)");
        assert(text@ == decimal(hours as nat) + " Hour(s)"@);
        let len = text.as_str().unicode_len();
        let room: usize = if width as usize >= 5 && width as usize - 5 >= len {
            width as usize - 5 - len
        } else {
            0
        };
        let mut out = String::new();
        push_repeat(&mut out, '-', room / 2);
        push_text(&mut out, text.as_str());
        push_repeat(&mut out, '-', room / 2);
        assert(out@ == gap_text(width as int, from_hour as int, to_hour as int)) by {
            let lines = Seq::new((room / 2) as nat, |i: int| '-');
            assert(Seq::<char>::empty() + lines == lines);
        }
        out
    }

    /// Draws one event of the timeline.
    fn render_event(
        buf: &mut tui::buffer::Buffer,
        inner: Rect,
        i: usize,
        event: &CalendarEvent,
        next: Option<&CalendarEvent>,
        colors: ColorData,
    )
        requires
            surface(*old(buf)).wf(),
        ensures
            surface(*final(buf)) == event_drawn(
                surface(*old(buf)),
                inner,
                i as int,
                *event,
                match next {
                    Some(e) => Some(*e),
                    None => None,
                },
                colors,
            ),
            surface(*final(buf)).wf(),
    {
        proof {
            reveal_with_fuel(column_drawn, 6);
        }
        if i >= 8192 {
            return ;
        }
        let ox = inner.x as u32;
        let y: u32 = inner.y as u32 + 2 + 8 * (i as u32);
        let main = AppStyles::Main.get(colors);
        let accent = AppStyles::Accent.get(colors);
        let bold = main.bold();
        let start = clock_text_of(event.start.hour, event.start.minute);
        let end = clock_text_of(event.end.hour, event.end.minute);
        draw_text_wide(buf, ox, y, start.as_str(), bold);
        draw_text_wide(buf, ox, y + 4, end.as_str(), bold);
        Self::render_column(buf, ox + 5, y, 5, THICK_VERTICAL, main);
        match next {
            Some(following) => {
                let note = Self::gap_text_of(inner.width, event.end.hour, following.start.hour);
                draw_text_wide(buf, ox + 5, y + 5, VERTICAL, accent);
                draw_text_wide(buf, ox + 5, y + 6, VERTICAL, accent);
                draw_text_wide(buf, ox + 5, y + 6, note.as_str(), accent);
                draw_text_wide(buf, ox + 5, y + 7, VERTICAL, accent);
            },
            None => {},
        }
        if y <= 0xffff && ox + 6 <= 0xffff && inner.width >= 6 {
            let mut lines: Vec<String> = Vec::new();
            lines.push(event.title.clone());
            assert(line_texts(lines@) =~= seq![event.title@]);
            draw_paragraph(
                buf,
                Rect { x: (ox + 6) as u16, y: y as u16, width: inner.width - 6, height: 5 },
                &lines,
            );
        }
    }

    /// Draws the calendar into `area`, which is split into the month pane and
    /// the timeline pane first. Where the area cannot be split, or the
    /// panes are too small, nothing is drawn.
    pub fn render(
        self,
        area: Rect,
        buf: &mut tui::buffer::Buffer,
        state: &mut CalendarState,
        colors: ColorData,
    )
        requires
            surface(*old(buf)).wf(),
            old(state).wf(),
        ensures
            surface(*final(buf)) == calendar_shown(surface(*old(buf)), area, *old(state), colors),
            surface(*final(buf)).wf(),
            *final(state) == *old(state),
    {
        if area.width <= 873 && area.x as u32 + area.width as u32 <= 0xffff && area.y as u32
            + area.height as u32 <= 0xffff {
            let (c_area, t_area) = split_panes(area);
            if Self::fits(c_area, t_area) {
                self.render_panes(c_area, t_area, buf, state, colors);
            }
        }
    }

    /// Draws the calendar into its two panes.
    pub fn render_panes(
        self,
        c_area: Rect,
        t_area: Rect,
        buf: &mut tui::buffer::Buffer,
        state: &mut CalendarState,
        colors: ColorData,
    )
        requires
            surface(*old(buf)).wf(),
            old(state).wf(),
            panes_fit(c_area, t_area),
        ensures
            surface(*final(buf)) == calendar_drawn(
                surface(*old(buf)),
                c_area,
                t_area,
                *old(state),
                colors,
            ),
            surface(*final(buf)).wf(),
            *final(state) == *old(state),
    {
        let l = Self::layout(c_area, t_area);
        let main = AppStyles::Main.get(colors);
        draw_rect_borders(buf, l.c_area, Borders::all(), BorderType::Plain, main);

        // the name of the month and the year, in the middle of the top line
        let mut title = String::new();
        push_text(&mut title, month_name_of(state.cur_month));
        push_char(&mut title, ' ');
        push_int(&mut title, state.cur_year as i64);
        assert(title@ == month_title(state.cur_month as int, state.cur_year as int)) by {
            let name = month_name(state.cur_month as int);
            assert(Seq::<char>::empty() + name == name);
        }
        let half = title.as_str().unicode_len() / 2;
        let middle: u32 = l.cx as u32 + (l.width / 2) as u32;
        if half <= middle as usize {
            draw_text_wide(buf, middle - half as u32, l.cy as u32, title.as_str(), main.bold());
        }
        // the names of the weekdays

        let ghost titled = surface(*buf);
        let mut d: u16 = 0;
        while d < 7
            invariant
                d <= 7,
                l == layout_of(c_area, t_area),
                l.cx + l.offset_x + 7 * l.cell_width <= u16::MAX,
                surface(*buf).wf(),
                surface(*buf) == weekdays_drawn(titled, l, colors, d as nat),
                main == AppStyles::Main.get(colors),
            decreases 7 - d,
        {
            assert(d * l.cell_width <= 7 * l.cell_width) by (nonlinear_arith)
                requires
                    d <= 7,
                    l.cell_width >= 0,
            ;
            draw_text_wide(
                buf,
                d as u32 * l.cell_width as u32 + l.cx as u32 + l.offset_x as u32,
                2,
                weekday_name_of(d as u32),
                main,
            );
            d = d + 1;
        }
        // the six weeks

        let ghost named = surface(*buf);
        let mut k: u16 = 0;
        while k < 42
            invariant
                k <= 42,
                l == layout_of(c_area, t_area),
                l.cx + l.offset_x + 7 * l.cell_width <= u16::MAX,
                l.cy + l.offset_y + 6 * l.cell_height <= u16::MAX,
                state.wf(),
                *state == *old(state),
                surface(*buf).wf(),
                surface(*buf) == cells_drawn(named, l, *state, colors, k as nat),
            decreases 42 - k,
        {
            let row = k / 7;
            let column = k % 7;
            assert(column * l.cell_width + l.cell_width <= 7 * l.cell_width) by (nonlinear_arith)
                requires
                    0 <= column <= 6,
                    l.cell_width >= 0,
            ;
            assert(row * l.cell_height + l.cell_height <= 6 * l.cell_height) by (nonlinear_arith)
                requires
                    0 <= row <= 5,
                    l.cell_height >= 0,
            ;
            let r = Rect {
                x: column * l.cell_width + l.cx + l.offset_x,
                y: row * l.cell_height + l.cy + l.offset_y,
                width: l.cell_width,
                height: l.cell_height,
            };
            let shifted: i64 = k as i64 + 1 - state.start_day as i64;
            let day: u32 = if shifted < 1 || shifted > state.num_of_days {
                0
            } else {
                shifted as u32
            };
            let events = if day > 0 {
                state.count_events(day)
            } else {
                0
            };
            Self::render_cell(buf, r, day, state.selected_day, state.cur_day, events, colors);
            k = k + 1;
        }
        // the timeline

        draw_rect_borders(buf, l.t_area, Borders::all(), BorderType::Plain, main);
        let inner = Rect {
            x: l.t_area.x + 1,
            y: l.t_area.y + 1,
            width: l.t_area.width - 2,
            height: l.t_area.height - 2,
        };
        draw_text_wide(
            buf,
            inner.x as u32 + (inner.width / 2) as u32 - 3,
            inner.y as u32,
            "Events",
            main.bold(),
        );
        let ghost headed = surface(*buf);
        match state.data.get(&state.selected_day) {
            Some(event_list) => {
                let n = event_list.len();
                let mut i: usize = 0;
                while i < n
                    invariant
                        i <= n,
                        n == event_list@.len(),
                        event_list@ == selected_events(*state),
                        surface(*buf).wf(),
                        surface(*buf) == timeline_drawn(
                            headed,
                            inner,
                            event_list@,
                            colors,
                            i as nat,
                        ),
                    decreases n - i,
                {
                    let next = if i + 1 < n {
                        Some(&event_list[i + 1])
                    } else {
                        None
                    };
                    Self::render_event(buf, inner, i, &event_list[i], next, colors);
                    i = i + 1;
                }
            },
            None => {},
        }
    }
}

/// Stepping the month keeps the calendar consistent: the length of the
/// month and the weekday of its first day are those of the month and the
/// year that are shown afterwards.
pub proof fn law_month_step_consistent(pre: CalendarState, post: CalendarState, amount: i32)
    requires
        pre.wf(),
        pre.month_stepped(post, amount),
    ensures
        post.wf(),
{
}

/// Each calendar of the sequence is the one before it after a step of the
/// month.
pub open spec fn month_steps(states: Seq<CalendarState>, amounts: Seq<i32>) -> bool {
    &&& states.len() == amounts.len() + 1
    &&& forall|i: int|
        0 <= i < amounts.len() ==> (#[trigger] states[i]).month_stepped(states[i + 1], amounts[i])
}

/// After any sequence of steps of the month the calendar is consistent.
pub proof fn law_month_steps_consistent(states: Seq<CalendarState>, amounts: Seq<i32>, k: int)
    requires
        month_steps(states, amounts),
        states[0].wf(),
        0 <= k < states.len(),
    ensures
        states[k].wf(),
    decreases k,
{
    if k > 0 {
        law_month_steps_consistent(states, amounts, k - 1);
        assert(states[k - 1].month_stepped(states[k - 1 + 1], amounts[k - 1]));
    }
}

/// The selected day stays in the month and the selected event among the
/// events of the selected day, by whatever amount they are moved.
pub proof fn law_calendar_cursors_bounded(state: CalendarState, amount: i32)
    requires
        state.wf(),
    ensures
        1 <= state.day_stepped(amount).selected_day <= state.num_of_days,
        state.events_count(state.selected_day) > 0 ==> state.event_stepped(amount).selected_event
            < state.events_count(state.selected_day),
        state.events_count(state.selected_day) == 0 ==> state.event_stepped(amount) == state,
        state.selected_day == 1 && amount < 0 ==> state.day_stepped(amount).selected_day == 1,
        state.selected_event == 0 && amount < 0 ==> state.event_stepped(amount).selected_event
            == 0,
{
}

/// The selected event of a day with events is moved by the amount and held
/// between the first and the last event of the day; nothing else changes.
/// This holds of days with as many events as the index can number.
pub proof fn law_selected_event_is_sum_held(state: CalendarState, amount: i32)
    requires
        1 <= state.events_count(state.selected_day) <= 0x1_0000_0000,
    ensures
        state.event_stepped(amount) == (CalendarState {
            selected_event: crate::util::held(
                state.selected_event + amount,
                0,
                state.events_count(state.selected_day) - 1,
            ) as u32,
            ..state
        }),
{
}

/// The selected day is moved by the amount and held between the first and
/// the last day of the month; nothing else changes.
pub proof fn law_selected_day_is_sum_held(state: CalendarState, amount: i32)
    requires
        state.wf(),
    ensures
        state.day_stepped(amount) == (CalendarState {
            selected_day: crate::util::held(
                state.selected_day + amount,
                1,
                state.num_of_days as int,
            ) as u32,
            ..state
        }),
{
}

/// A step of the month that is taken leaves the calendar consistent even
/// where it was not before: the length of the month and the weekday of its
/// first day are reckoned anew. What is selected, today and the popup stay
/// as they were.
pub proof fn law_month_step_recomputes(pre: CalendarState, post: CalendarState, amount: i32)
    requires
        month_in_range(pre.cur_year as int, pre.cur_month as int),
        pre.month_stepped(post, amount),
        pre.step_taken(amount),
    ensures
        post.wf(),
        post.selected_day == pre.selected_day,
        post.selected_event == pre.selected_event,
        post.cur_day == pre.cur_day,
        post.show_popup == pre.show_popup,
        post.data@ == Map::<u32, Vec<CalendarEvent>>::empty(),
{
}

} // verus!
