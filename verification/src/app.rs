//! What the dashboard holds from one frame to the next.

use crate::calendar::CalendarState;
use crate::clock::ClockState;
use crate::film_tracker::FilmTrackerState;
use crate::grade_tracker::GradeTrackerState;
use crate::money_tracker::MoneyTrackerState;
use crate::screens::Screen;
use crate::styles::ColorData;
use vstd::prelude::*;

verus! {

/// The state of the dashboard: the screen that is shown, the state of every
/// widget, and the colours of the theme.
#[derive(Debug)]
pub struct App {
    pub brightness: u16,
    pub volume: u16,
    pub calendar_state: CalendarState,
    pub grade_state: GradeTrackerState,
    pub clock_state: ClockState,
    pub cur_screen: Screen,
    pub money_state: MoneyTrackerState,
    pub film_state: FilmTrackerState,
    pub colors: ColorData,
}

/// A hundredth count held to a hundred.
pub open spec fn percent_held(value: u16) -> u16 {
    if value > 100 {
        100
    } else {
        value
    }
}

impl App {
    /// Brightness and volume are a hundred at most, and every widget's state
    /// is well formed.
    pub open spec fn wf(&self) -> bool {
        &&& self.brightness <= 100
        &&& self.volume <= 100
        &&& self.calendar_state.wf()
        &&& self.grade_state.wf()
        &&& self.money_state.wf()
        &&& self.film_state.search_form.wf()
    }

    /// The dashboard at the start, on its first screen. Brightness and
    /// volume are held to a hundred.
    pub fn new(
        brightness: u16,
        volume: u16,
        calendar_state: CalendarState,
        grade_state: GradeTrackerState,
        clock_state: ClockState,
        money_state: MoneyTrackerState,
        film_state: FilmTrackerState,
        colors: ColorData,
    ) -> (r: App)
        requires
            calendar_state.wf(),
            grade_state.wf(),
            money_state.wf(),
            film_state.search_form.wf(),
        ensures
            r.wf(),
            r == (App {
                brightness: percent_held(brightness),
                volume: percent_held(volume),
                calendar_state,
                grade_state,
                clock_state,
                cur_screen: Screen::DashboardScreen,
                money_state,
                film_state,
                colors,
            }),
    {
        App {
            brightness: if brightness > 100 {
                100
            } else {
                brightness
            },
            volume: if volume > 100 {
                100
            } else {
                volume
            },
            calendar_state,
            grade_state,
            clock_state,
            cur_screen: Screen::DashboardScreen,
            money_state,
            film_state,
            colors,
        }
    }
}

} // verus!
