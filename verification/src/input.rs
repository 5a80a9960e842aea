//! The input router: what one key does to the dashboard, by the screen that
//! is shown and by whether a form takes the keys, and what is left to do
//! outside the dashboard afterwards.

use crate::app::App;

use crate::db::{MoneyTransaction, TransactionQuery};
use crate::grade_tracker::{Grade, GradeTrackerState};
use crate::keys::KeyCode;
use crate::money_tracker::MoneyTrackerState;
use crate::screens::Screen;
use crate::util::bounded_step;
use vstd::prelude::*;
use vstd::string::StringExecFns;

verus! {

/// What is left to do outside the dashboard after a key: nothing, to leave,
/// or one call on the machine, the calendar source or the store. The
/// dashboard takes the answer afterwards.
#[derive(Debug)]
pub enum Task {
    /// Nothing.
    Nothing,
    /// Leave the dashboard.
    Quit,
    /// Set the brightness of the screen.
    SetBacklight(u16),
    /// Set the volume of the sound.
    SetVolume(u16),
    /// Fetch the events of a month.
    LoadMonth { year: i32, month: u32, num_of_days: i64 },
    /// Store the modules with this grade added to the selected one.
    StoreGrade(Grade),
    /// Count and fetch the transactions of a new search.
    SearchTransactions(TransactionQuery),
    /// Store this transaction.
    StoreTransaction(MoneyTransaction),
    /// Fetch the transactions of the page that was turned to.
    LoadPage(TransactionQuery),
    /// Search for films of this name.
    SearchMovie(String),
}

/// A form or a popup takes the keys that would else move about the screen:
/// the grade form is shown, or one of the forms of the money tracker is the
/// selected part.
pub open spec fn capture_input(app: App) -> bool {
    app.grade_state.show_form || app.money_state.add_form_selected
        || app.money_state.search_form_selected
}

/// The key is a character or backspace: what a form takes as input.
pub open spec fn is_text_key(key: KeyCode) -> bool {
    key is Char || key is Backspace
}

/// The screen that is shown has a binding of its own for the key.
pub open spec fn screen_binds(app: App, key: KeyCode) -> bool {
    let capture = capture_input(app);
    match app.cur_screen {
        Screen::DashboardScreen => key is Left || key is Right || key is Up || key is Down,
        Screen::CalendarScreen => key is Left || key is Right || key is Up || key is Down
            || key is Enter,
        Screen::GradeScreen => if capture {
            key is Up || key is Down || key is Tab || key is Esc || is_text_key(key)
                || key is Enter
        } else {
            key is Up || key is Down || key == KeyCode::Char('i')
        },
        Screen::MoneyScreen => if capture {
            key is Esc || is_text_key(key) || key is Up || key is Down || key is Tab
                || key is Enter
        } else {
            key == KeyCode::Char('i') || key == KeyCode::Char('s') || key is Up || key is Down
                || key is Right || key is Left
        },
        Screen::FilmScreen => !capture && key is Enter,
    }
}

/// A brightness or a volume after one step up or down, held from nothing to
/// a hundred.
pub open spec fn percent_stepped(value: u16, amount: int) -> u16 {
    bounded_step(value as int, 0, 100, amount) as u16
}

/// What a key does on the dashboard screen: left and right step the
/// brightness, up and down the volume, and the machine is told.
pub open spec fn dashboard_routed(pre: App, post: App, key: KeyCode, task: Task) -> bool {
    match key {
        KeyCode::Left => post == (App { brightness: percent_stepped(pre.brightness, -1), ..pre })
            && task == Task::SetBacklight(post.brightness),
        KeyCode::Right => post == (App { brightness: percent_stepped(pre.brightness, 1), ..pre })
            && task == Task::SetBacklight(post.brightness),
        KeyCode::Up => post == (App { volume: percent_stepped(pre.volume, 1), ..pre }) && task
            == Task::SetVolume(post.volume),
        _ => post == (App { volume: percent_stepped(pre.volume, -1), ..pre }) && task
            == Task::SetVolume(post.volume),
    }
}

/// What a key does on the calendar screen: up and down step the month, and
/// its events are to be fetched; left and right move the selected event
/// while the popup is open and the selected day while it is not; enter
/// toggles the popup.
pub open spec fn calendar_routed(pre: App, post: App, key: KeyCode, task: Task) -> bool {
    let state = pre.calendar_state;
    match key {
        KeyCode::Down | KeyCode::Up => {
            &&& state.month_stepped(
                post.calendar_state,
                if key is Up {
                    1i32
                } else {
                    -1i32
                },
            )
            &&& post == (App { calendar_state: post.calendar_state, ..pre })
            &&& task == (Task::LoadMonth {
                year: post.calendar_state.cur_year,
                month: post.calendar_state.cur_month,
                num_of_days: post.calendar_state.num_of_days,
            })
        },
        KeyCode::Left | KeyCode::Right => {
            let amount = if key is Right {
                1i32
            } else {
                -1i32
            };
            &&& post == (App {
                calendar_state: if state.show_popup {
                    state.event_stepped(amount)
                } else {
                    state.day_stepped(amount)
                },
                ..pre
            })
            &&& task is Nothing
        },
        _ => post == (App { calendar_state: state.toggled(), ..pre }) && task is Nothing,
    }
}

/// The grade tracker `post` is `pre` with a form whose model is `form`.
pub open spec fn grade_form_is(
    pre: GradeTrackerState,
    post: GradeTrackerState,
    form: crate::form::FormStateView,
) -> bool {
    post.form_state@ == form && post == (GradeTrackerState { form_state: post.form_state, ..pre })
}

/// What a key does on the grade screen. While the form takes the keys: up
/// and down move its cursor, tab moves it on, escape hides the form,
/// characters and backspace go to the selected field, and enter submits the
/// form and hides it; a grade that can be added is to be stored. Else: up
/// and down move the selected module, and `i` shows the form.
pub open spec fn grade_routed(pre: App, post: App, key: KeyCode, task: Task) -> bool {
    let state = pre.grade_state;
    let rest = post == (App { grade_state: post.grade_state, ..pre });
    if capture_input(pre) {
        match key {
            KeyCode::Up => rest && task is Nothing && grade_form_is(
                state,
                post.grade_state,
                state.form_state@.moved(-1i32),
            ),
            KeyCode::Down | KeyCode::Tab => rest && task is Nothing && grade_form_is(
                state,
                post.grade_state,
                state.form_state@.moved(1i32),
            ),
            KeyCode::Esc => rest && task is Nothing && post.grade_state == (GradeTrackerState {
                show_form: !state.show_form,
                ..state
            }),
            KeyCode::Enter => {
                &&& rest
                &&& post.grade_state == (GradeTrackerState {
                    show_form: !state.show_form,
                    ..state
                })
                &&& match task {
                    Task::StoreGrade(grade) => state.submitted(Some(grade)),
                    Task::Nothing => state.submitted(None),
                    _ => false,
                }
            },
            _ => rest && task is Nothing && grade_form_is(
                state,
                post.grade_state,
                state.form_state@.sent(key),
            ),
        }
    } else {
        match key {
            KeyCode::Up => rest && task is Nothing && post.grade_state == state.selection_stepped(-1i32),
            KeyCode::Down => rest && task is Nothing && post.grade_state
                == state.selection_stepped(1i32),
            _ => rest && task is Nothing && post.grade_state == (GradeTrackerState {
                show_form: !state.show_form,
                ..state
            }),
        }
    }
}

/// The money tracker `post` is `pre` with the form that takes the keys, the
/// search form where it is the selected part and the add form where it is
/// not, having the model `form`.
pub open spec fn money_form_is(
    pre: MoneyTrackerState,
    post: MoneyTrackerState,
    form: crate::form::FormStateView,
) -> bool {
    if pre.search_form_selected {
        post.search_form@ == form && post == (MoneyTrackerState {
            search_form: post.search_form,
            ..pre
        })
    } else {
        post.add_form@ == form && post == (MoneyTrackerState { add_form: post.add_form, ..pre })
    }
}

/// The form of the money tracker that takes the keys.
pub open spec fn money_form(state: MoneyTrackerState) -> crate::form::FormStateView {
    if state.search_form_selected {
        state.search_form@
    } else {
        state.add_form@
    }
}

/// What a key does on the money screen. While a form takes the keys: escape
/// makes the list the selected part, characters and backspace go to the
/// selected field, up and down move the cursor, tab moves it on, and enter
/// submits the form: a search is to be run, or a transaction to be stored.
/// Else: `i` and `s` select the add form and the search form, up and down
/// move the selected transaction, and right and left turn the page, whose
/// transactions are to be fetched.
pub open spec fn money_routed(pre: App, post: App, key: KeyCode, task: Task) -> bool {
    let state = pre.money_state;
    let rest = post == (App { money_state: post.money_state, ..pre });
    if capture_input(pre) {
        match key {
            KeyCode::Esc => rest && task is Nothing && post.money_state == (MoneyTrackerState {
                search_form_selected: false,
                add_form_selected: false,
                ..state
            }),
            KeyCode::Up => rest && task is Nothing && money_form_is(
                state,
                post.money_state,
                money_form(state).moved(-1i32),
            ),
            KeyCode::Down | KeyCode::Tab => rest && task is Nothing && money_form_is(
                state,
                post.money_state,
                money_form(state).moved(1i32),
            ),
            KeyCode::Enter => if state.search_form_selected {
                &&& rest
                &&& match task {
                    Task::SearchTransactions(query) => state.search_submitted(
                        post.money_state,
                        Some(query),
                    ),
                    Task::Nothing => state.search_submitted(post.money_state, None),
                    _ => false,
                }
            } else {
                &&& post == pre
                &&& match task {
                    Task::StoreTransaction(transaction) => state.add_submitted(Some(transaction)),
                    Task::Nothing => state.add_submitted(None),
                    _ => false,
                }
            },
            _ => rest && task is Nothing && money_form_is(
                state,
                post.money_state,
                money_form(state).sent(key),
            ),
        }
    } else {
        match key {
            KeyCode::Char(c) => rest && task is Nothing && post.money_state == (MoneyTrackerState {
                search_form_selected: c == 's',
                add_form_selected: c == 'i',
                ..state
            }),
            KeyCode::Up => rest && task is Nothing && post.money_state == state.selection_stepped(-1i32),
            KeyCode::Down => rest && task is Nothing && post.money_state
                == state.selection_stepped(1i32),
            KeyCode::Right => rest && match task {
                Task::LoadPage(query) => state.next_page_turned(post.money_state, Some(query)),
                Task::Nothing => state.next_page_turned(post.money_state, None),
                _ => false,
            },
            _ => rest && match task {
                Task::LoadPage(query) => state.prev_page_turned(post.money_state, Some(query)),
                Task::Nothing => state.prev_page_turned(post.money_state, None),
                _ => false,
            },
        }
    }
}

/// The name that the film screen searches for.
pub const FILM_QUERY: &'static str = "dark";

/// What a key does where the screen has no binding of its own for it: while
/// no form takes the keys, `d`, `c`, `g`, `m` and `f` show the dashboard,
/// the calendar, the grades, the money and the films, and `q` leaves. Any
/// other key does nothing.
pub open spec fn global_routed(pre: App, post: App, key: KeyCode, task: Task) -> bool {
    if capture_input(pre) {
        post == pre && task is Nothing
    } else if key == KeyCode::Char('d') {
        post == (App { cur_screen: Screen::DashboardScreen, ..pre }) && task is Nothing
    } else if key == KeyCode::Char('c') {
        post == (App { cur_screen: Screen::CalendarScreen, ..pre }) && task is Nothing
    } else if key == KeyCode::Char('g') {
        post == (App { cur_screen: Screen::GradeScreen, ..pre }) && task is Nothing
    } else if key == KeyCode::Char('m') {
        post == (App { cur_screen: Screen::MoneyScreen, ..pre }) && task is Nothing
    } else if key == KeyCode::Char('f') {
        post == (App { cur_screen: Screen::FilmScreen, ..pre }) && task is Nothing
    } else if key == KeyCode::Char('q') {
        post == pre && task is Quit
    } else {
        post == pre && task is Nothing
    }
}

/// What a key does: the binding of the screen that is shown where it has
/// one for the key, else the binding that holds on every screen.
pub open spec fn routed(pre: App, post: App, key: KeyCode, task: Task) -> bool {
    if screen_binds(pre, key) {
        match pre.cur_screen {
            Screen::DashboardScreen => dashboard_routed(pre, post, key, task),
            Screen::CalendarScreen => calendar_routed(pre, post, key, task),
            Screen::GradeScreen => grade_routed(pre, post, key, task),
            Screen::MoneyScreen => money_routed(pre, post, key, task),
            Screen::FilmScreen => post == pre && (task matches Task::SearchMovie(name) && name@
                == FILM_QUERY@),
        }
    } else {
        global_routed(pre, post, key, task)
    }
}

/// A brightness or a volume after one step.
fn step_percent(value: u16, up: bool) -> (r: u16)
    ensures
        r == percent_stepped(
            value,
            if up {
                1
            } else {
                -1
            },
        ),
        r <= 100,
{
    if up {
        if value >= 100 {
            100
        } else {
            value + 1
        }
    } else {
        if value == 0 {
            0
        } else if value > 101 {
            100
        } else {
            value - 1
        }
    }
}

/// Takes a key on the dashboard screen.
fn dashboard_input(app: &mut App, key: &KeyCode) -> (task: Task)
    requires
        old(app).wf(),
        *key is Left || *key is Right || *key is Up || *key is Down,
    ensures
        final(app).wf(),
        dashboard_routed(*old(app), *final(app), *key, task),
{
    match key {
        KeyCode::Left => {
            app.brightness = step_percent(app.brightness, false);
            Task::SetBacklight(app.brightness)
        },
        KeyCode::Right => {
            app.brightness = step_percent(app.brightness, true);
            Task::SetBacklight(app.brightness)
        },
        KeyCode::Up => {
            app.volume = step_percent(app.volume, true);
            Task::SetVolume(app.volume)
        },
        _ => {
            app.volume = step_percent(app.volume, false);
            Task::SetVolume(app.volume)
        },
    }
}

/// Takes a key on the calendar screen.
fn calendar_input(app: &mut App, key: &KeyCode) -> (task: Task)
    requires
        old(app).wf(),
        *key is Left || *key is Right || *key is Up || *key is Down || *key is Enter,
    ensures
        final(app).wf(),
        calendar_routed(*old(app), *final(app), *key, task),
{
    match key {
        KeyCode::Down => {
            app.calendar_state.increment_month(-1);
            Task::LoadMonth {
                year: app.calendar_state.cur_year,
                month: app.calendar_state.cur_month,
                num_of_days: app.calendar_state.num_of_days,
            }
        },
        KeyCode::Up => {
            app.calendar_state.increment_month(1);
            Task::LoadMonth {
                year: app.calendar_state.cur_year,
                month: app.calendar_state.cur_month,
                num_of_days: app.calendar_state.num_of_days,
            }
        },
        KeyCode::Left => {
            if app.calendar_state.show_popup {
                app.calendar_state.increment_selected_event(-1);
            } else {
                app.calendar_state.increment_selected_day(-1);
            }
            Task::Nothing
        },
        KeyCode::Right => {
            if app.calendar_state.show_popup {
                app.calendar_state.increment_selected_event(1);
            } else {
                app.calendar_state.increment_selected_day(1);
            }
            Task::Nothing
        },
        _ => {
            app.calendar_state.popup_toggle();
            Task::Nothing
        },
    }
}

/// Takes a key on the grade screen.
fn grade_input(app: &mut App, key: &KeyCode, capture: bool) -> (task: Task)
    requires
        old(app).wf(),
        capture == capture_input(*old(app)),
        old(app).cur_screen == Screen::GradeScreen,
        screen_binds(*old(app), *key),
    ensures
        final(app).wf(),
        grade_routed(*old(app), *final(app), *key, task),
{
    if capture {
        match key {
            KeyCode::Up => {
                app.grade_state.form_state.increment_selected(-1);
                Task::Nothing
            },
            KeyCode::Down => {
                app.grade_state.form_state.increment_selected(1);
                Task::Nothing
            },
            KeyCode::Tab => {
                app.grade_state.form_state.increment_selected(1);
                Task::Nothing
            },
            KeyCode::Esc => {
                app.grade_state.toggle_form();
                Task::Nothing
            },
            KeyCode::Enter => {
                let grade = app.grade_state.submit_form();
                app.grade_state.toggle_form();
                match grade {
                    Some(grade) => Task::StoreGrade(grade),
                    None => Task::Nothing,
                }
            },
            _ => {
                app.grade_state.form_state.send_input(key);
                Task::Nothing
            },
        }
    } else {
        match key {
            KeyCode::Up => {
                app.grade_state.increment_selected(-1);
                Task::Nothing
            },
            KeyCode::Down => {
                app.grade_state.increment_selected(1);
                Task::Nothing
            },
            _ => {
                app.grade_state.toggle_form();
                Task::Nothing
            },
        }
    }
}

/// Takes a key on the money screen.
fn money_input(app: &mut App, key: &KeyCode, capture: bool) -> (task: Task)
    requires
        old(app).wf(),
        capture == capture_input(*old(app)),
        old(app).cur_screen == Screen::MoneyScreen,
        screen_binds(*old(app), *key),
    ensures
        final(app).wf(),
        money_routed(*old(app), *final(app), *key, task),
{
    if capture {
        match key {
            KeyCode::Esc => {
                app.money_state.select_transaction_list();
                Task::Nothing
            },
            KeyCode::Up => {
                if app.money_state.search_form_selected {
                    app.money_state.search_form.increment_selected(-1);
                } else {
                    app.money_state.add_form.increment_selected(-1);
                }
                Task::Nothing
            },
            KeyCode::Down => {
                if app.money_state.search_form_selected {
                    app.money_state.search_form.increment_selected(1);
                } else {
                    app.money_state.add_form.increment_selected(1);
                }
                Task::Nothing
            },
            KeyCode::Tab => {
                if app.money_state.search_form_selected {
                    app.money_state.search_form.increment_selected(1);
                } else {
                    app.money_state.add_form.increment_selected(1);
                }
                Task::Nothing
            },
            KeyCode::Enter => {
                if app.money_state.search_form_selected {
                    match app.money_state.submit_search_form() {
                        Some(query) => Task::SearchTransactions(query),
                        None => Task::Nothing,
                    }
                } else {
                    match app.money_state.submit_add_form() {
                        Some(transaction) => Task::StoreTransaction(transaction),
                        None => Task::Nothing,
                    }
                }
            },
            _ => {
                if app.money_state.search_form_selected {
                    app.money_state.search_form.send_input(key);
                } else {
                    app.money_state.add_form.send_input(key);
                }
                Task::Nothing
            },
        }
    } else {
        match key {
            KeyCode::Char(c) => {
                if *c == 'i' {
                    app.money_state.select_add_form();
                } else {
                    app.money_state.select_search_form();
                }
                Task::Nothing
            },
            KeyCode::Up => {
                app.money_state.increment_selected(-1);
                Task::Nothing
            },
            KeyCode::Down => {
                app.money_state.increment_selected(1);
                Task::Nothing
            },
            KeyCode::Right => {
                match app.money_state.get_next_page() {
                    Some(query) => Task::LoadPage(query),
                    None => Task::Nothing,
                }
            },
            _ => {
                match app.money_state.get_prev_page() {
                    Some(query) => Task::LoadPage(query),
                    None => Task::Nothing,
                }
            },
        }
    }
}

/// Whether the screen that is shown has a binding of its own for the key.
fn screen_takes(app: &App, key: &KeyCode, capture: bool) -> (r: bool)
    requires
        capture == capture_input(*app),
    ensures
        r == screen_binds(*app, *key),
{
    let arrow_up_down = matches!(key, KeyCode::Up | KeyCode::Down);
    let arrow = arrow_up_down || matches!(key, KeyCode::Left | KeyCode::Right);
    let text = matches!(key, KeyCode::Char(_) | KeyCode::Backspace);
    let enter = matches!(key, KeyCode::Enter);
    let form_keys = arrow_up_down || matches!(key, KeyCode::Tab | KeyCode::Esc) || text || enter;
    let letter_i = match key {
        KeyCode::Char(c) => *c == 'i',
        _ => false,
    };
    let letter_s = match key {
        KeyCode::Char(c) => *c == 's',
        _ => false,
    };
    match app.cur_screen {
        Screen::DashboardScreen => arrow,
        Screen::CalendarScreen => arrow || enter,
        Screen::GradeScreen => if capture {
            form_keys
        } else {
            arrow_up_down || letter_i
        },
        Screen::MoneyScreen => if capture {
            form_keys
        } else {
            letter_i || letter_s || arrow
        },
        Screen::FilmScreen => !capture && enter,
    }
}

/// Takes a key where the screen has no binding of its own for it.
fn global_input(app: &mut App, key: &KeyCode, capture: bool) -> (task: Task)
    requires
        capture == capture_input(*old(app)),
    ensures
        global_routed(*old(app), *final(app), *key, task),
        old(app).wf() ==> final(app).wf(),
{
    if capture {
        return Task::Nothing;
    }
    match key {
        KeyCode::Char(c) => {
            if *c == 'd' {
                app.cur_screen = Screen::DashboardScreen;
            } else if *c == 'c' {
                app.cur_screen = Screen::CalendarScreen;
            } else if *c == 'g' {
                app.cur_screen = Screen::GradeScreen;
            } else if *c == 'm' {
                app.cur_screen = Screen::MoneyScreen;
            } else if *c == 'f' {
                app.cur_screen = Screen::FilmScreen;
            } else if *c == 'q' {
                return Task::Quit;
            }
            Task::Nothing
        },
        _ => Task::Nothing,
    }
}

/// Takes one key: changes the dashboard as the key is bound, and says what
/// is left to do outside it.
pub fn read_input(app: &mut App, key: &KeyCode) -> (task: Task)
    requires
        old(app).wf(),
    ensures
        final(app).wf(),
        routed(*old(app), *final(app), *key, task),
{
    let capture = app.grade_state.show_form || app.money_state.add_form_selected
        || app.money_state.search_form_selected;
    if screen_takes(app, key, capture) {
        match app.cur_screen {
            Screen::DashboardScreen => dashboard_input(app, key),
            Screen::CalendarScreen => calendar_input(app, key),
            Screen::GradeScreen => grade_input(app, key, capture),
            Screen::MoneyScreen => money_input(app, key, capture),
            Screen::FilmScreen => Task::SearchMovie(String::from_str(FILM_QUERY)),
        }
    } else {
        global_input(app, key, capture)
    }
}

/// No key stores a grade from a grade form whose required title is empty.
pub proof fn law_empty_title_stores_nothing(pre: App, post: App, key: KeyCode, task: Task)
    requires
        routed(pre, post, key, task),
        crate::grade_tracker::grade_shape(pre.grade_state.form_state@),
        pre.grade_state.form_state@.fields[0]->Text_0.is_required,
        pre.grade_state.form_state@.fields[0]->Text_0.value.len() == 0,
    ensures
        !(task is StoreGrade),
        post.grade_state.data == pre.grade_state.data,
{
    if task is StoreGrade {
        crate::grade_tracker::law_empty_title_is_not_submitted(
            pre.grade_state,
            Some(task->StoreGrade_0),
        );
    }
}

} // verus!
