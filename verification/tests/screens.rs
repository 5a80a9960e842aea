use dashboard::app::App;
use dashboard::ascii::{draw_ascii_string, stamp_figure};
use dashboard::button::Button;
use dashboard::calendar::{CalendarEvent, CalendarState, EventTime};
use dashboard::clock::{Clock, ClockState};
use dashboard::date::Date;
use dashboard::decimal::Decimal;
use dashboard::film_tracker::{FilmTracker, FilmTrackerState, MovieSearchItem};
use dashboard::grade_tracker::{Grade, GradeTrackerState, Module};
use dashboard::input::{read_input, Task};
use dashboard::keys::KeyCode;
use dashboard::money_tracker::MoneyTrackerState;
use dashboard::popup::Popup;
use dashboard::progress_bar::ProgressBar;
use dashboard::screens::{event_lines_of, split_lines, Screen};
use dashboard::styles::ColorData;
use dashboard::surface::{blank_surface, draw_text, CellStyle, Rect};
use dashboard::wait_popup::WaitPopup;
use tui::buffer::Buffer;

fn theme() -> ColorData {
    ColorData::new(None, None)
}

fn grid(width: u16, height: u16) -> Buffer {
    blank_surface(Rect { x: 0, y: 0, width, height }).unwrap()
}

fn row(buf: &Buffer, y: u16) -> String {
    (0..buf.area().width).map(|x| buf.get(x, y).symbol.clone()).collect()
}

fn screen_text(buf: &Buffer) -> String {
    (0..buf.area().height).map(|y| row(buf, y)).collect::<Vec<String>>().join("\n")
}

fn event(day: u32, title: &str, description: &str) -> CalendarEvent {
    CalendarEvent {
        start: EventTime { day, hour: 9, minute: 0 },
        end: EventTime { day, hour: 10, minute: 0 },
        title: title.to_owned(),
        description: description.to_owned(),
    }
}

fn app() -> App {
    let events = vec![event(3, "dentist", "bring card\nat nine"), event(3, "lunch", "")];
    let modules = vec![
        Module {
            name: "Maths".to_owned(),
            grades: vec![Grade { name: "exam".to_owned(), percentage: Decimal::from_units(80), weight: Decimal::from_units(50) }],
        },
        Module { name: "Art".to_owned(), grades: vec![] },
    ];
    App::new(
        250,
        40,
        CalendarState::new(2024, 2, 3, &events),
        GradeTrackerState::new(theme(), modules),
        ClockState::new(Date { year: 2024, month: 2, day: 3 }, 9, 41),
        MoneyTrackerState::new(theme(), Date { year: 2024, month: 2, day: 3 }),
        FilmTrackerState::new(theme()),
        theme(),
    )
}

fn press(app: &mut App, keys: &[KeyCode]) -> Vec<Task> {
    keys.iter().map(|k| read_input(app, k)).collect()
}

fn chars(text: &str) -> Vec<KeyCode> {
    text.chars().map(KeyCode::Char).collect()
}

#[test]
fn app_starts_on_the_dashboard() {
    let a = app();
    assert_eq!(a.cur_screen, Screen::DashboardScreen);
    assert_eq!(a.brightness, 100);
    assert_eq!(a.volume, 40);
}

#[test]
fn dashboard_keys_step_brightness_and_volume() {
    let mut a = app();
    assert!(matches!(read_input(&mut a, &KeyCode::Right), Task::SetBacklight(100)));
    assert!(matches!(read_input(&mut a, &KeyCode::Left), Task::SetBacklight(99)));
    assert!(matches!(read_input(&mut a, &KeyCode::Up), Task::SetVolume(41)));
    assert!(matches!(read_input(&mut a, &KeyCode::Down), Task::SetVolume(40)));
    a.volume = 0;
    assert!(matches!(read_input(&mut a, &KeyCode::Down), Task::SetVolume(0)));
    a.brightness = 0;
    assert!(matches!(read_input(&mut a, &KeyCode::Left), Task::SetBacklight(0)));
    assert_eq!((a.brightness, a.volume), (0, 0));
}

#[test]
fn letters_switch_the_screen_and_q_leaves() {
    let mut a = app();
    for (key, screen) in [
        ('c', Screen::CalendarScreen),
        ('g', Screen::GradeScreen),
        ('m', Screen::MoneyScreen),
        ('f', Screen::FilmScreen),
        ('d', Screen::DashboardScreen),
    ] {
        assert!(matches!(read_input(&mut a, &KeyCode::Char(key)), Task::Nothing));
        assert_eq!(a.cur_screen, screen);
    }
    assert!(matches!(read_input(&mut a, &KeyCode::Char('z')), Task::Nothing));
    assert!(matches!(read_input(&mut a, &KeyCode::Tab), Task::Nothing));
    assert!(matches!(read_input(&mut a, &KeyCode::Other), Task::Nothing));
    assert_eq!(a.cur_screen, Screen::DashboardScreen);
    assert!(matches!(read_input(&mut a, &KeyCode::Char('q')), Task::Quit));
}

#[test]
fn calendar_keys_move_day_event_and_month() {
    let mut a = app();
    press(&mut a, &[KeyCode::Char('c'), KeyCode::Right]);
    assert_eq!(a.calendar_state.selected_day, 4);
    press(&mut a, &[KeyCode::Left, KeyCode::Enter]);
    assert_eq!(a.calendar_state.selected_day, 3);
    assert!(a.calendar_state.show_popup);
    press(&mut a, &[KeyCode::Right, KeyCode::Right]);
    assert_eq!(a.calendar_state.selected_event, 1);
    assert_eq!(a.calendar_state.selected_day, 3);
    press(&mut a, &[KeyCode::Left, KeyCode::Left]);
    assert_eq!(a.calendar_state.selected_event, 0);
    press(&mut a, &[KeyCode::Enter]);
    assert!(!a.calendar_state.show_popup);
    let task = read_input(&mut a, &KeyCode::Up);
    assert!(matches!(task, Task::LoadMonth { year: 2024, month: 3, num_of_days: 31 }));
    let task = read_input(&mut a, &KeyCode::Down);
    assert!(matches!(task, Task::LoadMonth { year: 2024, month: 2, num_of_days: 29 }));
    assert!(a.calendar_state.data.is_empty());
}

#[test]
fn grade_form_takes_the_keys_while_it_is_shown() {
    let mut a = app();
    press(&mut a, &[KeyCode::Char('g'), KeyCode::Down]);
    assert_eq!(a.grade_state.selected, 1);
    press(&mut a, &[KeyCode::Up, KeyCode::Char('i')]);
    assert_eq!(a.grade_state.selected, 0);
    assert!(a.grade_state.show_form);
    press(&mut a, &chars("quiz"));
    press(&mut a, &[KeyCode::Char('m'), KeyCode::Backspace, KeyCode::Tab]);
    assert_eq!(a.cur_screen, Screen::GradeScreen);
    press(&mut a, &chars("75"));
    press(&mut a, &[KeyCode::Down]);
    press(&mut a, &chars("10"));
    press(&mut a, &[KeyCode::Down, KeyCode::Up, KeyCode::Down]);
    assert_eq!(a.grade_state.form_state.selected_field, 2);
    assert_eq!(a.grade_state.selected, 0);
    let task = read_input(&mut a, &KeyCode::Enter);
    assert!(!a.grade_state.show_form);
    match task {
        Task::StoreGrade(grade) => {
            assert_eq!(grade.name, "quiz");
            assert_eq!(grade.percentage, Decimal::from_units(75));
            assert_eq!(grade.weight, Decimal::from_units(10));
            assert_eq!(a.grade_state.data[0].grades.len(), 1);
            a.grade_state.add_grade_to_selected(grade, true);
            assert_eq!(a.grade_state.data[0].grades.len(), 2);
        }
        other => panic!("{:?}", other),
    }
}

#[test]
fn grade_form_with_an_empty_title_stores_nothing() {
    let mut a = app();
    press(&mut a, &[KeyCode::Char('g'), KeyCode::Char('i'), KeyCode::Tab]);
    press(&mut a, &chars("75"));
    press(&mut a, &[KeyCode::Tab]);
    press(&mut a, &chars("10"));
    let task = read_input(&mut a, &KeyCode::Enter);
    assert!(matches!(task, Task::Nothing));
    assert_eq!(a.grade_state.data[0].grades.len(), 1);
    assert_eq!(a.grade_state.data[1].grades.len(), 0);
    assert!(!a.grade_state.show_form);
    press(&mut a, &[KeyCode::Char('i'), KeyCode::Esc]);
    assert!(!a.grade_state.show_form);
}

#[test]
fn money_forms_take_the_keys_while_they_are_selected() {
    let mut a = app();
    press(&mut a, &[KeyCode::Char('m'), KeyCode::Char('s')]);
    assert!(a.money_state.search_form_selected);
    press(&mut a, &chars("dig"));
    assert_eq!(a.cur_screen, Screen::MoneyScreen);
    assert_eq!(a.money_state.search_form.get_fields()[0].get_display_value(), "dig");
    assert!(matches!(read_input(&mut a, &KeyCode::Enter), Task::Nothing));
    a.money_state.max_transactions = Some(5);
    press(&mut a, &[KeyCode::Down, KeyCode::Up, KeyCode::Tab]);
    assert_eq!(a.money_state.search_form.selected_field, 1);
    match read_input(&mut a, &KeyCode::Enter) {
        Task::SearchTransactions(query) => {
            assert_eq!(query.keyword, "dig");
            assert_eq!(query.limit, 5);
        }
        other => panic!("{:?}", other),
    }
    assert!(!a.money_state.search_form_selected);
    press(&mut a, &[KeyCode::Char('i')]);
    assert!(a.money_state.add_form_selected);
    assert!(matches!(read_input(&mut a, &KeyCode::Enter), Task::Nothing));
    press(&mut a, &chars("tea"));
    press(&mut a, &[KeyCode::Backspace]);
    match read_input(&mut a, &KeyCode::Enter) {
        Task::StoreTransaction(t) => assert_eq!(t.title, "te"),
        other => panic!("{:?}", other),
    }
    assert!(a.money_state.add_form_selected);
    press(&mut a, &[KeyCode::Esc]);
    assert!(!a.money_state.add_form_selected);
    assert!(matches!(read_input(&mut a, &KeyCode::Right), Task::Nothing));
    assert!(matches!(read_input(&mut a, &KeyCode::Left), Task::Nothing));
    a.money_state.num_of_pages = 2;
    a.money_state.page_offsets = vec![0, 4];
    match read_input(&mut a, &KeyCode::Right) {
        Task::LoadPage(query) => assert_eq!(query.offset, 4),
        other => panic!("{:?}", other),
    }
    match read_input(&mut a, &KeyCode::Left) {
        Task::LoadPage(query) => assert_eq!(query.offset, 0),
        other => panic!("{:?}", other),
    }
    press(&mut a, &[KeyCode::Down, KeyCode::Up]);
    assert_eq!(a.money_state.selected_transaction, 0);
}

#[test]
fn film_screen_searches_on_enter() {
    let mut a = app();
    press(&mut a, &[KeyCode::Char('f')]);
    match read_input(&mut a, &KeyCode::Enter) {
        Task::SearchMovie(name) => assert_eq!(name, "dark"),
        other => panic!("{:?}", other),
    }
    assert!(matches!(read_input(&mut a, &KeyCode::Left), Task::Nothing));
    a.grade_state.show_form = true;
    assert!(matches!(read_input(&mut a, &KeyCode::Enter), Task::Nothing));
    assert!(matches!(read_input(&mut a, &KeyCode::Char('q')), Task::Nothing));
}

#[test]
fn lines_are_split_at_line_breaks() {
    assert_eq!(split_lines("a\nbc\n"), vec!["a", "bc", ""]);
    assert_eq!(split_lines(""), vec![""]);
    assert_eq!(split_lines("abc"), vec!["abc"]);
    assert_eq!(split_lines("\n\n"), vec!["", "", ""]);
    for text in ["a\nbc\n", "", "x", "\n", "one\n\ntwo"] {
        let expected: Vec<&str> = text.split("\n").collect();
        assert_eq!(split_lines(text), expected);
    }
    let lines = event_lines_of(&event(3, "dentist", "bring card\nat nine"), 0, 2);
    assert_eq!(lines, vec!["dentist", "bring card", "at nine", " 1/2 "]);
}

#[test]
fn large_letters_are_drawn_with_the_standard_font() {
    let mut buf = grid(40, 10);
    let rect = Rect { x: 1, y: 1, width: 38, height: 8 };
    let (width, height) = draw_ascii_string(&mut buf, rect, "1", CellStyle::plain(), false, false);
    let font = figlet_rs::FIGfont::standard().unwrap();
    let figure = font.convert("1").unwrap();
    let rows = &figure.characters[0].characters;
    assert_eq!(height as usize, rows.len() - 1);
    assert_eq!(width as usize, rows.iter().map(|r| r.len()).max().unwrap() - 1);
    for (k, line) in rows.iter().enumerate() {
        for (m, c) in line.chars().enumerate() {
            assert_eq!(buf.get(2 + m as u16, 1 + k as u16).symbol, c.to_string());
        }
    }
    let mut empty = grid(40, 10);
    assert_eq!(draw_ascii_string(&mut empty, rect, "", CellStyle::plain(), true, false), (0, 0));
    assert_eq!(empty, grid(40, 10));
    let mut wide = grid(40, 10);
    let (w2, _) = draw_ascii_string(&mut wide, rect, "12:34", CellStyle::plain(), true, false);
    assert!(w2 > width);
    assert!(screen_text(&wide).contains('|'));
}

#[test]
fn glyphs_are_stamped_side_by_side() {
    let rect = Rect { x: 1, y: 1, width: 4, height: 1 };
    let figure = vec![
        vec!["ab".to_owned(), "c".to_owned(), "e".to_owned()],
        vec!["d".to_owned()],
        vec!["xyz".to_owned()],
    ];
    let marks = stamp_figure(rect, &figure);
    let found: Vec<(u32, u32, char)> = marks.iter().map(|m| (m.x, m.y, m.c)).collect();
    assert_eq!(found, vec![(2, 1, 'a'), (3, 1, 'b'), (2, 2, 'c'), (4, 1, 'd'), (5, 1, 'x')]);
    assert!(stamp_figure(rect, &vec![]).is_empty());
    assert!(stamp_figure(rect, &vec![vec![]]).is_empty());
}

#[test]
fn clock_shows_time_and_date() {
    let mut buf = grid(60, 12);
    let mut state = ClockState::new(Date { year: 2024, month: 2, day: 3 }, 9, 41);
    let area = Rect { x: 0, y: 0, width: 60, height: 12 };
    assert!(Clock::fits(area));
    assert!(!Clock::fits(Rect { x: 0, y: 0, width: 1, height: 12 }));
    Clock::new(true).render(area, &mut buf, &mut state, theme());
    assert_eq!(buf.get(0, 0).symbol, "┌");
    assert_eq!(buf.get(59, 11).symbol, "┘");
    assert!(row(&buf, 7).starts_with("│Saturday 03 February 2024"));
    let mut bare = grid(60, 12);
    Clock::new(false).render(area, &mut bare, &mut state, theme());
    assert_eq!(bare.get(0, 0).symbol, " ");
    assert!(row(&bare, 7).starts_with(" Saturday 03 February 2024"));
    assert_eq!(state, ClockState { date: Date { year: 2024, month: 2, day: 3 }, hour: 9, minute: 41 });
}

#[test]
fn button_has_a_border_and_a_caption() {
    let mut buf = grid(12, 4);
    let button = Button::new("add".to_owned(), true);
    assert!(button.is_selected);
    button.render(Rect { x: 1, y: 0, width: 6, height: 3 }, &mut buf, theme());
    assert_eq!(row(&buf, 0), " add──┐     ");
    assert_eq!(row(&buf, 2), " └────┘     ");
    assert_eq!(buf.get(6, 1).bg, tui::style::Color::Rgb(0, 255, 0));
    assert_eq!(buf.get(1, 0).fg, tui::style::Color::Black);
    let mut other = grid(12, 4);
    Button::new("other".to_owned(), false).render(Rect { x: 0, y: 1, width: 0, height: 1 }, &mut other, theme());
    assert_eq!(row(&other, 1), "other       ");
}

#[test]
fn progress_bar_is_a_gauge() {
    let mut buf = grid(20, 3);
    let bar = ProgressBar::new("Volume".to_owned(), 100);
    assert_eq!(bar.title, "Volume");
    assert_eq!(bar.progress, 100);
    bar.render(Rect { x: 0, y: 0, width: 20, height: 3 }, &mut buf, theme());
    assert!(row(&buf, 0).starts_with("┌Volume"));
    assert!(row(&buf, 1).contains("100%"));
    let before = buf.clone();
    ProgressBar::new("x".to_owned(), 101).render(Rect { x: 0, y: 0, width: 20, height: 3 }, &mut buf, theme());
    assert_eq!(buf, before);
}

#[test]
fn popup_is_drawn_over_the_middle() {
    let mut buf = grid(40, 12);
    for y in 0..12 {
        draw_text(&mut buf, 0, y, &"x".repeat(40), CellStyle::plain());
    }
    let popup = Popup::new(vec!["hello".to_owned(), " 1/2 ".to_owned()], 50, 50);
    popup.render(Rect { x: 0, y: 0, width: 40, height: 12 }, &mut buf, theme());
    assert_eq!(buf.get(10, 3).symbol, "┏");
    assert_eq!(buf.get(29, 8).symbol, "┛");
    assert_eq!(buf.get(9, 3).symbol, "x");
    assert_eq!(buf.get(30, 8).symbol, "x");
    assert!(row(&buf, 4).contains("hello"));
    assert!(row(&buf, 5).contains(" 1/2 "));
    assert_eq!(row(&buf, 6), format!("{}┃{}┃{}", "x".repeat(10), " ".repeat(18), "x".repeat(10)));
    let mut small = grid(40, 12);
    Popup::new(vec![], 2, 2).render(Rect { x: 0, y: 0, width: 40, height: 12 }, &mut small, theme());
    assert_eq!(small, grid(40, 12));
}

#[test]
fn wait_popup_lays_a_notice_over_the_last_frame() {
    let mut old = grid(40, 12);
    draw_text(&mut old, 0, 0, "last frame", CellStyle::plain());
    let mut buf = grid(40, 12);
    WaitPopup::new(&old).render(Rect { x: 0, y: 0, width: 40, height: 12 }, &mut buf, theme());
    assert!(row(&buf, 0).starts_with("last frame"));
    assert_eq!(buf.get(10, 3).symbol, "┌");
    assert_eq!(buf.get(29, 8).symbol, "┘");
    assert_eq!(row(&buf, 6), format!("{}│{:^18}│{}", " ".repeat(10), "Please Wait", " ".repeat(10)));
}

#[test]
fn film_tracker_lists_what_was_found() {
    let mut buf = grid(40, 8);
    let mut state = FilmTrackerState::new(theme());
    state.search_movie(vec![
        MovieSearchItem { title: "Dark".to_owned(), imdb_id: "tt1".to_owned() },
        MovieSearchItem { title: "Dark City".to_owned(), imdb_id: "tt2".to_owned() },
    ]);
    FilmTracker::new().render(Rect { x: 0, y: 0, width: 40, height: 8 }, &mut buf, &mut state, theme());
    assert!(row(&buf, 0).starts_with("┌Title"));
    assert!(row(&buf, 3).starts_with("Dark    "));
    assert!(row(&buf, 4).starts_with("Dark City"));
    assert_eq!(state.movie_search_items.len(), 2);
}

#[test]
fn dashboard_screen_is_drawn() {
    let mut buf = grid(80, 24);
    let mut a = app();
    let area = Rect { x: 0, y: 0, width: 80, height: 24 };
    assert!(Screen::DashboardScreen.fits(area, &a));
    Screen::DashboardScreen.render(area, &mut buf, &mut a);
    let text = screen_text(&buf);
    assert!(text.contains("Brightness"));
    assert!(text.contains("Volume"));
    assert!(text.contains("TODO"));
    assert!(text.contains("Calendar"));
    assert!(text.contains("Saturday 03 February 2024"));
    assert!(text.contains("100%"));
    assert!(text.contains("40%"));
    assert!(row(&buf, 18).starts_with("┌Brightness"));
    assert!(row(&buf, 21).starts_with("┌Volume"));
    assert_eq!(buf.get(40, 0).symbol, "┌");
    assert_eq!(buf.get(40, 8).symbol, "┌");
    let mut tiny = grid(20, 6);
    Screen::DashboardScreen.render(Rect { x: 0, y: 0, width: 20, height: 6 }, &mut tiny, &mut a);
    assert_eq!(tiny, grid(20, 6));
}

#[test]
fn calendar_screen_shows_the_popup_of_the_selected_event() {
    let area = Rect { x: 0, y: 0, width: 80, height: 24 };
    let mut a = app();
    press(&mut a, &[KeyCode::Char('c'), KeyCode::Enter, KeyCode::Right]);
    let mut buf = grid(80, 24);
    a.cur_screen.render(area, &mut buf, &mut a);
    let text = screen_text(&buf);
    assert!(text.contains("lunch"));
    assert!(text.contains(" 2/2 "));
    assert_eq!(buf.get(20, 6).symbol, "┏");
    assert!(a.calendar_state.show_popup);
    press(&mut a, &[KeyCode::Enter, KeyCode::Right, KeyCode::Enter]);
    assert_eq!(a.calendar_state.selected_day, 4);
    assert!(a.calendar_state.show_popup);
    let mut again = grid(80, 24);
    a.cur_screen.render(area, &mut again, &mut a);
    assert!(!a.calendar_state.show_popup);
    assert_ne!(again.get(20, 6).symbol, "┏");
}

#[test]
fn calendar_screen_draws_no_popup_for_an_event_that_is_not_there() {
    let area = Rect { x: 0, y: 0, width: 80, height: 24 };
    let mut a = app();
    press(&mut a, &[KeyCode::Char('c'), KeyCode::Enter, KeyCode::Right]);
    assert_eq!(a.calendar_state.selected_event, 1);
    let task = read_input(&mut a, &KeyCode::Up);
    assert!(matches!(task, Task::LoadMonth { year: 2024, month: 3, num_of_days: 31 }));
    assert_eq!(a.calendar_state.selected_event, 1);
    assert!(a.calendar_state.show_popup);
    a.calendar_state.set_data(&vec![event(3, "only", "")]);
    assert_eq!(a.calendar_state.selected_event, 1);
    let mut buf = grid(80, 24);
    a.cur_screen.render(area, &mut buf, &mut a);
    assert_ne!(buf.get(20, 6).symbol, "┏");
    assert!(a.calendar_state.show_popup);
    assert_eq!(a.calendar_state.selected_event, 1);
    press(&mut a, &[KeyCode::Left]);
    assert_eq!(a.calendar_state.selected_event, 0);
    let mut again = grid(80, 24);
    a.cur_screen.render(area, &mut again, &mut a);
    assert_eq!(again.get(20, 6).symbol, "┏");
    assert!(screen_text(&again).contains("only"));
}

#[test]
fn other_screens_are_drawn() {
    let area = Rect { x: 0, y: 0, width: 80, height: 24 };
    let mut a = app();
    let mut buf = grid(80, 24);
    Screen::GradeScreen.render(area, &mut buf, &mut a);
    assert!(screen_text(&buf).contains("Maths"));
    let mut buf = grid(80, 24);
    Screen::MoneyScreen.render(area, &mut buf, &mut a);
    assert!(screen_text(&buf).contains("Search"));
    assert_eq!(a.money_state.max_transactions, Some(24));
    let mut buf = grid(80, 24);
    Screen::FilmScreen.render(area, &mut buf, &mut a);
    assert!(screen_text(&buf).contains("Title"));
    let mut small = grid(10, 5);
    Screen::MoneyScreen.render(Rect { x: 0, y: 0, width: 10, height: 5 }, &mut small, &mut a);
    Screen::GradeScreen.render(Rect { x: 0, y: 0, width: 10, height: 5 }, &mut small, &mut a);
    Screen::CalendarScreen.render(Rect { x: 0, y: 0, width: 10, height: 5 }, &mut small, &mut a);
    assert_eq!(small, grid(10, 5));
}
