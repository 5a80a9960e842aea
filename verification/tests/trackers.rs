use dashboard::calendar::{group_by_day, Calendar, CalendarEvent, CalendarState, EventTime};
use dashboard::date::Date;
use dashboard::db::{MoneyTransaction, Todo};
use dashboard::decimal::Decimal;
use dashboard::form::FormValue;
use dashboard::grade_tracker::{Grade, GradeTracker, GradeTrackerState, Module};
use dashboard::keys::KeyCode;
use dashboard::money_tracker::{day_indexes, num_of_pages, MoneyTracker, MoneyTrackerState};
use dashboard::styles::ColorData;
use dashboard::surface::{blank_surface, Rect};
use tui::buffer::Buffer;

fn theme() -> ColorData {
    ColorData::new(None, None)
}

fn grid(width: u16, height: u16) -> Buffer {
    blank_surface(Rect { x: 0, y: 0, width, height }).unwrap()
}

fn row(buf: &Buffer, y: u16) -> String {
    (0..buf.area().width).map(|x| buf.get(x, y).symbol.clone()).collect()
}

fn event(day: u32, from: u32, to: u32, title: &str) -> CalendarEvent {
    CalendarEvent {
        start: EventTime { day, hour: from, minute: 0 },
        end: EventTime { day, hour: to, minute: 30 },
        title: title.to_owned(),
        description: format!("about {}\nsecond line", title),
    }
}

fn events() -> Vec<CalendarEvent> {
    vec![event(3, 9, 10, "a"), event(17, 8, 9, "b"), event(3, 12, 13, "c"), event(3, 15, 16, "d")]
}

#[test]
fn test_calendar_state() {
    let cs = CalendarState::new(2024, 1, 15, &vec![]);
    println!("{:?}", cs);
}

#[test]
fn calendar_starts_on_today() {
    let cs = CalendarState::new(2024, 2, 17, &events());
    assert_eq!(cs.selected_day, 17);
    assert_eq!(cs.cur_day, 17);
    assert_eq!(cs.cur_month, 2);
    assert_eq!(cs.cur_year, 2024);
    assert_eq!(cs.num_of_days, 29);
    assert_eq!(cs.start_day, 3);
    assert!(!cs.show_popup);
    assert_eq!(cs.selected_event, 0);
    assert_eq!(cs.count_events(3), 3);
    assert_eq!(cs.count_events(17), 1);
    assert_eq!(cs.count_events(4), 0);
}

#[test]
fn events_are_sorted_by_day_in_their_order() {
    let days = group_by_day(&events());
    assert_eq!(days.len(), 2);
    let third: Vec<&str> = days[&3].iter().map(|e| e.title.as_str()).collect();
    assert_eq!(third, vec!["a", "c", "d"]);
    assert_eq!(days[&17].len(), 1);
    assert_eq!(days[&17][0].description, "about b\nsecond line");
    assert!(group_by_day(&vec![]).is_empty());
}

#[test]
fn month_steps_keep_length_and_first_weekday_together() {
    let mut cs = CalendarState::new(2024, 1, 31, &events());
    let steps = [1, 1, -3, 12, -25, 7, 1, 1, 1, 1, 1, -1, 0, 100, -100];
    for amount in steps {
        cs.increment_month(amount);
        let first = chrono::NaiveDate::from_ymd_opt(cs.cur_year, cs.cur_month, 1).unwrap();
        let next = if cs.cur_month == 12 {
            chrono::NaiveDate::from_ymd_opt(cs.cur_year + 1, 1, 1).unwrap()
        } else {
            chrono::NaiveDate::from_ymd_opt(cs.cur_year, cs.cur_month + 1, 1).unwrap()
        };
        assert_eq!(cs.num_of_days, next.signed_duration_since(first).num_days());
        assert_eq!(cs.start_day, chrono::Datelike::weekday(&first).num_days_from_monday());
    }
    assert_eq!((cs.cur_year, cs.cur_month), (2023, 10));
}

#[test]
fn month_steps_cross_the_year() {
    let mut cs = CalendarState::new(2024, 12, 1, &events());
    cs.increment_month(1);
    assert_eq!((cs.cur_year, cs.cur_month, cs.num_of_days, cs.start_day), (2025, 1, 31, 2));
    assert!(cs.data.is_empty());
    assert_eq!(cs.selected_day, 1);
    cs.increment_month(-1);
    assert_eq!((cs.cur_year, cs.cur_month, cs.num_of_days, cs.start_day), (2024, 12, 31, 6));
    cs.increment_month(-11);
    assert_eq!((cs.cur_year, cs.cur_month), (2024, 1));
    cs.increment_month(-1);
    assert_eq!((cs.cur_year, cs.cur_month), (2023, 12));
    cs.increment_month(14);
    assert_eq!((cs.cur_year, cs.cur_month, cs.num_of_days), (2025, 2, 28));
}

#[test]
fn month_steps_beyond_the_calendar_are_not_taken() {
    let mut cs = CalendarState::new(262142, 11, 1, &events());
    cs.increment_month(1);
    assert_eq!((cs.cur_year, cs.cur_month, cs.num_of_days), (262142, 12, 31));
    cs.set_data(&events());
    cs.increment_month(1);
    assert_eq!((cs.cur_year, cs.cur_month), (262142, 12));
    assert_eq!(cs.count_events(3), 3);
    cs.increment_month(i32::MAX);
    assert_eq!((cs.cur_year, cs.cur_month), (262142, 12));
    cs.increment_month(-1);
    assert_eq!((cs.cur_year, cs.cur_month), (262142, 11));
    let mut first = CalendarState::new(-262143, 1, 1, &events());
    first.increment_month(-1);
    assert_eq!((first.cur_year, first.cur_month), (-262143, 1));
    assert_eq!(first.count_events(3), 3);
}

#[test]
fn month_steps_keep_what_is_selected() {
    let mut cs = CalendarState::new(2024, 2, 3, &events());
    cs.popup_toggle();
    cs.increment_selected_event(1);
    cs.increment_selected_event(1);
    assert_eq!(cs.selected_event, 2);
    cs.increment_month(1);
    assert_eq!((cs.cur_year, cs.cur_month), (2024, 3));
    assert_eq!(cs.selected_event, 2);
    assert_eq!(cs.selected_day, 3);
    assert_eq!(cs.cur_day, 3);
    assert!(cs.show_popup);
    assert!(cs.data.is_empty());
    cs.num_of_days = 1;
    cs.start_day = 0;
    cs.increment_month(1);
    assert_eq!((cs.num_of_days, cs.start_day), (30, 0));
}

#[test]
fn selected_day_stays_in_the_month() {
    let mut cs = CalendarState::new(2023, 2, 27, &vec![]);
    cs.increment_selected_day(1);
    assert_eq!(cs.selected_day, 28);
    cs.increment_selected_day(1);
    assert_eq!(cs.selected_day, 28);
    cs.increment_selected_day(-40);
    assert_eq!(cs.selected_day, 1);
    for _ in 0..5 {
        cs.increment_selected_day(-1);
    }
    assert_eq!(cs.selected_day, 1);
    cs.increment_selected_day(3);
    assert_eq!(cs.selected_day, 4);
}

#[test]
fn selected_event_stays_among_the_events() {
    let mut cs = CalendarState::new(2024, 2, 3, &events());
    cs.popup_toggle();
    assert!(cs.show_popup);
    cs.increment_selected_event(-1);
    assert_eq!(cs.selected_event, 0);
    cs.increment_selected_event(1);
    cs.increment_selected_event(1);
    assert_eq!(cs.selected_event, 2);
    cs.increment_selected_event(1);
    assert_eq!(cs.selected_event, 2);
    cs.popup_toggle();
    assert!(!cs.show_popup);
    assert_eq!(cs.selected_event, 0);
    cs.increment_selected_day(1);
    cs.increment_selected_event(1);
    assert_eq!(cs.selected_event, 0);
    cs.increment_selected_event(-1);
    assert_eq!(cs.selected_event, 0);
}

#[test]
fn set_data_takes_new_events() {
    let mut cs = CalendarState::new(2024, 2, 3, &vec![]);
    cs.selected_event = 2;
    cs.show_popup = true;
    cs.set_data(&events());
    assert_eq!(cs.selected_event, 2);
    assert!(cs.show_popup);
    assert_eq!(cs.count_events(3), 3);
    assert_eq!(cs.count_events(17), 1);
    assert_eq!(cs.selected_day, 3);
    cs.set_data(&vec![]);
    assert_eq!(cs.count_events(3), 0);
    assert_eq!(cs.selected_event, 2);
}

#[test]
fn calendar_is_drawn() {
    let mut buf = grid(80, 24);
    let mut cs = CalendarState::new(2024, 2, 17, &events());
    cs.selected_day = 3;
    let month = Rect { x: 0, y: 0, width: 60, height: 24 };
    let timeline = Rect { x: 60, y: 0, width: 20, height: 24 };
    assert!(Calendar::fits(month, timeline));
    assert!(!Calendar::fits(Rect { x: 0, y: 0, width: 22, height: 24 }, timeline));
    assert!(!Calendar::fits(Rect { x: 0, y: 0, width: 60, height: 9 }, timeline));
    assert!(!Calendar::fits(month, Rect { x: 60, y: 0, width: 7, height: 24 }));
    Calendar::new().render(Rect { x: 0, y: 0, width: 80, height: 24 }, &mut buf, &mut cs, theme());
    assert_eq!(buf.get(0, 0).symbol, "┌");
    assert_eq!(buf.get(59, 0).symbol, "┐");
    assert_eq!(buf.get(60, 0).symbol, "┌");
    assert_eq!(buf.get(79, 23).symbol, "┘");
    assert!(row(&buf, 1).contains("February 2024"));
    assert!(row(&buf, 2).contains("Mon"));
    assert!(row(&buf, 2).contains("Sun"));
    assert!(row(&buf, 1).contains("Events"));
    let all: Vec<String> = (0..24).map(|y| row(&buf, y)).collect();
    let text = all.join("\n");
    for day in ["01", "03", "17", "29"] {
        assert!(text.contains(day), "day {}", day);
    }
    assert!(!text.contains("31"));
    assert!(text.contains("09:00"));
    assert!(text.contains("10:30"));
    assert!(text.contains("2 Hour(s)"));
    assert!(text.contains("15:00"));
    assert!(text.contains("╔"));
    assert_eq!(text.matches('\u{fc62}').count(), 4);
    assert_eq!(cs.selected_day, 3);
}

fn grade(name: &str, percentage: u32, weight: u32) -> Grade {
    Grade { name: name.to_owned(), percentage: Decimal::from_units(percentage), weight: Decimal::from_units(weight) }
}

#[test]
fn calendar_is_split_into_its_panes() {
    let mut whole = grid(81, 24);
    let mut cs = CalendarState::new(2024, 2, 17, &events());
    Calendar::new().render(Rect { x: 0, y: 0, width: 81, height: 24 }, &mut whole, &mut cs, theme());
    let mut panes = grid(81, 24);
    Calendar::new().render_panes(
        Rect { x: 0, y: 0, width: 60, height: 24 },
        Rect { x: 60, y: 0, width: 21, height: 24 },
        &mut panes,
        &mut cs,
        theme(),
    );
    assert_eq!(whole, panes);
    assert_eq!(whole.get(59, 0).symbol, "┐");
    assert_eq!(whole.get(80, 23).symbol, "┘");
    let mut narrow = grid(30, 24);
    Calendar::new().render(Rect { x: 0, y: 0, width: 30, height: 24 }, &mut narrow, &mut cs, theme());
    assert_eq!(narrow, grid(30, 24));
    let mut least = grid(31, 10);
    Calendar::new().render(Rect { x: 0, y: 0, width: 31, height: 10 }, &mut least, &mut cs, theme());
    assert_eq!(least.get(0, 0).symbol, "┌");
    assert_eq!(least.get(30, 9).symbol, "┘");
}

#[test]
fn grade_averages_of_equal_weights() {
    let module = Module { name: "m".to_owned(), grades: vec![grade("a", 80, 50), grade("b", 60, 50)] };
    assert_eq!(module.overall(), Decimal::from_units(70));
    assert_eq!(module.mean(), Some(Decimal::from_units(70)));
    assert_eq!(module.weighted(), Some(Decimal::from_units(70)));
}

#[test]
fn grade_averages_of_weights_that_sum_to_fifty() {
    let module = Module { name: "m".to_owned(), grades: vec![grade("a", 80, 30), grade("b", 60, 20)] };
    assert_eq!(module.overall(), Decimal::from_units(36));
    assert_eq!(module.mean(), Some(Decimal::from_units(70)));
    assert_eq!(module.weighted(), Some(Decimal::from_units(72)));
    assert_eq!(module.overall().micros as f64 / 1e6, 36.0);
    assert_eq!(module.weighted().unwrap().micros as f64 / 1e6, 72.0);
}

#[test]
fn grade_averages_without_grades_or_weights() {
    let empty = Module { name: "m".to_owned(), grades: vec![] };
    assert_eq!(empty.overall(), Decimal::zero());
    assert_eq!(empty.mean(), None);
    assert_eq!(empty.weighted(), None);
    let weightless = Module { name: "m".to_owned(), grades: vec![grade("a", 80, 0)] };
    assert_eq!(weightless.overall(), Decimal::zero());
    assert_eq!(weightless.mean(), Some(Decimal::from_units(80)));
    assert_eq!(weightless.weighted(), None);
    let thirds = Module {
        name: "m".to_owned(),
        grades: vec![grade("a", 50, 10), grade("b", 50, 10), grade("c", 51, 10)],
    };
    assert_eq!(thirds.mean(), Some(Decimal { micros: 50_333_333 }));
    assert_eq!(thirds.overall(), Decimal { micros: 15_100_000 });
    let copy = thirds.duplicate();
    assert_eq!(copy.grades.len(), 3);
    assert_eq!(copy.grades[2].percentage, Decimal::from_units(51));
}

fn modules() -> Vec<Module> {
    vec![
        Module { name: "Maths".to_owned(), grades: vec![grade("exam", 80, 50), grade("test", 60, 50)] },
        Module { name: "Physics".to_owned(), grades: vec![] },
        Module { name: "Art".to_owned(), grades: vec![grade("essay", 55, 100)] },
    ]
}

fn fill_grade_form(state: &mut GradeTrackerState, title: &str, percentage: &str, weight: &str) {
    for c in title.chars() {
        state.form_state.send_input(&KeyCode::Char(c));
    }
    state.form_state.increment_selected(1);
    for c in percentage.chars() {
        state.form_state.send_input(&KeyCode::Char(c));
    }
    state.form_state.increment_selected(1);
    for c in weight.chars() {
        state.form_state.send_input(&KeyCode::Char(c));
    }
}

#[test]
fn grade_tracker_starts_with_an_empty_form() {
    let state = GradeTrackerState::new(theme(), modules());
    assert_eq!(state.selected, 0);
    assert!(!state.show_form);
    assert_eq!(state.data.len(), 3);
    let titles: Vec<&str> = state.form_state.get_fields().iter().map(|f| f.get_style().title.as_str()).collect();
    assert_eq!(titles, vec!["Title", "Percentage", "Weight"]);
    assert!(state.form_state.get_fields().iter().all(|f| f.is_required()));
    assert!(state.submit_form().is_none());
}

#[test]
fn grade_is_added_once_it_is_stored() {
    let mut state = GradeTrackerState::new(theme(), modules());
    state.increment_selected(1);
    fill_grade_form(&mut state, "quiz", "72.5", "20");
    let pending = state.submit_form().unwrap();
    assert_eq!(pending.name, "quiz");
    assert_eq!(pending.percentage, Decimal { micros: 72_500_000 });
    assert_eq!(pending.weight, Decimal::from_units(20));
    assert_eq!(state.data[1].grades.len(), 0);
    state.add_grade_to_selected(pending.duplicate(), false);
    assert_eq!(state.data[1].grades.len(), 0);
    assert_eq!(state.form_state.get_fields()[0].get_display_value(), "quiz");
    state.add_grade_to_selected(pending, true);
    assert_eq!(state.data[1].grades.len(), 1);
    assert_eq!(state.data[1].grades[0].name, "quiz");
    assert_eq!(state.data[0].grades.len(), 2);
    assert_eq!(state.form_state.get_fields()[0].get_display_value(), "");
    assert_eq!(state.form_state.selected_field, 0);
    assert!(state.submit_form().is_none());
}

#[test]
fn grade_with_an_empty_title_is_not_submitted() {
    let mut state = GradeTrackerState::new(theme(), modules());
    fill_grade_form(&mut state, "", "72.5", "20");
    assert!(state.submit_form().is_none());
    let mut none = GradeTrackerState::new(theme(), vec![]);
    fill_grade_form(&mut none, "quiz", "72.5", "20");
    assert!(none.submit_form().is_none());
}

#[test]
fn selected_module_stays_among_the_modules() {
    let mut state = GradeTrackerState::new(theme(), modules());
    state.increment_selected(-1);
    assert_eq!(state.selected, 0);
    state.increment_selected(5);
    assert_eq!(state.selected, 2);
    state.increment_selected(1);
    assert_eq!(state.selected, 2);
    state.toggle_form();
    assert!(state.show_form);
    state.toggle_form();
    assert!(!state.show_form);
    let mut none = GradeTrackerState::new(theme(), vec![]);
    none.increment_selected(1);
    none.increment_selected(-1);
    assert_eq!(none.selected, 0);
}

#[test]
fn grade_tracker_is_drawn() {
    let area = Rect { x: 0, y: 0, width: 60, height: 20 };
    assert!(GradeTracker::fits(area, 3));
    assert!(!GradeTracker::fits(Rect { x: 0, y: 0, width: 60, height: 9 }, 3));
    assert!(!GradeTracker::fits(Rect { x: 0, y: 0, width: 9, height: 20 }, 3));
    let mut buf = grid(60, 20);
    let mut state = GradeTrackerState::new(theme(), modules());
    GradeTracker::new().render(area, &mut buf, &mut state, theme());
    assert_eq!(buf.get(0, 0).symbol, "┌");
    assert_eq!(buf.get(59, 13).symbol, "┘");
    assert_eq!(buf.get(0, 14).symbol, "┌");
    assert_eq!(buf.get(0, 17).symbol, "┌");
    assert_eq!(buf.get(59, 19).symbol, "┘");
    assert!(row(&buf, 1).starts_with("│Maths"));
    assert!(row(&buf, 1).contains("Weighted: 70.0% Mean: 70.0% Overall: 70.0%"));
    assert!(row(&buf, 15).contains("Physics"));
    assert!(row(&buf, 15).contains("Weighted: NaN.NaN% Mean: NaN.NaN% Overall: 0.0%"));
    assert!(row(&buf, 18).contains("Weighted: 55.0% Mean: 55.0% Overall: 55.0%"));
    assert!(row(&buf, 3).contains("exam"));
    assert!(row(&buf, 3).contains("80%"));
    assert!(row(&buf, 6).contains("test"));
    assert!(row(&buf, 6).contains("60%"));
    let inverted = |x: u16, y: u16| buf.get(x, y).bg == tui::style::Color::Rgb(0, 255, 0);
    assert!(inverted(2, 3));
    assert!(inverted(21, 3));
    assert!(!inverted(22, 3));
    assert!(inverted(16, 6));
    assert!(!inverted(17, 6));
    state.toggle_form();
    GradeTracker::new().render(area, &mut buf, &mut state, theme());
    assert_eq!(buf.get(15, 5).symbol, "┏");
    assert_eq!(buf.get(44, 14).symbol, "┛");
    assert!(row(&buf, 5).contains(" Enter New Assessment "));
    assert!(row(&buf, 6).contains("*Title"));
    assert!(row(&buf, 9).contains("*Percentage"));
}

fn transaction(title: &str, amount: u32, date: (i32, u32, u32)) -> MoneyTransaction {
    MoneyTransaction::new(
        title.to_owned(),
        Decimal::from_units(amount),
        "".to_owned(),
        Date { year: date.0, month: date.1, day: date.2 },
    )
}

fn today() -> Date {
    Date { year: 2024, month: 5, day: 6 }
}

#[test]
fn records_are_made() {
    let t = transaction("rent", 500, (2024, 1, 1));
    assert_eq!(t.id, -1);
    assert_eq!(t.title, "rent");
    assert_eq!(t.amount, Decimal::from_units(500));
    assert_eq!(t.details, "");
    assert_eq!(t.date, Date { year: 2024, month: 1, day: 1 });
    let todo = Todo::new(3, "call".to_owned());
    assert_eq!(todo.id, 3);
    assert_eq!(todo.description, "call");
}

#[test]
fn pages_are_counted_by_rounding_up() {
    assert_eq!(num_of_pages(25, 10), 3);
    assert_eq!(num_of_pages(30, 10), 3);
    assert_eq!(num_of_pages(31, 10), 4);
    assert_eq!(num_of_pages(1, 10), 1);
    assert_eq!(num_of_pages(0, 10), 0);
    assert_eq!(num_of_pages(5, 0), 0);
    assert_eq!(num_of_pages(u32::MAX, 1), u32::MAX);
    assert_eq!(num_of_pages(u32::MAX, u32::MAX), 1);
}

#[test]
fn days_are_grouped_under_headings() {
    let list = vec![
        transaction("a", 1, (2024, 1, 1)),
        transaction("b", 2, (2024, 1, 1)),
        transaction("c", 3, (2024, 1, 2)),
    ];
    assert_eq!(day_indexes(&list), vec![0, 2]);
    assert_eq!(day_indexes(&vec![]), Vec::<usize>::new());
    let back = vec![
        transaction("a", 1, (2024, 1, 2)),
        transaction("b", 2, (2024, 1, 1)),
        transaction("c", 3, (2024, 1, 2)),
        transaction("d", 3, (2024, 1, 2)),
    ];
    assert_eq!(day_indexes(&back), vec![0, 1, 2]);
}

#[test]
fn money_tracker_starts_with_empty_forms() {
    let state = MoneyTrackerState::new(theme(), today());
    let titles = |fields: &Vec<dashboard::form::FormField>| -> Vec<String> {
        fields.iter().map(|f| f.get_style().title.clone()).collect()
    };
    assert_eq!(titles(state.search_form.get_fields()), vec!["Keyword", "Min", "Max"]);
    assert_eq!(titles(state.add_form.get_fields()), vec!["Title", "Amount", "Details", "Date"]);
    assert_eq!(state.add_form.get_fields()[3].get_display_value(), "06 / 05 / 24");
    assert_eq!(
        state.search_form.get_fields()[2].get_internal_value().try_get_float_value(),
        Some(&Decimal::from_units(100_000))
    );
    assert!(state.transactions.is_empty());
    assert_eq!(state.current_page, 1);
    assert_eq!(state.num_of_pages, 1);
    assert_eq!(state.max_transactions, None);
    assert_eq!(state.page_offsets, vec![0]);
    assert_eq!(state.filters, ("".to_owned(), Decimal::zero(), Decimal::from_units(100_000)));
    assert!(!state.search_form_selected && !state.add_form_selected);
}

fn page(n: usize, date: (i32, u32, u32)) -> Vec<MoneyTransaction> {
    (0..n).map(|i| transaction(&format!("t{}", i), i as u32, date)).collect()
}

#[test]
fn search_is_submitted_and_answered() {
    let mut state = MoneyTrackerState::new(theme(), today());
    state.select_search_form();
    assert!(state.submit_search_form().is_none());
    state.max_transactions = Some(10);
    for c in "tea".chars() {
        state.search_form.send_input(&KeyCode::Char(c));
    }
    state.search_form.increment_selected(1);
    state.search_form.send_input(&KeyCode::Char('2'));
    state.selected_transaction = 0;
    state.current_page = 4;
    state.page_offsets = vec![0, 8, 17];
    let query = state.submit_search_form().unwrap();
    assert_eq!(query.keyword, "tea");
    assert_eq!(query.min, Decimal::from_units(2));
    assert_eq!(query.max, Decimal::from_units(100_000));
    assert_eq!(query.limit, 10);
    assert_eq!(query.offset, 0);
    assert_eq!(state.filters, ("tea".to_owned(), Decimal::from_units(2), Decimal::from_units(100_000)));
    assert_eq!(state.search_form.get_fields()[0].get_display_value(), "");
    assert_eq!(state.search_form.selected_field, 0);
    assert_eq!(state.current_page, 1);
    assert_eq!(state.page_offsets, vec![0]);
    assert!(!state.search_form_selected);
    state.set_search_result(25, page(8, (2024, 1, 1)));
    assert_eq!(state.num_of_pages, 3);
    assert_eq!(state.transactions.len(), 8);
    assert_eq!(state.selected_transaction, 0);
}

#[test]
fn pages_are_found_one_after_the_other() {
    let area = Rect { x: 0, y: 0, width: 60, height: 12 };
    let mut buf = grid(60, 12);
    let mut state = MoneyTrackerState::new(theme(), today());
    assert!(state.get_next_page().is_none());
    MoneyTracker::new().render(area, &mut buf, &mut state, theme());
    assert_eq!(state.max_transactions, Some(12));
    assert_eq!(state.page_offsets, vec![0]);
    state.submit_search_form().unwrap();
    state.set_search_result(25, page(12, (2024, 1, 1)));
    assert_eq!(state.num_of_pages, 3);
    assert!(state.get_prev_page().is_none());
    assert!(state.get_next_page().is_none());
    assert_eq!(state.current_page, 1);
    MoneyTracker::new().render(area, &mut buf, &mut state, theme());
    assert_eq!(state.page_offsets, vec![0, 8]);
    MoneyTracker::new().render(area, &mut buf, &mut state, theme());
    assert_eq!(state.page_offsets, vec![0, 8]);
    state.increment_selected(3);
    let second = state.get_next_page().unwrap();
    assert_eq!((second.limit, second.offset), (12, 8));
    assert_eq!(state.current_page, 2);
    assert_eq!(state.selected_transaction, 0);
    state.set_transactions(page(12, (2024, 1, 1)));
    assert!(state.get_next_page().is_none());
    assert_eq!(state.current_page, 2);
    MoneyTracker::new().render(area, &mut buf, &mut state, theme());
    assert_eq!(state.page_offsets, vec![0, 8, 16]);
    let third = state.get_next_page().unwrap();
    assert_eq!(third.offset, 16);
    assert_eq!(state.current_page, 3);
    assert!(state.get_next_page().is_none());
    state.num_of_pages = 5;
    state.set_transactions(page(12, (2024, 1, 1)));
    MoneyTracker::new().render(area, &mut buf, &mut state, theme());
    assert_eq!(state.page_offsets, vec![0, 8, 16, 24]);
    let fourth = state.get_next_page().unwrap();
    assert_eq!(fourth.offset, 24);
    state.set_transactions(page(3, (2024, 1, 1)));
    MoneyTracker::new().render(area, &mut buf, &mut state, theme());
    assert_eq!(state.page_offsets, vec![0, 8, 16, 24]);
    assert!(state.get_next_page().is_none());
    assert_eq!(state.get_prev_page().unwrap().offset, 16);
    state.num_of_pages = 3;
    let back = state.get_prev_page().unwrap();
    assert_eq!(back.offset, 8);
    assert_eq!(back.keyword, "");
    assert_eq!(state.current_page, 2);
}

#[test]
fn selected_transaction_stays_among_those_shown() {
    let mut state = MoneyTrackerState::new(theme(), today());
    state.increment_selected(1);
    state.increment_selected(-1);
    assert_eq!(state.selected_transaction, 0);
    state.set_transactions(page(3, (2024, 1, 1)));
    state.increment_selected(-1);
    assert_eq!(state.selected_transaction, 0);
    state.increment_selected(1);
    state.increment_selected(1);
    state.increment_selected(1);
    assert_eq!(state.selected_transaction, 2);
    assert_eq!(state.get_selected_transaction().title, "t2");
    state.select_add_form();
    assert!(state.add_form_selected && !state.search_form_selected);
    state.select_search_form();
    assert!(!state.add_form_selected && state.search_form_selected);
    state.select_transaction_list();
    assert!(!state.add_form_selected && !state.search_form_selected);
}

#[test]
fn transaction_is_read_from_the_add_form() {
    let mut state = MoneyTrackerState::new(theme(), today());
    assert!(state.submit_add_form().is_none());
    for c in "tea".chars() {
        state.add_form.send_input(&KeyCode::Char(c));
    }
    state.add_form.increment_selected(1);
    for c in "3.2".chars() {
        state.add_form.send_input(&KeyCode::Char(c));
    }
    state.add_form.increment_selected(1);
    state.add_form.send_input(&KeyCode::Char('x'));
    let t = state.submit_add_form().unwrap();
    assert_eq!(t.id, -1);
    assert_eq!(t.title, "tea");
    assert_eq!(t.amount, Decimal { micros: 3_200_000 });
    assert_eq!(t.details, "x");
    assert_eq!(t.date, today());
    assert_eq!(state.add_form.get_fields()[0].get_display_value(), "tea");
    assert!(state.after_add().is_none());
    assert_eq!(state.add_form.get_fields()[0].get_display_value(), "");
    assert_eq!(state.add_form.get_fields()[1].get_internal_value().try_get_float_value(), Some(&Decimal::zero()));
    match state.add_form.get_fields()[3].get_internal_value() {
        FormValue::Date(d) => assert_eq!(*d, today()),
        _ => panic!("not a date"),
    }
}

#[test]
fn last_search_is_run_again_after_an_add() {
    let mut state = MoneyTrackerState::new(theme(), today());
    state.max_transactions = Some(10);
    for c in "tea".chars() {
        state.search_form.send_input(&KeyCode::Char(c));
    }
    state.submit_search_form().unwrap();
    state.set_search_result(25, page(8, (2024, 1, 1)));
    state.page_offsets = vec![0, 8];
    state.get_next_page().unwrap();
    state.increment_selected(2);
    for c in "zzz".chars() {
        state.search_form.send_input(&KeyCode::Char(c));
    }
    for c in "bun".chars() {
        state.add_form.send_input(&KeyCode::Char(c));
    }
    let query = state.after_add().unwrap();
    assert_eq!(query.keyword, "tea");
    assert_eq!(query.min, Decimal::zero());
    assert_eq!(query.max, Decimal::from_units(100_000));
    assert_eq!((query.limit, query.offset), (10, 0));
    assert_eq!(state.current_page, 1);
    assert_eq!(state.page_offsets, vec![0]);
    assert_eq!(state.selected_transaction, 0);
    assert_eq!(state.add_form.get_fields()[0].get_display_value(), "");
    assert_eq!(state.search_form.get_fields()[0].get_display_value(), "zzz");
    assert_eq!(state.filters.0, "tea");
}

#[test]
fn money_tracker_is_drawn() {
    let area = Rect { x: 0, y: 0, width: 60, height: 40 };
    assert!(MoneyTracker::fits(area));
    assert!(!MoneyTracker::fits(Rect { x: 0, y: 0, width: 11, height: 12 }));
    let mut buf = grid(60, 40);
    let mut state = MoneyTrackerState::new(theme(), today());
    state.set_transactions(vec![
        transaction("rent", 500, (2024, 1, 1)),
        transaction("tea", 3, (2024, 1, 1)),
        transaction("bus", 2, (2024, 1, 2)),
    ]);
    state.increment_selected(2);
    state.num_of_pages = 4;
    MoneyTracker::new().render(area, &mut buf, &mut state, theme());
    assert_eq!(buf.get(0, 0).symbol, "┌");
    assert_eq!(buf.get(19, 12).symbol, "┘");
    assert_eq!(buf.get(0, 13).symbol, "┌");
    assert_eq!(buf.get(20, 0).symbol, "┌");
    assert_eq!(buf.get(59, 39).symbol, "┘");
    assert!(row(&buf, 1).contains("Search"));
    assert!(row(&buf, 2).contains("Keyword"));
    assert!(row(&buf, 14).contains("Add"));
    assert!(row(&buf, 15).contains("*Title"));
    assert!(row(&buf, 25).contains("06 / 05 / 24"));
    let heading = |y: u16| -> String { (21..59).map(|x| buf.get(x, y).symbol.clone()).collect() };
    assert_eq!(heading(1), format!("{:-^38}", "Mon 01 January 2024"));
    assert_eq!(heading(2).trim_end(), "£500.00    rent");
    assert_eq!(heading(3).trim_end(), "£3.00      tea");
    assert_eq!(heading(4), format!("{:━^38}", "Tue 02 January 2024"));
    assert_eq!(heading(5).trim_end(), "£2.00      bus");
    assert_eq!(heading(38), format!("{:^38}", "1/4"));
    assert_eq!(buf.get(21, 5).fg, tui::style::Color::Rgb(0, 255, 0));
    assert_eq!(buf.get(21, 2).fg, tui::style::Color::Rgb(0, 0x5f, 0));
    assert_eq!(state.selected_transaction, 2);
    assert_eq!(state.page_offsets, vec![0]);
}
