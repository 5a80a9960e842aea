use chrono::Datelike;
use dashboard::date::{
    clock_text_of, date_long_of, heading_of, month_name_of, num_of_days, start_day,
    weekday_name_of, Date, MAX_YEAR, MIN_YEAR,
};
use dashboard::decimal::Decimal;
use dashboard::list::ListObj;
use dashboard::styles::{AppStyles, ColorData};
use dashboard::surface::{CellStyle, Color, BOLD};
use dashboard::table::{row_height, TableObj};
use dashboard::text::{center, push_decimal, push_int, push_padded_right, push_two_digits};
use dashboard::util::{
    generic_increment, get_brightness, get_calendar_events, get_volume, get_xresources,
    set_backlight, set_volume,
};

fn stepped(value: u32, lower: u32, upper: u32, amount: i32) -> u32 {
    let mut v = value;
    generic_increment(&mut v, lower, upper, amount);
    v
}

#[test]
fn increment_is_clamped_and_saturating() {
    assert_eq!(stepped(3, 0, 9, 1), 4);
    assert_eq!(stepped(3, 0, 9, -1), 2);
    assert_eq!(stepped(0, 0, 9, -1), 0);
    assert_eq!(stepped(9, 0, 9, 1), 9);
    assert_eq!(stepped(3, 0, 9, 100), 9);
    assert_eq!(stepped(3, 1, 9, -100), 1);
    assert_eq!(stepped(3, 0, 9, 0), 3);
    assert_eq!(stepped(50, 0, 9, 1), 9);
    assert_eq!(stepped(0, 1, 9, -1), 1);
    assert_eq!(stepped(u32::MAX, 0, u32::MAX, i32::MAX), u32::MAX);
    assert_eq!(stepped(0, 0, u32::MAX, i32::MIN), 0);
}

#[test]
fn increment_stays_at_the_lower_bound_however_often() {
    let mut v = 2;
    for _ in 0..10 {
        generic_increment(&mut v, 1, 31, -1);
    }
    assert_eq!(v, 1);
}

#[test]
fn increment_between_bounds_that_leave_no_room_stays() {
    assert_eq!(stepped(5, 7, 3, 1), 5);
    assert_eq!(stepped(5, 7, 3, -1), 5);
}

#[test]
fn months_have_their_gregorian_lengths() {
    let lengths = [31, 28, 31, 30, 31, 30, 31, 31, 30, 31, 30, 31];
    for (i, days) in lengths.iter().enumerate() {
        assert_eq!(num_of_days(i as u32 + 1, 2023), Some(*days));
    }
    assert_eq!(num_of_days(2, 2024), Some(29));
    assert_eq!(num_of_days(2, 2000), Some(29));
    assert_eq!(num_of_days(2, 1900), Some(28));
    assert_eq!(num_of_days(2, 2100), Some(28));
    assert_eq!(num_of_days(12, 2024), Some(31));
    assert_eq!(num_of_days(2, -4), Some(29));
}

#[test]
fn months_outside_the_calendar_have_no_length() {
    assert_eq!(num_of_days(0, 2024), None);
    assert_eq!(num_of_days(13, 2024), None);
    assert_eq!(num_of_days(12, MAX_YEAR), Some(31));
    assert_eq!(num_of_days(2, MAX_YEAR), Some(28));
    assert_eq!(num_of_days(12, MIN_YEAR), Some(31));
    assert_eq!(num_of_days(11, MAX_YEAR), Some(30));
    assert_eq!(num_of_days(1, MIN_YEAR), Some(31));
    assert_eq!(num_of_days(1, MIN_YEAR - 1), None);
    assert_eq!(num_of_days(1, MAX_YEAR + 1), None);
}

#[test]
fn month_lengths_and_weekdays_agree_with_the_calendar_crate() {
    for year in 1890..2110 {
        for month in 1..=12u32 {
            let first = chrono::NaiveDate::from_ymd_opt(year, month, 1).unwrap();
            let next = if month == 12 {
                chrono::NaiveDate::from_ymd_opt(year + 1, 1, 1).unwrap()
            } else {
                chrono::NaiveDate::from_ymd_opt(year, month + 1, 1).unwrap()
            };
            assert_eq!(num_of_days(month, year), Some(next.signed_duration_since(first).num_days()));
            assert_eq!(start_day(month, year), Some(first.weekday().number_from_monday() - 1));
        }
    }
}

#[test]
fn first_weekdays_are_counted_from_monday() {
    assert_eq!(start_day(1, 2024), Some(0));
    assert_eq!(start_day(9, 2024), Some(6));
    assert_eq!(start_day(1, 1970), Some(3));
    assert_eq!(start_day(1, 1), Some(0));
    assert_eq!(start_day(0, 2024), None);
    assert_eq!(start_day(1, MAX_YEAR + 1), None);
}

#[test]
fn dates_exist_or_do_not() {
    assert!(Date::is_valid(2024, 2, 29));
    assert!(!Date::is_valid(2023, 2, 29));
    assert!(!Date::is_valid(2023, 4, 31));
    assert!(!Date::is_valid(2023, 0, 1));
    assert!(!Date::is_valid(2023, 1, 0));
    assert!(!Date::is_valid(400000, 1, 1));
    let a = Date { year: 2024, month: 1, day: 2 };
    assert!(a.same_day(Date { year: 2024, month: 1, day: 2 }));
    assert!(!a.same_day(Date { year: 2024, month: 1, day: 3 }));
}

#[test]
fn dates_are_written_out() {
    assert_eq!(heading_of(Date { year: 2024, month: 1, day: 1 }), "Mon 01 January 2024");
    assert_eq!(heading_of(Date { year: 2024, month: 12, day: 25 }), "Wed 25 December 2024");
    assert_eq!(&heading_of(Date { year: 987, month: 6, day: 5 })[3..], " 05 June 0987");
    assert_eq!(date_long_of(Date { year: 2022, month: 1, day: 1 }), "Saturday 01 January 2022");
    assert!(date_long_of(Date { year: 12345, month: 3, day: 9 }).ends_with("day 09 March +12345"));
    assert!(date_long_of(Date { year: -45, month: 3, day: 9 }).ends_with("day 09 March -0045"));
    assert_eq!(heading_of(Date { year: 2023, month: 2, day: 30 }), "Mon 30 February 2023");
    assert_eq!(clock_text_of(9, 5), "09:05");
    assert_eq!(clock_text_of(23, 59), "23:59");
    assert_eq!(month_name_of(9), "September");
    assert_eq!(weekday_name_of(6), "Sun");
}

#[test]
fn headings_agree_with_the_calendar_crate() {
    for (y, m, d) in [(2024, 2, 29), (1999, 12, 31), (2000, 1, 1), (2031, 7, 14), (987, 6, 5), (12345, 3, 9), (-45, 3, 9)] {
        let date = chrono::NaiveDate::from_ymd_opt(y, m, d).unwrap();
        assert_eq!(heading_of(Date { year: y, month: m, day: d }), date.format("%a %d %B %Y").to_string());
        assert_eq!(date_long_of(Date { year: y, month: m, day: d }), date.format("%A %d %B %Y").to_string());
    }
}

fn parsed(text: &str) -> Option<u64> {
    Decimal::parse(text).map(|d| d.micros)
}

#[test]
fn decimals_are_read_in_millionths() {
    assert_eq!(parsed("12.5"), Some(12_500_000));
    assert_eq!(parsed("12"), Some(12_000_000));
    assert_eq!(parsed("12."), Some(12_000_000));
    assert_eq!(parsed(".5"), Some(500_000));
    assert_eq!(parsed("0"), Some(0));
    assert_eq!(parsed("007.250"), Some(7_250_000));
    assert_eq!(parsed("0.000001"), Some(1));
    assert_eq!(parsed("0.0000019"), Some(1));
    assert_eq!(parsed("100000"), Some(100_000_000_000));
}

#[test]
fn what_is_no_number_is_not_read() {
    assert_eq!(parsed(""), None);
    assert_eq!(parsed("."), None);
    assert_eq!(parsed("1.2.3"), None);
    assert_eq!(parsed("1a"), None);
    assert_eq!(parsed("-1"), None);
    assert_eq!(parsed(" 1"), None);
    assert_eq!(parsed("99999999999999999999"), None);
    assert_eq!(parsed("18446744073709.551615"), Some(u64::MAX));
    assert_eq!(parsed("18446744073709.551616"), None);
}

#[test]
fn decimals_are_written() {
    let mut out = String::new();
    Decimal { micros: 12_500_000 }.push_text(&mut out);
    assert_eq!(out, "12.5");
    let mut out = String::new();
    Decimal { micros: 80_000_000 }.push_text(&mut out);
    assert_eq!(out, "80");
    let mut out = String::new();
    Decimal { micros: 3_050_001 }.push_text(&mut out);
    assert_eq!(out, "3.050001");
    let mut out = String::from("x");
    Decimal { micros: 12_345_000 }.push_fixed2(&mut out);
    assert_eq!(out, "x12.35");
    let mut out = String::new();
    Decimal { micros: 999_995_000 }.push_fixed2(&mut out);
    assert_eq!(out, "1000.00");
    let mut out = String::new();
    Decimal { micros: 5_004_999 }.push_fixed2(&mut out);
    assert_eq!(out, "5.00");
    assert_eq!(Decimal::from_units(7).micros, 7_000_000);
    assert_eq!(Decimal::zero().micros, 0);
    assert_eq!(Decimal { micros: 36_996_000 }.trunc(), 36);
    assert_eq!(Decimal { micros: 36_996_000 }.hundredths(), 100);
    assert_eq!(Decimal { micros: 36_504_000 }.hundredths(), 50);
}

#[test]
fn texts_are_built() {
    let mut out = String::new();
    push_decimal(&mut out, 0);
    push_decimal(&mut out, 1203);
    push_two_digits(&mut out, 7);
    push_two_digits(&mut out, 123);
    push_int(&mut out, -45);
    push_int(&mut out, i64::MIN);
    assert_eq!(out, "0120307123-45-9223372036854775808");
    assert_eq!(center("ab", 6, '-'), "--ab--");
    assert_eq!(center("ab", 7, '-'), "--ab---");
    assert_eq!(center("abcdef", 3, '-'), "abcdef");
    assert_eq!(center("Search", 10, ' '), format!("{:^1$}", "Search", 10));
    assert_eq!(center("Add", 10, ' '), format!("{:^1$}", "Add", 10));
    let mut out = String::new();
    push_padded_right(&mut out, "3", 2, '_');
    push_padded_right(&mut out, "", 2, '_');
    push_padded_right(&mut out, "123", 2, '_');
    assert_eq!(out, "3___123");
}

#[test]
fn colours_are_read_from_hex() {
    assert_eq!(ColorData::hex_to_color("#00ff00"), Some(Color::Rgb(0, 255, 0)));
    assert_eq!(ColorData::hex_to_color("#1A2b3C"), Some(Color::Rgb(0x1a, 0x2b, 0x3c)));
    assert_eq!(ColorData::hex_to_color("#1A2b3Cff"), Some(Color::Rgb(0x1a, 0x2b, 0x3c)));
    assert_eq!(ColorData::hex_to_color("#12345"), None);
    assert_eq!(ColorData::hex_to_color("#12345g"), None);
    assert_eq!(ColorData::hex_to_color(""), None);
    let theme = ColorData::new(Some("#102030"), Some("oops"));
    assert_eq!(theme.main, Color::Rgb(0x10, 0x20, 0x30));
    assert_eq!(theme.accent, Color::Rgb(0, 0x5f, 0));
    assert_eq!(theme.background, Color::Black);
    let fallback = ColorData::new(None, None);
    assert_eq!(fallback.main, Color::Rgb(0, 255, 0));
}

#[test]
fn styles_follow_the_theme() {
    let theme = ColorData::new(Some("#010203"), Some("#040506"));
    let main = Color::Rgb(1, 2, 3);
    let accent = Color::Rgb(4, 5, 6);
    assert_eq!(AppStyles::Main.get(theme), CellStyle { fg: Some(main), bg: None, add_modifier: 0, sub_modifier: 0 });
    assert_eq!(AppStyles::Accent.get(theme).fg, Some(accent));
    assert_eq!(AppStyles::Backgroud.get(theme).fg, Some(Color::Black));
    assert_eq!(AppStyles::InvertedMain.get(theme), CellStyle { fg: Some(Color::Black), bg: Some(main), add_modifier: 0, sub_modifier: 0 });
    assert_eq!(AppStyles::ProgressBar.get(theme), CellStyle { fg: Some(main), bg: Some(Color::Black), add_modifier: 0, sub_modifier: 0 });
    assert_eq!(AppStyles::CalendarCurDay.get(theme).fg, Some(accent));
    assert_eq!(AppStyles::CalendarSelected.get(theme).fg, Some(main));
    assert_eq!(AppStyles::CalendarDeselected.get(theme).fg, Some(accent));
    assert_eq!(AppStyles::TitleText.get(theme), CellStyle { fg: Some(main), bg: None, add_modifier: BOLD, sub_modifier: 0 });
    assert_eq!(AppStyles::TitleTextDeactivated.get(theme).add_modifier, BOLD);
    assert_eq!(AppStyles::ButtonSelected.get(theme), CellStyle { fg: Some(main), bg: Some(main), add_modifier: 0, sub_modifier: 0 });
    assert_eq!(AppStyles::ButtonDeselected.get(theme), CellStyle { fg: Some(accent), bg: Some(accent), add_modifier: 0, sub_modifier: 0 });
}

#[test]
fn probes_read_their_answers() {
    assert_eq!(get_brightness(Some(42)), 42);
    assert_eq!(get_brightness(Some(0)), 0);
    assert_eq!(get_brightness(None), 0);
    assert_eq!(get_brightness(Some(65535)), 65535);
    assert_eq!(get_brightness(Some(65536)), 65535);
    assert_eq!(get_brightness(Some(u64::MAX)), 65535);
    let read = |answer: &str| get_brightness(answer.parse::<f32>().ok().map(|n| n.ceil() as u64));
    assert_eq!(read("45.3"), 46);
    assert_eq!(read("100.00"), 100);
    assert_eq!(read("1e2"), 100);
    assert_eq!(read("inf"), 65535);
    assert_eq!(read("-7"), 0);
    assert_eq!(read(""), 0);
    assert_eq!(read("abc"), 0);
    assert_eq!(get_volume("55"), 55);
    assert_eq!(get_volume("+55"), 55);
    assert_eq!(get_volume("055"), 55);
    assert_eq!(get_volume("65535"), 65535);
    assert_eq!(get_volume("65536"), 0);
    assert_eq!(get_volume("5.5"), 0);
    assert_eq!(get_volume(""), 0);
    assert_eq!(get_volume("+"), 0);
    assert_eq!(get_volume("-5"), 0);
}

#[test]
fn commands_are_written() {
    assert_eq!(set_backlight(40), "light -S 40");
    assert_eq!(set_volume(7), "amixer sset Master 7%");
    assert_eq!(get_xresources(), "xresources_as_json");
    assert_eq!(
        get_calendar_events("/home/me/dash", 2024, 2, 29),
        "python /home/me/dash/src/get_events.py 2024 2 29"
    );
    assert_eq!(get_calendar_events("", -1, 12, 31), "python /src/get_events.py -1 12 31");
}

#[test]
fn list_cursor_goes_round() {
    let mut list = ListObj::new();
    assert_eq!(list.items, vec!["a", "b", "c", "d", "e"]);
    assert_eq!(list.selected, None);
    list.next();
    assert_eq!(list.selected, Some(0));
    list.previous();
    assert_eq!(list.selected, Some(4));
    list.next();
    assert_eq!(list.selected, Some(0));
    list.next();
    assert_eq!(list.selected, Some(1));
    list.add_item(String::from("f"));
    assert_eq!(list.items.len(), 6);
    list.unselect();
    assert_eq!(list.selected, None);
    list.previous();
    assert_eq!(list.selected, Some(0));
    let mut empty = ListObj { items: vec![], selected: Some(0) };
    empty.next();
    assert_eq!(empty.selected, Some(0));
    empty.previous();
    assert_eq!(empty.selected, Some(0));
}

#[test]
fn table_rows_are_as_wide_as_the_headers() {
    let mut table = TableObj::new(vec![String::from("a"), String::from("b")]);
    assert_eq!(table.num_of_cols, 2);
    assert_eq!(table.add_row(vec![String::from("1")]), Err("could not add row"));
    assert_eq!(table.add_row(vec![String::from("1"), String::from("2")]), Ok(()));
    assert_eq!(table.add_row(vec![String::from("3"), String::from("4")]), Ok(()));
    assert_eq!(table.items.len(), 2);
    assert_eq!(table.remove_row(2), Err("index too big"));
    assert_eq!(table.remove_row(0), Ok(()));
    assert_eq!(table.items, vec![vec!["3", "4"]]);
    table.next();
    assert_eq!(table.selected, Some(0));
    table.next();
    assert_eq!(table.selected, Some(0));
    table.previous();
    assert_eq!(table.selected, Some(0));
    assert_eq!(table.remove_row(0), Ok(()));
    assert_eq!(table.remove_row(0), Err("index too big"));
    assert_eq!(row_height(&vec![String::from("a"), String::from("b\nc\nd")]), 3);
    assert_eq!(row_height(&vec![]), 1);
}
