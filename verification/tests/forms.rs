use dashboard::date::Date;
use dashboard::decimal::Decimal;
use dashboard::form::{
    DateField, FloatField, Form, FormField, FormFieldStyle, FormState, FormValue, IntegerField,
    TextField,
};
use dashboard::keys::KeyCode;
use dashboard::styles::{AppStyles, ColorData};
use dashboard::surface::{blank_surface, Rect};
use dashboard::util::{BorderType, Borders};

fn theme() -> ColorData {
    ColorData::new(Some("#00ff00"), Some("#005f00"))
}

fn style(title: &str) -> FormFieldStyle {
    FormFieldStyle::new(title.to_owned(), theme())
}

fn typed(field: &mut FormField, keys: &str) {
    for c in keys.chars() {
        field.receive_input(&KeyCode::Char(c));
    }
}

fn float_value(field: &FloatField) -> u64 {
    match &field.value {
        FormValue::Float(d) => d.micros,
        _ => panic!("not a decimal"),
    }
}

fn percent_field() -> FloatField {
    FloatField::new(Decimal::zero(), Decimal::zero(), Decimal::from_units(100), true, style("Percentage"))
}

#[test]
fn field_style_is_set_up() {
    let s = style("Title");
    assert_eq!(s.title, "Title");
    assert_eq!(s.borders, Borders::all());
    assert_eq!(s.border_type, BorderType::Plain);
    assert_eq!(s.selected_style, AppStyles::Main.get(theme()));
    assert_eq!(s.unselected_style, AppStyles::Accent.get(theme()));
}

#[test]
fn text_field_appends_and_removes() {
    let mut field = TextField::new("ab".to_owned(), true, style("T"));
    field.receive_input(&KeyCode::Char('c'));
    field.receive_input(&KeyCode::Char('é'));
    assert_eq!(field.get_display_value(), "abcé");
    field.receive_input(&KeyCode::Backspace);
    assert_eq!(field.get_display_value(), "abc");
    field.receive_input(&KeyCode::Enter);
    field.receive_input(&KeyCode::Left);
    assert_eq!(field.get_display_value(), "abc");
    for _ in 0..5 {
        field.receive_input(&KeyCode::Backspace);
    }
    assert_eq!(field.get_display_value(), "");
    field.receive_input(&KeyCode::Char('z'));
    field.reset_value();
    assert_eq!(field.get_display_value(), "ab");
}

#[test]
fn integer_field_shifts_digits() {
    let mut field = IntegerField::new(0, 0, 10, false, style("N"));
    for c in "1203".chars() {
        field.receive_input(&KeyCode::Char(c));
    }
    assert_eq!(field.get_display_value(), "1203");
    field.receive_input(&KeyCode::Char('x'));
    field.receive_input(&KeyCode::Backspace);
    assert_eq!(field.get_display_value(), "120");
    for _ in 0..5 {
        field.receive_input(&KeyCode::Backspace);
    }
    assert_eq!(field.get_display_value(), "0");
    for c in "4294967295".chars() {
        field.receive_input(&KeyCode::Char(c));
    }
    assert_eq!(field.get_display_value(), "4294967295");
    field.receive_input(&KeyCode::Char('1'));
    assert_eq!(field.get_display_value(), "4294967295");
    field.reset_value();
    assert_eq!(field.get_display_value(), "0");
}

#[test]
fn float_field_takes_twelve_point_five() {
    let mut field = percent_field();
    for c in ['1', '2', '.', '5'] {
        field.receive_input(&KeyCode::Char(c));
    }
    assert_eq!(field.get_display_value(), "12.5");
    assert_eq!(float_value(&field), 12_500_000);
    assert_eq!(float_value(&field) as f64 / 1_000_000.0, 12.5);
}

#[test]
fn float_field_rejects_what_exceeds_the_maximum() {
    let mut field = percent_field();
    for c in ['9', '9'] {
        field.receive_input(&KeyCode::Char(c));
    }
    field.receive_input(&KeyCode::Char('9'));
    assert_eq!(field.get_display_value(), "99");
    assert_eq!(float_value(&field), 99_000_000);
    field.receive_input(&KeyCode::Char('.'));
    field.receive_input(&KeyCode::Char('9'));
    assert_eq!(field.get_display_value(), "99.9");
    let mut full = percent_field();
    for c in "100".chars() {
        full.receive_input(&KeyCode::Char(c));
    }
    assert_eq!(full.get_display_value(), "100");
    full.receive_input(&KeyCode::Char('0'));
    assert_eq!(full.get_display_value(), "100");
    full.receive_input(&KeyCode::Char('.'));
    full.receive_input(&KeyCode::Char('0'));
    assert_eq!(full.get_display_value(), "100.0");
    full.receive_input(&KeyCode::Char('1'));
    assert_eq!(full.get_display_value(), "100.0");
    assert_eq!(float_value(&full), 100_000_000);
}

#[test]
fn float_field_rejects_what_is_no_number() {
    let mut field = percent_field();
    field.receive_input(&KeyCode::Char('.'));
    assert_eq!(field.get_display_value(), "");
    field.receive_input(&KeyCode::Char('a'));
    field.receive_input(&KeyCode::Char('-'));
    assert_eq!(field.get_display_value(), "");
    for c in "1.5".chars() {
        field.receive_input(&KeyCode::Char(c));
    }
    field.receive_input(&KeyCode::Char('.'));
    assert_eq!(field.get_display_value(), "1.5");
    assert_eq!(float_value(&field), 1_500_000);
}

#[test]
fn float_field_appends_while_its_value_is_zero() {
    let mut field = percent_field();
    for c in ['0', '.', '5'] {
        field.receive_input(&KeyCode::Char(c));
    }
    assert_eq!(field.get_display_value(), "0.5");
    assert_eq!(float_value(&field), 500_000);
    assert_eq!(float_value(&field) as f64 / 1_000_000.0, 0.5);
    let mut zeros = percent_field();
    for c in ['0', '0', '7'] {
        zeros.receive_input(&KeyCode::Char(c));
    }
    assert_eq!(zeros.get_display_value(), "007");
    assert_eq!(float_value(&zeros), 7_000_000);
}

#[test]
fn float_field_keeps_its_default_until_a_key_is_taken() {
    let mut field = FloatField::new(
        Decimal::from_units(100_000),
        Decimal::zero(),
        Decimal::from_units(100_000),
        false,
        style("Max"),
    );
    field.receive_input(&KeyCode::Char('.'));
    assert_eq!(field.get_display_value(), "");
    assert_eq!(float_value(&field), 100_000_000_000);
    field.receive_input(&KeyCode::Char('5'));
    assert_eq!(field.get_display_value(), "5");
    assert_eq!(float_value(&field), 5_000_000);
}

#[test]
fn float_field_backspace_reads_again() {
    let mut field = percent_field();
    for c in "12.5".chars() {
        field.receive_input(&KeyCode::Char(c));
    }
    field.receive_input(&KeyCode::Backspace);
    assert_eq!(field.get_display_value(), "12.");
    assert_eq!(float_value(&field), 12_000_000);
    field.receive_input(&KeyCode::Backspace);
    field.receive_input(&KeyCode::Backspace);
    assert_eq!(field.get_display_value(), "1");
    assert_eq!(float_value(&field), 1_000_000);
    field.receive_input(&KeyCode::Backspace);
    assert_eq!(field.get_display_value(), "");
    assert_eq!(float_value(&field), 0);
    field.receive_input(&KeyCode::Backspace);
    assert_eq!(field.get_display_value(), "");
}

#[test]
fn float_field_reset_shows_nothing() {
    let mut field = FloatField::new(Decimal::from_units(5), Decimal::zero(), Decimal::from_units(9), false, style("F"));
    assert_eq!(field.get_display_value(), "");
    assert_eq!(float_value(&field), 5_000_000);
    field.receive_input(&KeyCode::Char('3'));
    assert_eq!(field.get_display_value(), "3");
    field.reset_value();
    assert_eq!(field.get_display_value(), "");
    assert_eq!(float_value(&field), 5_000_000);
}

fn empty_date_field() -> DateField {
    let mut field = DateField::new(Date { year: 2024, month: 3, day: 15 }, false, style("Date"));
    for _ in 0..6 {
        field.receive_input(&KeyCode::Backspace);
    }
    field
}

fn date_value(field: &DateField) -> Date {
    match &field.value {
        FormValue::Date(d) => *d,
        _ => panic!("not a date"),
    }
}

#[test]
fn date_field_shows_its_default() {
    let field = DateField::new(Date { year: 2024, month: 3, day: 5 }, false, style("Date"));
    assert_eq!(field.get_display_value(), "05 / 03 / 24");
    assert_eq!(date_value(&field), Date { year: 2024, month: 3, day: 5 });
}

#[test]
fn date_field_backspace_empties_year_month_day() {
    let mut field = DateField::new(Date { year: 2024, month: 3, day: 15 }, false, style("Date"));
    let shown = ["15 / 03 / 2_", "15 / 03 / __", "15 / 0_ / __", "15 / __ / __", "1_ / __ / __", "__ / __ / __", "__ / __ / __"];
    for expected in shown {
        field.receive_input(&KeyCode::Backspace);
        assert_eq!(field.get_display_value(), expected);
    }
    assert_eq!(date_value(&field), Date { year: 2024, month: 3, day: 15 });
}

#[test]
fn date_field_rejects_february_for_the_thirty_first() {
    let mut field = empty_date_field();
    for c in "31".chars() {
        field.receive_input(&KeyCode::Char(c));
    }
    assert_eq!(field.day, "31");
    field.receive_input(&KeyCode::Char('0'));
    assert_eq!(field.month, "0");
    field.receive_input(&KeyCode::Char('2'));
    assert_eq!(field.month, "0");
    assert_eq!(field.day, "31");
    assert_eq!(field.year, "");
    assert_eq!(field.get_display_value(), "31 / 0_ / __");
    field.receive_input(&KeyCode::Char('4'));
    assert_eq!(field.month, "0");
    field.receive_input(&KeyCode::Char('3'));
    assert_eq!(field.month, "03");
}

#[test]
fn date_field_rejects_days_and_months_that_are_none() {
    let mut field = empty_date_field();
    field.receive_input(&KeyCode::Char('4'));
    assert_eq!(field.day, "4");
    field.receive_input(&KeyCode::Char('0'));
    assert_eq!(field.day, "4");
    field.receive_input(&KeyCode::Char('x'));
    field.receive_input(&KeyCode::Char('2'));
    assert_eq!(field.day, "4");
    field.receive_input(&KeyCode::Backspace);
    field.receive_input(&KeyCode::Char('2'));
    field.receive_input(&KeyCode::Char('9'));
    assert_eq!(field.day, "29");
    field.receive_input(&KeyCode::Char('1'));
    field.receive_input(&KeyCode::Char('3'));
    assert_eq!(field.month, "1");
    field.receive_input(&KeyCode::Backspace);
    field.receive_input(&KeyCode::Char('0'));
    field.receive_input(&KeyCode::Char('0'));
    assert_eq!(field.month, "0");
    field.receive_input(&KeyCode::Char('2'));
    assert_eq!(field.month, "02");
}

#[test]
fn date_field_takes_the_year_where_the_date_exists() {
    let mut field = empty_date_field();
    for c in "2902".chars() {
        field.receive_input(&KeyCode::Char(c));
    }
    field.receive_input(&KeyCode::Char('2'));
    assert_eq!(field.year, "2");
    field.receive_input(&KeyCode::Char('3'));
    assert_eq!(field.year, "2");
    assert_eq!(date_value(&field), Date { year: 2024, month: 3, day: 15 });
    field.receive_input(&KeyCode::Char('4'));
    assert_eq!(field.year, "24");
    assert_eq!(date_value(&field), Date { year: 2024, month: 2, day: 29 });
    assert_eq!(field.get_display_value(), "29 / 02 / 24");
    field.receive_input(&KeyCode::Char('1'));
    assert_eq!(field.get_display_value(), "29 / 02 / 24");
    field.reset_value();
    assert_eq!(field.get_display_value(), "15 / 03 / 24");
    assert_eq!(date_value(&field), Date { year: 2024, month: 3, day: 15 });
}

#[test]
fn date_field_rejects_the_day_zero_at_the_year() {
    let mut field = empty_date_field();
    for c in "00012".chars() {
        field.receive_input(&KeyCode::Char(c));
    }
    assert_eq!(field.get_display_value(), "00 / 01 / 2_");
    field.receive_input(&KeyCode::Char('4'));
    assert_eq!(field.get_display_value(), "00 / 01 / 2_");
}

#[test]
fn form_values_are_told_apart() {
    let mut text = FormValue::Text("a".to_owned());
    assert_eq!(text.try_get_text_value(), Some(&"a".to_owned()));
    assert_eq!(text.try_get_integer_value(), None);
    assert_eq!(text.try_get_float_value(), None);
    assert_eq!(text.try_get_date_value(), None);
    text.try_get_text_value_mut().unwrap().push('b');
    assert_eq!(text.try_get_text_value(), Some(&"ab".to_owned()));
    assert!(text.try_get_integer_value_mut().is_none());
    let mut number = FormValue::Integer(4);
    *number.try_get_integer_value_mut().unwrap() = 5;
    assert_eq!(number.try_get_integer_value(), Some(&5));
    assert!(number.try_get_text_value_mut().is_none());
    let mut decimal = FormValue::Float(Decimal::from_units(1));
    *decimal.try_get_float_value_mut().unwrap() = Decimal::from_units(2);
    assert_eq!(decimal.try_get_float_value(), Some(&Decimal::from_units(2)));
    assert!(decimal.try_get_date_value_mut().is_none());
    let mut date = FormValue::Date(Date { year: 2024, month: 1, day: 1 });
    date.try_get_date_value_mut().unwrap().day = 2;
    assert_eq!(date.try_get_date_value(), Some(&Date { year: 2024, month: 1, day: 2 }));
    assert!(date.try_get_float_value_mut().is_none());
}

fn three_fields() -> FormState {
    let mut form = FormState::new();
    form.add_field(FormField::Text(TextField::new("".to_owned(), true, style("Title"))));
    form.add_field(FormField::Float(percent_field()));
    form.add_field(FormField::Integer(IntegerField::new(3, 0, 9, false, style("Count"))));
    form
}

#[test]
fn form_cursor_is_clamped() {
    let mut form = three_fields();
    assert_eq!(form.selected_field, 0);
    form.increment_selected(-1);
    assert_eq!(form.selected_field, 0);
    form.increment_selected(1);
    form.increment_selected(1);
    assert_eq!(form.selected_field, 2);
    form.increment_selected(1);
    assert_eq!(form.selected_field, 2);
    form.increment_selected(-5);
    assert_eq!(form.selected_field, 0);
    let mut empty = FormState::new();
    empty.increment_selected(1);
    empty.increment_selected(-1);
    assert_eq!(empty.selected_field, 0);
    empty.send_input(&KeyCode::Char('a'));
    empty.reset_fields();
    assert_eq!(empty.get_fields().len(), 0);
}

#[test]
fn form_hands_keys_to_the_selected_field() {
    let mut form = three_fields();
    form.send_input(&KeyCode::Char('h'));
    form.send_input(&KeyCode::Char('i'));
    form.increment_selected(1);
    form.send_input(&KeyCode::Char('4'));
    form.send_input(&KeyCode::Char('2'));
    form.increment_selected(1);
    form.send_input(&KeyCode::Char('7'));
    assert_eq!(form.get_fields()[0].get_display_value(), "hi");
    assert_eq!(form.get_fields()[1].get_display_value(), "42");
    assert_eq!(form.get_fields()[2].get_display_value(), "37");
    assert_eq!(form.get_selected_field().get_display_value(), "37");
    assert_eq!(form.get_fields()[1].get_internal_value().try_get_float_value(), Some(&Decimal::from_units(42)));
    assert_eq!(form.get_fields()[2].get_default_value().try_get_integer_value(), Some(&3));
    assert!(form.get_fields()[0].is_required());
    assert!(!form.get_fields()[2].is_required());
    assert_eq!(form.get_fields()[2].get_style().title, "Count");
    form.get_selected_field_mut().receive_input(&KeyCode::Backspace);
    assert_eq!(form.get_fields()[2].get_display_value(), "3");
    form.get_fields_mut().pop();
    assert_eq!(form.get_fields().len(), 2);
    form.selected_field = 1;
    form.reset_fields();
    assert_eq!(form.selected_field, 0);
    assert_eq!(form.get_fields()[0].get_display_value(), "");
    assert_eq!(form.get_fields()[1].get_display_value(), "");
}

#[test]
fn form_restyles_every_field() {
    let mut form = three_fields();
    let new_style = AppStyles::InvertedMain.get(theme());
    form.change_style_selected(new_style);
    for field in form.get_fields() {
        assert_eq!(field.get_style().selected_style, new_style);
        assert_eq!(field.get_style().unselected_style, AppStyles::Accent.get(theme()));
    }
    let mut one = FormField::Text(TextField::new("".to_owned(), false, style("x")));
    typed(&mut one, "ab");
    one.change_style_selected(new_style);
    one.reset_value();
    assert_eq!(one.get_display_value(), "");
    assert_eq!(one.get_style().selected_style, new_style);
}

#[test]
fn form_is_drawn_in_boxes_of_three_rows() {
    let mut buf = blank_surface(Rect { x: 0, y: 0, width: 20, height: 12 }).unwrap();
    let mut form = three_fields();
    form.send_input(&KeyCode::Char('h'));
    form.send_input(&KeyCode::Char('i'));
    Form::new().render(Rect { x: 1, y: 1, width: 12, height: 9 }, &mut buf, &mut form);
    let row = |y: u16| -> String { (0..20).map(|x| buf.get(x, y).symbol.clone()).collect() };
    assert_eq!(row(0), "                    ");
    assert_eq!(row(1), " ┌*Title────┐       ");
    assert_eq!(row(2), " │hi█       │       ");
    assert_eq!(row(3), " └──────────┘       ");
    assert_eq!(row(4), " ┌*Percentage       ");
    assert_eq!(row(5), " │          │       ");
    assert_eq!(row(7), " ┌Count─────┐       ");
    assert_eq!(row(8), " │3         │       ");
    assert_eq!(row(9), " └──────────┘       ");
    assert_eq!(row(10), "                    ");
    let main = tui::style::Color::Rgb(0, 255, 0);
    let accent = tui::style::Color::Rgb(0, 0x5f, 0);
    assert_eq!(buf.get(1, 1).fg, main);
    assert_eq!(buf.get(4, 2).fg, main);
    assert_eq!(buf.get(1, 4).fg, accent);
    assert_eq!(buf.get(2, 8).fg, accent);
    assert_eq!(form.selected_field, 0);
}
