//! The form engine: typed input fields that take keys one by one, a form
//! that holds them with a cursor, and the way a form is drawn.

use crate::date::{valid_date, Date};
use crate::decimal::{is_digit, parsed, Decimal};
use crate::keys::KeyCode;
use crate::styles::{AppStyles, ColorData};
use crate::surface::{draw_text, surface, CellStyle, Rect, Surface};
use crate::text::{decimal, number, padded_right, pop_char, push_char, push_decimal, push_padded_right, push_text, push_two_digits, two_digits};
use crate::util::{
    bordered, bounded_step, draw_rect_borders, generic_increment, BorderType, Borders,
};
use vstd::prelude::*;
use vstd::string::StrSliceExecFns;

verus! {

/// The filled block that marks the cursor of the selected field.
pub const FULL_BLOCK: &'static str = "\u{2588}";

// ----------------------------------------------------------------------------
/// How a field is drawn: its title, its border, and the style it has when it
/// is the selected field and when it is not.
#[derive(Debug)]
pub struct FormFieldStyle {
    pub title: String,
    pub borders: Borders,
    pub border_type: BorderType,
    pub selected_style: CellStyle,
    pub unselected_style: CellStyle,
}

/// The model of a `FormFieldStyle`.
pub struct FormFieldStyleView {
    pub title: Seq<char>,
    pub borders: Borders,
    pub border_type: BorderType,
    pub selected_style: CellStyle,
    pub unselected_style: CellStyle,
}

impl View for FormFieldStyle {
    type V = FormFieldStyleView;

    open spec fn view(&self) -> FormFieldStyleView {
        FormFieldStyleView {
            title: self.title@,
            borders: self.borders,
            border_type: self.border_type,
            selected_style: self.selected_style,
            unselected_style: self.unselected_style,
        }
    }
}

impl FormFieldStyle {
    /// A plain border on all sides, the main style when selected and the
    /// accent style when not.
    pub fn new(title: String, colors: ColorData) -> (r: FormFieldStyle)
        ensures
            r@ == (FormFieldStyleView {
                title: title@,
                borders: Borders::all(),
                border_type: BorderType::Plain,
                selected_style: AppStyles::Main.get(colors),
                unselected_style: AppStyles::Accent.get(colors),
            }),
    {
        FormFieldStyle {
            title,
            borders: Borders::all(),
            border_type: BorderType::Plain,
            selected_style: AppStyles::Main.get(colors),
            unselected_style: AppStyles::Accent.get(colors),
        }
    }
}

/// The value of a field.
#[derive(Debug)]
pub enum FormValue {
    Text(String),
    Integer(u32),
    Float(Decimal),
    Date(Date),
}

/// The model of a `FormValue`.
pub enum FormValueView {
    Text(Seq<char>),
    Integer(u32),
    Float(Decimal),
    Date(Date),
}

impl View for FormValue {
    type V = FormValueView;

    open spec fn view(&self) -> FormValueView {
        match self {
            FormValue::Text(s) => FormValueView::Text(s@),
            FormValue::Integer(i) => FormValueView::Integer(*i),
            FormValue::Float(d) => FormValueView::Float(*d),
            FormValue::Date(d) => FormValueView::Date(*d),
        }
    }
}

impl FormValue {
    /// The text, where the value is one.
    pub fn try_get_text_value(&self) -> (r: Option<&String>)
        ensures
            r is Some <==> self is Text,
            r matches Some(s) ==> *s == self->Text_0,
    {
        if let FormValue::Text(s) = self {
            return Some(s);
        }
        None
    }

    /// The text, to be changed, where the value is one.
    pub fn try_get_text_value_mut(&mut self) -> (r: Option<&mut String>)
        ensures
            r is Some <==> (*old(self) is Text),
            r matches Some(s) ==> *s == (*old(self))->Text_0 && *final(self) == FormValue::Text(
                *final(s),
            ),
            r is None ==> *final(self) == *old(self),
    {
        if let FormValue::Text(s) = self {
            return Some(s);
        }
        None
    }

    /// The whole number, where the value is one.
    pub fn try_get_integer_value(&self) -> (r: Option<&u32>)
        ensures
            r is Some <==> self is Integer,
            r matches Some(i) ==> *i == self->Integer_0,
    {
        if let FormValue::Integer(i) = self {
            return Some(i);
        }
        None
    }

    /// The whole number, to be changed, where the value is one.
    pub fn try_get_integer_value_mut(&mut self) -> (r: Option<&mut u32>)
        ensures
            r is Some <==> (*old(self) is Integer),
            r matches Some(i) ==> *i == (*old(self))->Integer_0 && *final(self)
                == FormValue::Integer(*final(i)),
            r is None ==> *final(self) == *old(self),
    {
        if let FormValue::Integer(i) = self {
            return Some(i);
        }
        None
    }

    /// The decimal number, where the value is one.
    pub fn try_get_float_value(&self) -> (r: Option<&Decimal>)
        ensures
            r is Some <==> self is Float,
            r matches Some(d) ==> *d == self->Float_0,
    {
        if let FormValue::Float(d) = self {
            return Some(d);
        }
        None
    }

    /// The decimal number, to be changed, where the value is one.
    pub fn try_get_float_value_mut(&mut self) -> (r: Option<&mut Decimal>)
        ensures
            r is Some <==> (*old(self) is Float),
            r matches Some(d) ==> *d == (*old(self))->Float_0 && *final(self) == FormValue::Float(
                *final(d),
            ),
            r is None ==> *final(self) == *old(self),
    {
        if let FormValue::Float(d) = self {
            return Some(d);
        }
        None
    }

    /// The date, where the value is one.
    pub fn try_get_date_value(&self) -> (r: Option<&Date>)
        ensures
            r is Some <==> self is Date,
            r matches Some(d) ==> *d == self->Date_0,
    {
        if let FormValue::Date(d) = self {
            return Some(d);
        }
        None
    }

    /// The date, to be changed, where the value is one.
    pub fn try_get_date_value_mut(&mut self) -> (r: Option<&mut Date>)
        ensures
            r is Some <==> (*old(self) is Date),
            r matches Some(d) ==> *d == (*old(self))->Date_0 && *final(self) == FormValue::Date(
                *final(d),
            ),
            r is None ==> *final(self) == *old(self),
    {
        if let FormValue::Date(d) = self {
            return Some(d);
        }
        None
    }

    /// A copy of the value.
    pub fn duplicate(&self) -> (r: FormValue)
        ensures
            r@ == self@,
    {
        match self {
            FormValue::Text(s) => FormValue::Text(s.clone()),
            FormValue::Integer(i) => FormValue::Integer(*i),
            FormValue::Float(d) => FormValue::Float(*d),
            FormValue::Date(d) => FormValue::Date(*d),
        }
    }
}

// ----------------------------------------------------------------------------
/// A field that takes a text.
#[derive(Debug)]
pub struct TextField {
    pub value: FormValue,
    pub default_value: FormValue,
    pub is_required: bool,
    pub style: FormFieldStyle,
}

/// The model of a `TextField`.
pub struct TextFieldView {
    pub value: Seq<char>,
    pub default_value: Seq<char>,
    pub is_required: bool,
    pub style: FormFieldStyleView,
}

impl TextFieldView {
    /// The field after a key: a character is appended, backspace takes the
    /// last character away, any other key does nothing.
    pub open spec fn received(self, key: KeyCode) -> TextFieldView {
        match key {
            KeyCode::Backspace => if self.value.len() > 0 {
                TextFieldView { value: self.value.drop_last(), ..self }
            } else {
                self
            },
            KeyCode::Char(c) => TextFieldView { value: self.value.push(c), ..self },
            _ => self,
        }
    }

    /// The field with its default value.
    pub open spec fn reset(self) -> TextFieldView {
        TextFieldView { value: self.default_value, ..self }
    }
}

impl View for TextField {
    type V = TextFieldView;

    open spec fn view(&self) -> TextFieldView {
        TextFieldView {
            value: self.value->Text_0@,
            default_value: self.default_value->Text_0@,
            is_required: self.is_required,
            style: self.style@,
        }
    }
}

impl TextField {
    /// Both values are texts.
    pub open spec fn wf(&self) -> bool {
        self.value is Text && self.default_value is Text
    }

    /// A text field that holds its default value.
    pub fn new(default_value: String, is_required: bool, style: FormFieldStyle) -> (r: TextField)
        ensures
            r.wf(),
            r@ == (TextFieldView {
                value: default_value@,
                default_value: default_value@,
                is_required,
                style: style@,
            }),
    {
        TextField {
            value: FormValue::Text(default_value.clone()),
            default_value: FormValue::Text(default_value),
            is_required,
            style,
        }
    }

    /// The text that is shown: the value itself.
    pub fn get_display_value(&self) -> (r: String)
        requires
            self.wf(),
        ensures
            r@ == self@.value,
    {
        match &self.value {
            FormValue::Text(s) => s.clone(),
            _ => String::new(),
        }
    }

    /// Puts the default value back.
    pub fn reset_value(&mut self)
        requires
            old(self).wf(),
        ensures
            final(self).wf(),
            final(self)@ == old(self)@.reset(),
    {
        self.value = self.default_value.duplicate();
    }

    /// Takes a key.
    pub fn receive_input(&mut self, key: &KeyCode)
        requires
            old(self).wf(),
        ensures
            final(self).wf(),
            final(self)@ == old(self)@.received(*key),
    {
        match &mut self.value {
            FormValue::Text(current_value) => {
                match key {
                    KeyCode::Backspace => {
                        let _ = pop_char(current_value);
                    },
                    KeyCode::Char(c) => {
                        push_char(current_value, *c);
                    },
                    _ => {},
                }
            },
            _ => {},
        }
    }
}

// ----------------------------------------------------------------------------
/// A field that takes a whole number.
#[derive(Debug)]
pub struct IntegerField {
    pub value: FormValue,
    pub default_value: FormValue,
    pub min: u32,
    pub max: u32,
    pub is_required: bool,
    pub style: FormFieldStyle,
}

/// The model of an `IntegerField`.
pub struct IntegerFieldView {
    pub value: u32,
    pub default_value: u32,
    pub min: u32,
    pub max: u32,
    pub is_required: bool,
    pub style: FormFieldStyleView,
}

impl IntegerFieldView {
    /// The field after a key: a digit shifts the value one place to the left
    /// and stands at its end, unless the number would leave the type;
    /// backspace shifts the value one place to the right; any other key does
    /// nothing.
    pub open spec fn received(self, key: KeyCode) -> IntegerFieldView {
        match key {
            KeyCode::Char(c) => if is_digit(c) && self.value * 10 + (c as int - 48) <= u32::MAX {
                IntegerFieldView { value: (self.value * 10 + (c as int - 48)) as u32, ..self }
            } else {
                self
            },
            KeyCode::Backspace => IntegerFieldView { value: self.value / 10, ..self },
            _ => self,
        }
    }

    /// The field with its default value.
    pub open spec fn reset(self) -> IntegerFieldView {
        IntegerFieldView { value: self.default_value, ..self }
    }
}

impl View for IntegerField {
    type V = IntegerFieldView;

    open spec fn view(&self) -> IntegerFieldView {
        IntegerFieldView {
            value: self.value->Integer_0,
            default_value: self.default_value->Integer_0,
            min: self.min,
            max: self.max,
            is_required: self.is_required,
            style: self.style@,
        }
    }
}

impl IntegerField {
    /// Both values are whole numbers.
    pub open spec fn wf(&self) -> bool {
        self.value is Integer && self.default_value is Integer
    }

    /// An integer field that holds its default value.
    pub fn new(
        default_value: u32,
        min: u32,
        max: u32,
        is_required: bool,
        style: FormFieldStyle,
    ) -> (r: IntegerField)
        ensures
            r.wf(),
            r@ == (IntegerFieldView {
                value: default_value,
                default_value,
                min,
                max,
                is_required,
                style: style@,
            }),
    {
        IntegerField {
            value: FormValue::Integer(default_value),
            default_value: FormValue::Integer(default_value),
            min,
            max,
            is_required,
            style,
        }
    }

    /// The text that is shown: the digits of the value.
    pub fn get_display_value(&self) -> (r: String)
        requires
            self.wf(),
        ensures
            r@ == decimal(self@.value as nat),
    {
        let mut out = String::new();
        match &self.value {
            FormValue::Integer(i) => {
                push_decimal(&mut out, *i as u64);
                assert(Seq::<char>::empty() + decimal(*i as nat) == decimal(*i as nat));
            },
            _ => {},
        }
        out
    }

    /// Puts the default value back.
    pub fn reset_value(&mut self)
        requires
            old(self).wf(),
        ensures
            final(self).wf(),
            final(self)@ == old(self)@.reset(),
    {
        self.value = self.default_value.duplicate();
    }

    /// Takes a key.
    pub fn receive_input(&mut self, key: &KeyCode)
        requires
            old(self).wf(),
        ensures
            final(self).wf(),
            final(self)@ == old(self)@.received(*key),
    {
        match &mut self.value {
            FormValue::Integer(current_value) => {
                match key {
                    KeyCode::Char(c) => {
                        if *c >= '0' && *c <= '9' {
                            let digit: u64 = (*c as u32 - 48) as u64;
                            let shifted: u64 = *current_value as u64 * 10 + digit;
                            if shifted <= 0xffff_ffff {
                                *current_value = shifted as u32;
                            }
                        }
                    },
                    KeyCode::Backspace => {
                        *current_value = *current_value / 10;
                    },
                    _ => {},
                }
            },
            _ => {},
        }
    }
}

// ----------------------------------------------------------------------------
/// A field that takes a decimal number. What was typed is kept beside the
/// number that it writes.
#[derive(Debug)]
pub struct FloatField {
    pub value: FormValue,
    pub default_value: FormValue,
    pub display_value: String,
    pub min: Decimal,
    pub max: Decimal,
    pub is_required: bool,
    pub style: FormFieldStyle,
}

/// The model of a `FloatField`.
pub struct FloatFieldView {
    pub value: Decimal,
    pub default_value: Decimal,
    pub display_value: Seq<char>,
    pub min: Decimal,
    pub max: Decimal,
    pub is_required: bool,
    pub style: FormFieldStyleView,
}

impl FloatFieldView {
    /// What would be shown after the character `c`: what is shown, with
    /// the character appended.
    pub open spec fn candidate(self, c: char) -> Seq<char> {
        self.display_value.push(c)
    }

    /// What is shown is a number as far as it goes, not above the maximum,
    /// and the value is not above the maximum unless it is still the
    /// default.
    pub open spec fn bounded(self) -> bool {
        &&& crate::decimal::scan(self.display_value).ok
        &&& crate::decimal::scan(self.display_value).micros <= self.max.micros
        &&& self.value.micros <= self.max.micros || self.value == self.default_value
    }

    /// The text writes a number that is not above the field's maximum.
    pub open spec fn accepts(self, text: Seq<char>) -> bool {
        parsed(text) is Some && parsed(text)->0 <= self.max.micros
    }

    /// The field after a key. A digit or a point is taken where the text
    /// that results writes a number up to the maximum: then the text is shown
    /// and the number is the value; else nothing changes. Backspace takes
    /// the last character away from what is shown, and the value becomes
    /// the number that is left, or zero. Any other key does nothing.
    pub open spec fn received(self, key: KeyCode) -> FloatFieldView {
        match key {
            KeyCode::Char(c) => if (is_digit(c) || c == '.') && self.accepts(self.candidate(c)) {
                FloatFieldView {
                    display_value: self.candidate(c),
                    value: Decimal { micros: parsed(self.candidate(c))->0 as u64 },
                    ..self
                }
            } else {
                self
            },
            KeyCode::Backspace => if self.display_value.len() > 0 {
                let shown = self.display_value.drop_last();
                FloatFieldView {
                    display_value: shown,
                    value: if shown.len() > 0 && parsed(shown) is Some && parsed(shown)->0
                        <= u64::MAX {
                        Decimal { micros: parsed(shown)->0 as u64 }
                    } else {
                        Decimal::zero()
                    },
                    ..self
                }
            } else {
                self
            },
            _ => self,
        }
    }

    /// The field with its default value and nothing shown.
    pub open spec fn reset(self) -> FloatFieldView {
        FloatFieldView { value: self.default_value, display_value: Seq::empty(), ..self }
    }
}

impl View for FloatField {
    type V = FloatFieldView;

    open spec fn view(&self) -> FloatFieldView {
        FloatFieldView {
            value: self.value->Float_0,
            default_value: self.default_value->Float_0,
            display_value: self.display_value@,
            min: self.min,
            max: self.max,
            is_required: self.is_required,
            style: self.style@,
        }
    }
}

impl FloatField {
    /// Both values are decimal numbers.
    pub open spec fn wf(&self) -> bool {
        self.value is Float && self.default_value is Float
    }

    /// A decimal field that holds its default value and shows nothing.
    pub fn new(
        default_value: Decimal,
        min: Decimal,
        max: Decimal,
        is_required: bool,
        style: FormFieldStyle,
    ) -> (r: FloatField)
        ensures
            r.wf(),
            r@ == (FloatFieldView {
                value: default_value,
                default_value,
                display_value: Seq::empty(),
                min,
                max,
                is_required,
                style: style@,
            }),
    {
        FloatField {
            value: FormValue::Float(default_value),
            default_value: FormValue::Float(default_value),
            display_value: String::new(),
            min,
            max,
            is_required,
            style,
        }
    }

    /// The text that is shown: what was typed.
    pub fn get_display_value(&self) -> (r: String)
        ensures
            r@ == self@.display_value,
    {
        self.display_value.clone()
    }

    /// Puts the default value back and shows nothing.
    pub fn reset_value(&mut self)
        requires
            old(self).wf(),
        ensures
            final(self).wf(),
            final(self)@ == old(self)@.reset(),
    {
        self.value = self.default_value.duplicate();
        self.display_value = String::new();
    }

    /// Takes a key.
    pub fn receive_input(&mut self, key: &KeyCode)
        requires
            old(self).wf(),
        ensures
            final(self).wf(),
            final(self)@ == old(self)@.received(*key),
    {
        match key {
            KeyCode::Char(c) => {
                if (*c >= '0' && *c <= '9') || *c == '.' {
                    let mut new_value = self.display_value.clone();
                    push_char(&mut new_value, *c);
                    if let Some(n) = Decimal::parse(new_value.as_str()) {
                        if n.micros <= self.max.micros {
                            self.display_value = new_value;
                            self.value = FormValue::Float(n);
                        }
                    }
                }
            },
            KeyCode::Backspace => {
                if self.display_value.as_str().unicode_len() > 0 {
                    let _ = pop_char(&mut self.display_value);
                    let mut left = Decimal::zero();
                    if self.display_value.as_str().unicode_len() > 0 {
                        if let Some(n) = Decimal::parse(self.display_value.as_str()) {
                            left = n;
                        }
                    }
                    self.value = FormValue::Float(left);
                }
            },
            _ => {},
        }
    }
}

// ----------------------------------------------------------------------------
/// A field that takes a date, typed as day, month and year of this century,
/// two digits each.
#[derive(Debug)]
pub struct DateField {
    pub value: FormValue,
    pub default_value: FormValue,
    pub day: String,
    pub month: String,
    pub year: String,
    pub is_required: bool,
    pub style: FormFieldStyle,
}

/// The model of a `DateField`.
pub struct DateFieldView {
    pub value: Date,
    pub default_value: Date,
    pub day: Seq<char>,
    pub month: Seq<char>,
    pub year: Seq<char>,
    pub is_required: bool,
    pub style: FormFieldStyleView,
}

/// A text of at most two digits.
pub open spec fn short_digits(text: Seq<char>) -> bool {
    text.len() <= 2 && forall|i: int| 0 <= i < text.len() ==> is_digit(#[trigger] text[i])
}

/// The most days that a month can have in any year.
pub open spec fn longest_month(month: int) -> int {
    if month == 2 {
        29
    } else if month == 4 || month == 6 || month == 9 || month == 11 {
        30
    } else {
        31
    }
}

impl DateFieldView {
    /// The three parts are texts of at most two digits.
    pub open spec fn wf(self) -> bool {
        short_digits(self.day) && short_digits(self.month) && short_digits(self.year)
    }

    /// The field after the digit `c`. The day is filled first, then the
    /// month, then the year. A day above 31 is not taken. The second digit
    /// of the month is taken where the month is one of the twelve and can
    /// have the day. The second digit of the year is taken where the date
    /// exists in the year 2000 plus the two digits, and then the date is the
    /// value.
    pub open spec fn typed(self, c: char) -> DateFieldView {
        if self.day.len() < 2 {
            if number(self.day.push(c)) <= 31 {
                DateFieldView { day: self.day.push(c), ..self }
            } else {
                self
            }
        } else if self.month.len() < 2 {
            let month = self.month.push(c);
            if month.len() < 2 || (1 <= number(month) <= 12 && number(self.day) <= longest_month(
                number(month) as int,
            )) {
                DateFieldView { month, ..self }
            } else {
                self
            }
        } else if self.year.len() < 2 {
            let year = self.year.push(c);
            if year.len() < 2 {
                DateFieldView { year, ..self }
            } else if valid_date(
                2000 + number(year) as int,
                number(self.month) as int,
                number(self.day) as int,
            ) {
                DateFieldView {
                    year,
                    value: Date {
                        year: (2000 + number(year)) as i32,
                        month: number(self.month) as u32,
                        day: number(self.day) as u32,
                    },
                    ..self
                }
            } else {
                self
            }
        } else {
            self
        }
    }

    /// The field after backspace: the last digit of the year goes, or, where
    /// the year is empty, of the month, or, where that is empty too, of the
    /// day.
    pub open spec fn erased(self) -> DateFieldView {
        if self.year.len() > 0 {
            DateFieldView { year: self.year.drop_last(), ..self }
        } else if self.month.len() > 0 {
            DateFieldView { month: self.month.drop_last(), ..self }
        } else if self.day.len() > 0 {
            DateFieldView { day: self.day.drop_last(), ..self }
        } else {
            self
        }
    }

    /// The field after a key.
    pub open spec fn received(self, key: KeyCode) -> DateFieldView {
        match key {
            KeyCode::Char(c) => if is_digit(c) {
                self.typed(c)
            } else {
                self
            },
            KeyCode::Backspace => self.erased(),
            _ => self,
        }
    }

    /// The field with its default value, typed out in full.
    pub open spec fn reset(self) -> DateFieldView {
        DateFieldView {
            value: self.default_value,
            day: two_digits(self.default_value.day as nat),
            month: two_digits(self.default_value.month as nat),
            year: two_digits((self.default_value.year % 100) as nat),
            ..self
        }
    }

    /// What is shown: day, month and year, each filled up with underscores
    /// to two characters, with slashes between them.
    pub open spec fn display(self) -> Seq<char> {
        padded_right(self.day, 2, '_') + " / "@ + padded_right(self.month, 2, '_') + " / "@
            + padded_right(self.year, 2, '_')
    }
}

impl View for DateField {
    type V = DateFieldView;

    open spec fn view(&self) -> DateFieldView {
        DateFieldView {
            value: self.value->Date_0,
            default_value: self.default_value->Date_0,
            day: self.day@,
            month: self.month@,
            year: self.year@,
            is_required: self.is_required,
            style: self.style@,
        }
    }
}

/// The two decimal digits of a number below a hundred are digits.
pub proof fn lemma_two_digits(n: nat)
    requires
        n < 100,
    ensures
        short_digits(two_digits(n)),
        two_digits(n).len() == 2,
{
    reveal_with_fuel(decimal, 3);
    if n >= 10 {
        assert(decimal(n) == decimal(n / 10).push(crate::text::digit_char((n % 10) as int)));
    }
}

/// The number that a text of at most two digits writes.
fn number_of(text: &str) -> (r: u32)
    requires
        short_digits(text@),
    ensures
        r == number(text@),
        r <= 99,
{
    reveal_with_fuel(number, 3);
    let n = text.unicode_len();
    if n == 0 {
        0
    } else if n == 1 {
        let a = text.get_char(0);
        assert(text@.drop_last().len() == 0);
        a as u32 - 48
    } else {
        let a = text.get_char(0);
        let b = text.get_char(1);
        assert(text@.drop_last().drop_last().len() == 0);
        assert(text@.drop_last().last() == a);
        (a as u32 - 48) * 10 + (b as u32 - 48)
    }
}

/// The most days that a month can have in any year.
fn longest_month_of(month: u32) -> (r: u32)
    ensures
        r == longest_month(month as int),
{
    if month == 2 {
        29
    } else if month == 4 || month == 6 || month == 9 || month == 11 {
        30
    } else {
        31
    }
}

impl DateField {
    /// Both values are dates, the default exists in a year of four digits,
    /// and the three parts are texts of at most two digits.
    pub open spec fn wf(&self) -> bool {
        &&& self.value is Date
        &&& self.default_value is Date
        &&& self.default_value->Date_0.valid()
        &&& 1000 <= self.default_value->Date_0.year <= 9999
        &&& self@.wf()
    }

    /// A date field that holds its default value, typed out in full.
    pub fn new(default_value: Date, is_required: bool, style: FormFieldStyle) -> (r: DateField)
        requires
            default_value.valid(),
            1000 <= default_value.year <= 9999,
        ensures
            r.wf(),
            r@ == (DateFieldView {
                value: default_value,
                default_value,
                day: two_digits(default_value.day as nat),
                month: two_digits(default_value.month as nat),
                year: two_digits((default_value.year % 100) as nat),
                is_required,
                style: style@,
            }),
    {
        let mut day = String::new();
        let mut month = String::new();
        let mut year = String::new();
        push_two_digits(&mut day, default_value.day as u64);
        push_two_digits(&mut month, default_value.month as u64);
        push_two_digits(&mut year, (default_value.year % 100) as u64);
        proof {
            lemma_two_digits(default_value.day as nat);
            lemma_two_digits(default_value.month as nat);
            lemma_two_digits((default_value.year % 100) as nat);
            assert(day@ == two_digits(default_value.day as nat));
            assert(month@ == two_digits(default_value.month as nat));
            assert(year@ == two_digits((default_value.year % 100) as nat));
        }
        DateField {
            value: FormValue::Date(default_value),
            default_value: FormValue::Date(default_value),
            day,
            month,
            year,
            is_required,
            style,
        }
    }

    /// The text that is shown.
    pub fn get_display_value(&self) -> (r: String)
        ensures
            r@ == self@.display(),
    {
        let mut out = String::new();
        push_padded_right(&mut out, self.day.as_str(), 2, '_');
        push_text(&mut out, " / ");
        push_padded_right(&mut out, self.month.as_str(), 2, '_');
        push_text(&mut out, " / ");
        push_padded_right(&mut out, self.year.as_str(), 2, '_');
        assert(out@ == self@.display());
        out
    }

    /// Puts the default value back, typed out in full.
    pub fn reset_value(&mut self)
        requires
            old(self).wf(),
        ensures
            final(self).wf(),
            final(self)@ == old(self)@.reset(),
    {
        let date: Date = match &self.default_value {
            FormValue::Date(d) => *d,
            _ => Date { year: 2000, month: 1, day: 1 },
        };
        self.value = FormValue::Date(date);
        let mut day = String::new();
        let mut month = String::new();
        let mut year = String::new();
        push_two_digits(&mut day, date.day as u64);
        push_two_digits(&mut month, date.month as u64);
        push_two_digits(&mut year, (date.year % 100) as u64);
        proof {
            lemma_two_digits(date.day as nat);
            lemma_two_digits(date.month as nat);
            lemma_two_digits((date.year % 100) as nat);
            assert(day@ == two_digits(date.day as nat));
            assert(month@ == two_digits(date.month as nat));
            assert(year@ == two_digits((date.year % 100) as nat));
        }
        self.day = day;
        self.month = month;
        self.year = year;
    }

    /// Takes a key.
    pub fn receive_input(&mut self, key: &KeyCode)
        requires
            old(self).wf(),
        ensures
            final(self).wf(),
            final(self)@ == old(self)@.received(*key),
    {
        match key {
            KeyCode::Char(c) => {
                if *c >= '0' && *c <= '9' {
                    self.type_digit(*c);
                }
            },
            KeyCode::Backspace => {
                if self.year.as_str().unicode_len() > 0 {
                    let _ = pop_char(&mut self.year);
                } else if self.month.as_str().unicode_len() > 0 {
                    let _ = pop_char(&mut self.month);
                } else if self.day.as_str().unicode_len() > 0 {
                    let _ = pop_char(&mut self.day);
                }
            },
            _ => {},
        }
    }

    /// Takes a digit.
    fn type_digit(&mut self, c: char)
        requires
            old(self).wf(),
            is_digit(c),
        ensures
            final(self).wf(),
            final(self)@ == old(self)@.typed(c),
    {
        if self.day.as_str().unicode_len() < 2 {
            let mut day = self.day.clone();
            push_char(&mut day, c);
            if number_of(day.as_str()) <= 31 {
                self.day = day;
            }
        } else if self.month.as_str().unicode_len() < 2 {
            let mut month = self.month.clone();
            push_char(&mut month, c);
            if month.as_str().unicode_len() < 2 {
                self.month = month;
            } else {
                let day = number_of(self.day.as_str());
                let m = number_of(month.as_str());
                if 1 <= m && m <= 12 && day <= longest_month_of(m) {
                    self.month = month;
                }
            }
        } else if self.year.as_str().unicode_len() < 2 {
            let mut year = self.year.clone();
            push_char(&mut year, c);
            if year.as_str().unicode_len() < 2 {
                self.year = year;
            } else {
                let day = number_of(self.day.as_str());
                let month = number_of(self.month.as_str());
                let y: i32 = 2000 + number_of(year.as_str()) as i32;
                if Date::is_valid(y, month, day) {
                    self.year = year;
                    self.value = FormValue::Date(Date { year: y, month, day });
                }
            }
        }
    }
}

// ----------------------------------------------------------------------------
/// A field of a form, of one of the four kinds.
#[derive(Debug)]
pub enum FormField {
    Text(TextField),
    Integer(IntegerField),
    Float(FloatField),
    Date(DateField),
}

/// The model of a `FormField`.
pub enum FormFieldView {
    Text(TextFieldView),
    Integer(IntegerFieldView),
    Float(FloatFieldView),
    Date(DateFieldView),
}

impl View for FormField {
    type V = FormFieldView;

    open spec fn view(&self) -> FormFieldView {
        match self {
            FormField::Text(f) => FormFieldView::Text(f@),
            FormField::Integer(f) => FormFieldView::Integer(f@),
            FormField::Float(f) => FormFieldView::Float(f@),
            FormField::Date(f) => FormFieldView::Date(f@),
        }
    }
}

impl FormFieldView {
    /// The field after a key, each kind by its own rule.
    pub open spec fn received(self, key: KeyCode) -> FormFieldView {
        match self {
            FormFieldView::Text(f) => FormFieldView::Text(f.received(key)),
            FormFieldView::Integer(f) => FormFieldView::Integer(f.received(key)),
            FormFieldView::Float(f) => FormFieldView::Float(f.received(key)),
            FormFieldView::Date(f) => FormFieldView::Date(f.received(key)),
        }
    }

    /// The field with its default value.
    pub open spec fn reset(self) -> FormFieldView {
        match self {
            FormFieldView::Text(f) => FormFieldView::Text(f.reset()),
            FormFieldView::Integer(f) => FormFieldView::Integer(f.reset()),
            FormFieldView::Float(f) => FormFieldView::Float(f.reset()),
            FormFieldView::Date(f) => FormFieldView::Date(f.reset()),
        }
    }

    /// The text that the field shows.
    pub open spec fn display(self) -> Seq<char> {
        match self {
            FormFieldView::Text(f) => f.value,
            FormFieldView::Integer(f) => decimal(f.value as nat),
            FormFieldView::Float(f) => f.display_value,
            FormFieldView::Date(f) => f.display(),
        }
    }

    /// The value that the field holds.
    pub open spec fn value(self) -> FormValueView {
        match self {
            FormFieldView::Text(f) => FormValueView::Text(f.value),
            FormFieldView::Integer(f) => FormValueView::Integer(f.value),
            FormFieldView::Float(f) => FormValueView::Float(f.value),
            FormFieldView::Date(f) => FormValueView::Date(f.value),
        }
    }

    /// The value that a reset puts back.
    pub open spec fn default_value(self) -> FormValueView {
        match self {
            FormFieldView::Text(f) => FormValueView::Text(f.default_value),
            FormFieldView::Integer(f) => FormValueView::Integer(f.default_value),
            FormFieldView::Float(f) => FormValueView::Float(f.default_value),
            FormFieldView::Date(f) => FormValueView::Date(f.default_value),
        }
    }

    /// Whether the field must be filled in.
    pub open spec fn is_required(self) -> bool {
        match self {
            FormFieldView::Text(f) => f.is_required,
            FormFieldView::Integer(f) => f.is_required,
            FormFieldView::Float(f) => f.is_required,
            FormFieldView::Date(f) => f.is_required,
        }
    }

    /// How the field is drawn.
    pub open spec fn style(self) -> FormFieldStyleView {
        match self {
            FormFieldView::Text(f) => f.style,
            FormFieldView::Integer(f) => f.style,
            FormFieldView::Float(f) => f.style,
            FormFieldView::Date(f) => f.style,
        }
    }

    /// The field with another style for when it is selected.
    pub open spec fn restyled(self, new_style: CellStyle) -> FormFieldView {
        match self {
            FormFieldView::Text(f) => FormFieldView::Text(
                TextFieldView {
                    style: FormFieldStyleView { selected_style: new_style, ..f.style },
                    ..f
                },
            ),
            FormFieldView::Integer(f) => FormFieldView::Integer(
                IntegerFieldView {
                    style: FormFieldStyleView { selected_style: new_style, ..f.style },
                    ..f
                },
            ),
            FormFieldView::Float(f) => FormFieldView::Float(
                FloatFieldView {
                    style: FormFieldStyleView { selected_style: new_style, ..f.style },
                    ..f
                },
            ),
            FormFieldView::Date(f) => FormFieldView::Date(
                DateFieldView {
                    style: FormFieldStyleView { selected_style: new_style, ..f.style },
                    ..f
                },
            ),
        }
    }
}

impl FormField {
    /// The field of whichever kind is well formed.
    pub open spec fn wf(&self) -> bool {
        match self {
            FormField::Text(f) => f.wf(),
            FormField::Integer(f) => f.wf(),
            FormField::Float(f) => f.wf(),
            FormField::Date(f) => f.wf(),
        }
    }

    /// The text that the field shows.
    pub fn get_display_value(&self) -> (r: String)
        requires
            self.wf(),
        ensures
            r@ == self@.display(),
    {
        match self {
            FormField::Text(f) => f.get_display_value(),
            FormField::Integer(f) => f.get_display_value(),
            FormField::Float(f) => f.get_display_value(),
            FormField::Date(f) => f.get_display_value(),
        }
    }

    /// The value that the field holds.
    pub fn get_internal_value(&self) -> (r: &FormValue)
        requires
            self.wf(),
        ensures
            r@ == self@.value(),
    {
        match self {
            FormField::Text(f) => &f.value,
            FormField::Integer(f) => &f.value,
            FormField::Float(f) => &f.value,
            FormField::Date(f) => &f.value,
        }
    }

    /// The value that a reset puts back.
    pub fn get_default_value(&self) -> (r: &FormValue)
        requires
            self.wf(),
        ensures
            r@ == self@.default_value(),
    {
        match self {
            FormField::Text(f) => &f.default_value,
            FormField::Integer(f) => &f.default_value,
            FormField::Float(f) => &f.default_value,
            FormField::Date(f) => &f.default_value,
        }
    }

    /// Puts the default value back.
    pub fn reset_value(&mut self)
        requires
            old(self).wf(),
        ensures
            final(self).wf(),
            final(self)@ == old(self)@.reset(),
    {
        match self {
            FormField::Text(f) => f.reset_value(),
            FormField::Integer(f) => f.reset_value(),
            FormField::Float(f) => f.reset_value(),
            FormField::Date(f) => f.reset_value(),
        }
    }

    /// Whether the field must be filled in.
    pub fn is_required(&self) -> (r: bool)
        ensures
            r == self@.is_required(),
    {
        match self {
            FormField::Text(f) => f.is_required,
            FormField::Integer(f) => f.is_required,
            FormField::Float(f) => f.is_required,
            FormField::Date(f) => f.is_required,
        }
    }

    /// Takes a key.
    pub fn receive_input(&mut self, key: &KeyCode)
        requires
            old(self).wf(),
        ensures
            final(self).wf(),
            final(self)@ == old(self)@.received(*key),
    {
        match self {
            FormField::Text(f) => f.receive_input(key),
            FormField::Integer(f) => f.receive_input(key),
            FormField::Float(f) => f.receive_input(key),
            FormField::Date(f) => f.receive_input(key),
        }
    }

    /// How the field is drawn.
    pub fn get_style(&self) -> (r: &FormFieldStyle)
        ensures
            r@ == self@.style(),
    {
        match self {
            FormField::Text(f) => &f.style,
            FormField::Integer(f) => &f.style,
            FormField::Float(f) => &f.style,
            FormField::Date(f) => &f.style,
        }
    }

    /// Sets the style that the field has when it is selected.
    pub fn change_style_selected(&mut self, new_style: CellStyle)
        requires
            old(self).wf(),
        ensures
            final(self).wf(),
            final(self)@ == old(self)@.restyled(new_style),
    {
        match self {
            FormField::Text(f) => {
                f.style.selected_style = new_style;
            },
            FormField::Integer(f) => {
                f.style.selected_style = new_style;
            },
            FormField::Float(f) => {
                f.style.selected_style = new_style;
            },
            FormField::Date(f) => {
                f.style.selected_style = new_style;
            },
        }
    }
}

// ----------------------------------------------------------------------------
/// The fields of a form in their order, and the cursor that names the
/// selected one.
#[derive(Debug)]
pub struct FormState {
    pub fields: Vec<FormField>,
    pub selected_field: u32,
}

/// The model of a `FormState`.
pub struct FormStateView {
    pub fields: Seq<FormFieldView>,
    pub selected_field: u32,
}

impl FormStateView {
    /// The largest index that the cursor can take.
    pub open spec fn last_index(self) -> int {
        if self.fields.len() - 1 > u32::MAX {
            u32::MAX as int
        } else {
            self.fields.len() - 1
        }
    }

    /// The form after the cursor was moved by `amount`: it stops at the
    /// first and at the last field, and stays where there is no field.
    pub open spec fn moved(self, amount: i32) -> FormStateView {
        FormStateView {
            selected_field: bounded_step(
                self.selected_field as int,
                0,
                self.last_index(),
                amount as int,
            ) as u32,
            ..self
        }
    }

    /// The form after the selected field took a key; a form without fields
    /// stays as it is.
    pub open spec fn sent(self, key: KeyCode) -> FormStateView {
        if self.selected_field < self.fields.len() {
            FormStateView {
                fields: self.fields.update(
                    self.selected_field as int,
                    self.fields[self.selected_field as int].received(key),
                ),
                ..self
            }
        } else {
            self
        }
    }

    /// The form with every field reset and the cursor on the first field.
    pub open spec fn reset(self) -> FormStateView {
        FormStateView {
            fields: Seq::new(self.fields.len(), |i: int| self.fields[i].reset()),
            selected_field: 0,
        }
    }

    /// The form with another style for the selected field on every field.
    pub open spec fn restyled(self, new_style: CellStyle) -> FormStateView {
        FormStateView {
            fields: Seq::new(self.fields.len(), |i: int| self.fields[i].restyled(new_style)),
            ..self
        }
    }
}

impl View for FormState {
    type V = FormStateView;

    open spec fn view(&self) -> FormStateView {
        FormStateView {
            fields: Seq::new(self.fields@.len(), |i: int| self.fields@[i]@),
            selected_field: self.selected_field,
        }
    }
}

impl FormState {
    /// Every field is well formed, and the cursor names one of the fields,
    /// or is zero where there is none.
    pub open spec fn wf(&self) -> bool {
        &&& forall|i: int| 0 <= i < self.fields@.len() ==> (#[trigger] self.fields@[i]).wf()
        &&& self.selected_field == 0 || self.selected_field < self.fields@.len()
    }

    /// A form without fields.
    pub fn new() -> (r: FormState)
        ensures
            r.wf(),
            r@.fields == Seq::<FormFieldView>::empty(),
            r@.selected_field == 0,
    {
        let r = FormState { fields: Vec::new(), selected_field: 0 };
        assert(r@.fields =~= Seq::<FormFieldView>::empty());
        r
    }

    /// Appends a field.
    pub fn add_field(&mut self, new_field: FormField)
        requires
            old(self).wf(),
            new_field.wf(),
        ensures
            final(self).wf(),
            final(self)@.fields == old(self)@.fields.push(new_field@),
            final(self)@.selected_field == old(self)@.selected_field,
    {
        self.fields.push(new_field);
        assert(self@.fields =~= old(self)@.fields.push(new_field@));
    }

    /// The fields in their order.
    pub fn get_fields(&self) -> (r: &Vec<FormField>)
        ensures
            *r == self.fields,
    {
        &self.fields
    }

    /// The fields in their order, to be changed.
    pub fn get_fields_mut(&mut self) -> (r: &mut Vec<FormField>)
        ensures
            *r == old(self).fields,
            final(self).fields == *final(r),
            final(self).selected_field == old(self).selected_field,
    {
        &mut self.fields
    }

    /// The selected field.
    pub fn get_selected_field(&self) -> (r: &FormField)
        requires
            self.selected_field < self.fields@.len(),
        ensures
            *r == self.fields@[self.selected_field as int],
    {
        &self.fields[self.selected_field as usize]
    }

    /// The selected field, to be changed.
    pub fn get_selected_field_mut(&mut self) -> (r: &mut FormField)
        requires
            old(self).selected_field < old(self).fields@.len(),
        ensures
            *r == old(self).fields@[old(self).selected_field as int],
            final(self).fields@ == old(self).fields@.update(
                old(self).selected_field as int,
                *final(r),
            ),
            final(self).selected_field == old(self).selected_field,
    {
        &mut self.fields[self.selected_field as usize]
    }

    /// Resets every field and puts the cursor on the first field.
    pub fn reset_fields(&mut self)
        requires
            old(self).wf(),
        ensures
            final(self).wf(),
            final(self)@ == old(self)@.reset(),
    {
        self.selected_field = 0;
        let n = self.fields.len();
        let mut i: usize = 0;
        while i < n
            invariant
                i <= n,
                n == self.fields@.len(),
                n == old(self).fields@.len(),
                self.selected_field == 0,
                forall|k: int| 0 <= k < n ==> (#[trigger] self.fields@[k]).wf(),
                forall|k: int| 0 <= k < i ==> (#[trigger] self.fields@[k])@ == old(
                    self,
                ).fields@[k]@.reset(),
                forall|k: int| i <= k < n ==> #[trigger] self.fields@[k] == old(self).fields@[k],
            decreases n - i,
        {
            let field = &mut self.fields[i];
            field.reset_value();
            i = i + 1;
        }
        assert(self@.fields =~= old(self)@.reset().fields);
    }

    /// Moves the cursor by `amount`, stopping at the first and at the last
    /// field.
    pub fn increment_selected(&mut self, amount: i32)
        requires
            old(self).wf(),
        ensures
            final(self).wf(),
            final(self)@ == old(self)@.moved(amount),
            final(self).fields == old(self).fields,
    {
        let n = self.fields.len();
        if n > 0 {
            let upper: u32 = if n - 1 > 0xffff_ffff {
                0xffff_ffff
            } else {
                (n - 1) as u32
            };
            generic_increment(&mut self.selected_field, 0, upper, amount);
        }
    }

    /// Hands a key to the selected field.
    pub fn send_input(&mut self, key: &KeyCode)
        requires
            old(self).wf(),
        ensures
            final(self).wf(),
            final(self)@ == old(self)@.sent(*key),
    {
        if (self.selected_field as usize) < self.fields.len() {
            let field = &mut self.fields[self.selected_field as usize];
            field.receive_input(key);
            assert(self@.fields =~= old(self)@.sent(*key).fields);
        }
    }

    /// Sets the style for the selected field on every field.
    pub fn change_style_selected(&mut self, new_style: CellStyle)
        requires
            old(self).wf(),
        ensures
            final(self).wf(),
            final(self)@ == old(self)@.restyled(new_style),
    {
        let n = self.fields.len();
        let mut i: usize = 0;
        while i < n
            invariant
                i <= n,
                n == self.fields@.len(),
                n == old(self).fields@.len(),
                self.selected_field == old(self).selected_field,
                forall|k: int| 0 <= k < n ==> (#[trigger] self.fields@[k]).wf(),
                forall|k: int| 0 <= k < i ==> (#[trigger] self.fields@[k])@ == old(
                    self,
                ).fields@[k]@.restyled(new_style),
                forall|k: int| i <= k < n ==> #[trigger] self.fields@[k] == old(self).fields@[k],
            decreases n - i,
        {
            let field = &mut self.fields[i];
            field.change_style_selected(new_style);
            i = i + 1;
        }
        assert(self@.fields =~= old(self)@.restyled(new_style).fields);
    }
}

// ----------------------------------------------------------------------------
/// The widget that draws a form.
#[derive(Clone, Copy, Debug)]
pub struct Form;

/// The box of the field with index `i`: three rows high, one below the
/// other from the top of `area`.
pub open spec fn field_area(area: Rect, i: int) -> Rect {
    Rect { x: area.x, y: (area.y + 3 * i) as u16, width: area.width, height: 3 }
}

/// The box of the field with index `i` has a column at least and lies in the
/// coordinate range.
pub open spec fn field_fits(area: Rect, i: int) -> bool {
    area.width >= 1 && area.x + area.width <= u16::MAX && area.y + 3 * i + 3 <= u16::MAX
}

/// The title line of a field: the title, behind a star where the field must
/// be filled in.
pub open spec fn field_title(field: FormFieldView) -> Seq<char> {
    if field.is_required() {
        seq!['*'] + field.style().title
    } else {
        field.style().title
    }
}

/// The grid after the field with index `i` was drawn: its border, its title
/// on the top line, what it shows on the line below, and behind that the
/// cursor block where the field is selected. The selected field is drawn
/// in its selected style, every other in its unselected style. A field
/// whose box does not fit is left out.
pub open spec fn field_drawn(
    s: Surface,
    area: Rect,
    i: int,
    field: FormFieldView,
    selected: bool,
) -> Surface {
    if !field_fits(area, i) {
        s
    } else {
        let r = field_area(area, i);
        let style = field.style();
        let look = if selected {
            style.selected_style
        } else {
            style.unselected_style
        };
        let boxed = bordered(s, r, style.borders, style.border_type.line_symbols(), look);
        let titled = boxed.with_text(r.x + 1, r.y as int, field_title(field), look);
        let shown = titled.with_text(r.x + 1, r.y + 1, field.display(), look);
        if selected {
            shown.with_text(
                r.x + 1 + field.display().len(),
                r.y + 1,
                FULL_BLOCK@,
                style.selected_style,
            )
        } else {
            shown
        }
    }
}

/// The grid after the first `n` fields of a form were drawn.
pub open spec fn form_drawn(s: Surface, area: Rect, form: FormStateView, n: nat) -> Surface
    decreases n,
{
    if n == 0 {
        s
    } else {
        field_drawn(
            form_drawn(s, area, form, (n - 1) as nat),
            area,
            n - 1,
            form.fields[n - 1],
            n - 1 == form.selected_field,
        )
    }
}

impl Form {
    /// The widget.
    pub fn new() -> (r: Form) {
        Form {  }
    }

    /// Draws one field of a form.
    fn render_field(
        area: Rect,
        buf: &mut tui::buffer::Buffer,
        i: usize,
        field: &FormField,
        selected: bool,
    )
        requires
            surface(*old(buf)).wf(),
            field.wf(),
        ensures
            surface(*final(buf)) == field_drawn(surface(*old(buf)), area, i as int, field@, selected),
            surface(*final(buf)).wf(),
    {
        if area.width < 1 || area.x as u32 + area.width as u32 > 0xffff || i > 0xffff || area.y
            as u32 + 3 * (i as u32) + 3 > 0xffff {
            return ;
        }
        let r = Rect { x: area.x, y: area.y + 3 * (i as u16), width: area.width, height: 3 };
        let style = field.get_style();
        let look = if selected {
            style.selected_style
        } else {
            style.unselected_style
        };
        draw_rect_borders(buf, r, style.borders, style.border_type, look);
        let value = field.get_display_value();
        let mut title = String::new();
        if field.is_required() {
            push_char(&mut title, '*');
        }
        push_text(&mut title, style.title.as_str());
        assert(title@ == field_title(field@)) by {
            assert(Seq::<char>::empty().push('*') == seq!['*']);
            assert(Seq::<char>::empty() + style.title@ == style.title@);
        }
        draw_text(buf, r.x + 1, r.y, title.as_str(), look);
        draw_text(buf, r.x + 1, r.y + 1, value.as_str(), look);
        if selected {
            let len = value.as_str().unicode_len();
            if len <= 0xffff && r.x as u32 + 1 + len as u32 <= 0xffff {
                draw_text(buf, r.x + 1 + len as u16, r.y + 1, FULL_BLOCK, style.selected_style);
            }
        }
    }

    /// Draws the fields of a form one below the other from the top of
    /// `area`, each in a bordered box of three rows.
    pub fn render(self, area: Rect, buf: &mut tui::buffer::Buffer, state: &mut FormState)
        requires
            surface(*old(buf)).wf(),
            old(state).wf(),
        ensures
            surface(*final(buf)) == form_drawn(
                surface(*old(buf)),
                area,
                old(state)@,
                old(state)@.fields.len(),
            ),
            surface(*final(buf)).wf(),
            *final(state) == *old(state),
    {
        let n = state.fields.len();
        let mut i: usize = 0;
        while i < n
            invariant
                i <= n,
                n == state.fields@.len(),
                *state == *old(state),
                state.wf(),
                surface(*buf).wf(),
                surface(*buf) == form_drawn(surface(*old(buf)), area, state@, i as nat),
            decreases n - i,
        {
            Self::render_field(
                area,
                buf,
                i,
                &state.fields[i],
                i == state.selected_field as usize,
            );
            i = i + 1;
        }
    }
}

/// The cursor of a form with fields names one of them after it was moved by
/// whatever amount, and stays at the first field when it is moved upwards
/// from there.
pub proof fn law_form_cursor_bounded(form: FormStateView, amount: i32)
    requires
        form.fields.len() > 0,
    ensures
        form.moved(amount).selected_field < form.fields.len(),
        form.moved(amount).fields == form.fields,
        form.selected_field == 0 && amount < 0 ==> form.moved(amount).selected_field == 0,
        form.selected_field == form.last_index() && amount > 0 ==> form.moved(
            amount,
        ).selected_field == form.selected_field,
{
}

/// A digit or a point that the decimal field does not take changes nothing:
/// where what is shown with the key appended is no number, or a number
/// above the maximum, the field stays as it is.
pub proof fn law_rejected_key_changes_nothing(field: FloatFieldView, c: char)
    requires
        is_digit(c) || c == '.',
        parsed(field.display_value.push(c)) is None || parsed(field.display_value.push(c))->0
            > field.max.micros,
    ensures
        field.received(KeyCode::Char(c)) == field,
{
}

/// A key that the decimal field takes is appended to what is shown, and the
/// value is the number that is shown then.
pub proof fn law_taken_key_is_appended(field: FloatFieldView, c: char)
    requires
        is_digit(c) || c == '.',
        parsed(field.display_value.push(c)) is Some,
        parsed(field.display_value.push(c))->0 <= field.max.micros,
        field.max.micros <= u64::MAX,
    ensures
        field.received(KeyCode::Char(c)).display_value == field.display_value.push(c),
        field.received(KeyCode::Char(c)).value.micros == parsed(field.display_value.push(c))->0,
{
}

/// Whatever keys a decimal field takes, its value is never above the
/// maximum, unless it is still the default.
pub proof fn law_float_field_stays_bounded(field: FloatFieldView, key: KeyCode)
    requires
        field.bounded(),
    ensures
        field.received(key).bounded(),
{
    match key {
        KeyCode::Backspace => {
            if field.display_value.len() > 0 {
                crate::decimal::lemma_scan_grows(
                    field.display_value,
                    field.display_value.len() - 1,
                );
                assert(field.display_value.take(field.display_value.len() - 1)
                    == field.display_value.drop_last());
            }
        },
        _ => {},
    }
}

/// A new decimal field and a reset one are bounded.
pub proof fn law_float_field_starts_bounded(field: FloatFieldView)
    ensures
        field.reset().bounded(),
{
    assert(field.reset().display_value.len() == 0);
}

/// The cursor of a form with fields is moved by the amount and held between
/// the first and the last field; the fields stay as they are. This holds of
/// forms with as many fields as the cursor can number.
pub proof fn law_form_cursor_is_sum_held(form: FormStateView, amount: i32)
    requires
        1 <= form.fields.len() <= 0x1_0000_0000,
    ensures
        form.moved(amount) == (FormStateView {
            selected_field: crate::util::held(
                form.selected_field + amount,
                0,
                form.fields.len() - 1,
            ) as u32,
            ..form
        }),
{
}

} // verus!
