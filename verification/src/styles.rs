//! The colours of the theme and the styles that the widgets are drawn in.

use crate::surface::{CellStyle, Color};
use vstd::prelude::*;
use vstd::string::StrSliceExecFns;

verus! {

/// The colours of the theme.
#[derive(Clone, Copy, Debug, PartialEq, Eq, Structural)]
pub struct ColorData {
    pub main: Color,
    pub accent: Color,
    pub background: Color,
}

/// The styles of the dashboard, by what they are used for.
#[derive(Clone, Copy, Debug, PartialEq, Eq, Structural)]
pub enum AppStyles {
    Main,
    Accent,
    Backgroud,
    InvertedMain,
    ProgressBar,
    CalendarCurDay,
    CalendarSelected,
    CalendarDeselected,
    TitleText,
    TitleTextDeactivated,
    ButtonSelected,
    ButtonDeselected,
}

/// The worth of a hexadecimal digit, in either case, or nothing for any
/// other character.
pub open spec fn hex_value(c: char) -> Option<int> {
    if '0' <= c && c <= '9' {
        Some(c as int - 48)
    } else if 'a' <= c && c <= 'f' {
        Some(c as int - 87)
    } else if 'A' <= c && c <= 'F' {
        Some(c as int - 55)
    } else {
        None
    }
}

/// A colour text is a mark, such as `#`, and then hexadecimal digits, six of
/// them at least.
pub open spec fn is_hex_color(text: Seq<char>) -> bool {
    &&& text.len() >= 7
    &&& forall|i: int| 1 <= i < text.len() ==> hex_value(#[trigger] text[i]) is Some
}

/// The byte that two hexadecimal digits write.
pub open spec fn hex_pair(high: char, low: char) -> u8 {
    (hex_value(high)->0 * 16 + hex_value(low)->0) as u8
}

/// The colour that a colour text writes: red, green and blue, two digits
/// each.
pub open spec fn hex_color(text: Seq<char>) -> Color {
    Color::Rgb(hex_pair(text[1], text[2]), hex_pair(text[3], text[4]), hex_pair(text[5], text[6]))
}

/// The main colour where the theme names none.
pub open spec fn default_main() -> Color {
    Color::Rgb(0x00, 0xff, 0x00)
}

/// The accent colour where the theme names none.
pub open spec fn default_accent() -> Color {
    Color::Rgb(0x00, 0x5f, 0x00)
}

/// The worth of a hexadecimal digit.
fn hex_digit(c: char) -> (r: Option<u8>)
    ensures
        r is Some <==> hex_value(c) is Some,
        r matches Some(v) ==> v == hex_value(c)->0 && v < 16,
{
    if c >= '0' && c <= '9' {
        Some((c as u32 - 48) as u8)
    } else if c >= 'a' && c <= 'f' {
        Some((c as u32 - 87) as u8)
    } else if c >= 'A' && c <= 'F' {
        Some((c as u32 - 55) as u8)
    } else {
        None
    }
}

impl ColorData {
    /// The colour that `h` writes, or nothing where it is no colour text.
    pub fn hex_to_color(h: &str) -> (r: Option<Color>)
        ensures
            r is Some <==> is_hex_color(h@),
            r matches Some(c) ==> c == hex_color(h@),
    {
        let n = h.unicode_len();
        if n < 7 {
            return None;
        }
        let mut digits: Vec<u8> = Vec::new();
        let mut i: usize = 1;
        while i < n
            invariant
                1 <= i <= n,
                n == h@.len(),
                digits@.len() == i - 1,
                forall|k: int| 1 <= k < i ==> hex_value(#[trigger] h@[k]) == Some(digits@[k - 1] as int),
                forall|k: int| 0 <= k < digits@.len() ==> #[trigger] digits@[k] < 16,
            decreases n - i,
        {
            match hex_digit(h.get_char(i)) {
                Some(v) => {
                    digits.push(v);
                },
                None => {
                    return None;
                },
            }
            i = i + 1;
        }
        Some(
            Color::Rgb(
                digits[0] * 16 + digits[1],
                digits[2] * 16 + digits[3],
                digits[4] * 16 + digits[5],
            ),
        )
    }

    /// The theme of the colours that the configuration names. A colour that
    /// is missing or is no colour text falls back to its default; the
    /// background is black.
    pub fn new(main: Option<&str>, accent: Option<&str>) -> (r: ColorData)
        ensures
            r.main == (match main {
                Some(h) if is_hex_color(h@) => hex_color(h@),
                _ => default_main(),
            }),
            r.accent == (match accent {
                Some(h) if is_hex_color(h@) => hex_color(h@),
                _ => default_accent(),
            }),
            r.background == Color::Black,
    {
        let main_color = match main {
            Some(h) => match Self::hex_to_color(h) {
                Some(c) => c,
                None => Color::Rgb(0x00, 0xff, 0x00),
            },
            None => Color::Rgb(0x00, 0xff, 0x00),
        };
        let accent_color = match accent {
            Some(h) => match Self::hex_to_color(h) {
                Some(c) => c,
                None => Color::Rgb(0x00, 0x5f, 0x00),
            },
            None => Color::Rgb(0x00, 0x5f, 0x00),
        };
        ColorData { main: main_color, accent: accent_color, background: Color::Black }
    }
}

impl AppStyles {
    /// The style in the colours of a theme.
    pub open spec fn spec_get(self, colors: ColorData) -> CellStyle {
        match self {
            AppStyles::Main => CellStyle::plain().fg(colors.main),
            AppStyles::Accent => CellStyle::plain().fg(colors.accent),
            AppStyles::Backgroud => CellStyle::plain().fg(colors.background),
            AppStyles::InvertedMain => CellStyle::plain().fg(colors.background).bg(colors.main),
            AppStyles::ProgressBar => CellStyle::plain().fg(colors.main).bg(colors.background),
            AppStyles::CalendarCurDay => CellStyle::plain().fg(colors.accent),
            AppStyles::CalendarSelected => CellStyle::plain().fg(colors.main),
            AppStyles::CalendarDeselected => CellStyle::plain().fg(colors.accent),
            AppStyles::TitleText => CellStyle::plain().fg(colors.main).bold(),
            AppStyles::TitleTextDeactivated => CellStyle::plain().fg(colors.accent).bold(),
            AppStyles::ButtonDeselected => CellStyle::plain().bg(colors.accent).fg(colors.accent),
            AppStyles::ButtonSelected => CellStyle::plain().bg(colors.main).fg(colors.main),
        }
    }

    /// The style in the colours of a theme.
    #[verifier::when_used_as_spec(spec_get)]
    pub fn get(self, colors: ColorData) -> (r: CellStyle)
        ensures
            r == self.spec_get(colors),
    {
        match self {
            AppStyles::Main => CellStyle::plain().fg(colors.main),
            AppStyles::Accent => CellStyle::plain().fg(colors.accent),
            AppStyles::Backgroud => CellStyle::plain().fg(colors.background),
            AppStyles::InvertedMain => CellStyle::plain().fg(colors.background).bg(colors.main),
            AppStyles::ProgressBar => CellStyle::plain().fg(colors.main).bg(colors.background),
            AppStyles::CalendarCurDay => CellStyle::plain().fg(colors.accent),
            AppStyles::CalendarSelected => CellStyle::plain().fg(colors.main),
            AppStyles::CalendarDeselected => CellStyle::plain().fg(colors.accent),
            AppStyles::TitleText => CellStyle::plain().fg(colors.main).bold(),
            AppStyles::TitleTextDeactivated => CellStyle::plain().fg(colors.accent).bold(),
            AppStyles::ButtonDeselected => CellStyle::plain().bg(colors.accent).fg(colors.accent),
            AppStyles::ButtonSelected => CellStyle::plain().bg(colors.main).fg(colors.main),
        }
    }
}

} // verus!
