//! Decimal numbers in millionths: the amounts, percentages and weights that
//! the forms take and the trackers show.

use crate::text::{decimal, digit_of, push_char, push_decimal, push_text, two_digits};
use vstd::prelude::*;
use vstd::string::StrSliceExecFns;

verus! {

/// How many millionths make one.
pub const SCALE: u64 = 1_000_000;

/// A number that is not negative, held in millionths.
#[derive(Clone, Copy, Debug, PartialEq, Eq, Structural)]
pub struct Decimal {
    pub micros: u64,
}

/// The character is one of the ten digits.
pub open spec fn is_digit(c: char) -> bool {
    '0' <= c && c <= '9'
}

/// The number that a digit stands for.
pub open spec fn digit_value(c: char) -> nat {
    (c as int - 48) as nat
}

/// Ten to the power of `n`.
pub open spec fn pow10(n: nat) -> nat
    decreases n,
{
    if n == 0 {
        1
    } else {
        10 * pow10((n - 1) as nat)
    }
}

/// What is known of a text once it was read from the left: whether it can
/// still be a number, whether the decimal point was seen, how many digits
/// there were and how many of them behind the point, and the value so far
/// in millionths.
pub struct Scan {
    pub ok: bool,
    pub dot: bool,
    pub digits: nat,
    pub places: nat,
    pub micros: nat,
}

/// Reading one more character. A digit in front of the point multiplies what
/// was read by ten and adds its own worth; a digit behind the point adds its
/// worth at its place, down to the sixth place, and is dropped beyond; one
/// point is taken; anything else spoils the number.
pub open spec fn scan_step(s: Scan, c: char) -> Scan {
    if !s.ok {
        s
    } else if c == '.' {
        if s.dot {
            Scan { ok: false, ..s }
        } else {
            Scan { dot: true, ..s }
        }
    } else if is_digit(c) {
        if s.dot {
            Scan {
                digits: s.digits + 1,
                places: s.places + 1,
                micros: if s.places < 6 {
                    s.micros + digit_value(c) * pow10((5 - s.places) as nat)
                } else {
                    s.micros
                },
                ..s
            }
        } else {
            Scan {
                digits: s.digits + 1,
                micros: s.micros * 10 + digit_value(c) * 1_000_000,
                ..s
            }
        }
    } else {
        Scan { ok: false, ..s }
    }
}

/// Reading a whole text from the left.
pub open spec fn scan(text: Seq<char>) -> Scan
    decreases text.len(),
{
    if text.len() == 0 {
        Scan { ok: true, dot: false, digits: 0, places: 0, micros: 0 }
    } else {
        scan_step(scan(text.drop_last()), text.last())
    }
}

/// The number that `text` writes, in millionths: digits with at most one
/// decimal point among them and at least one digit in all. Places beyond
/// the sixth behind the point are dropped.
pub open spec fn parsed(text: Seq<char>) -> Option<nat> {
    let s = scan(text);
    if s.ok && s.digits > 0 {
        Some(s.micros)
    } else {
        None
    }
}

/// Reading on never makes a spoilt text good again, nor a value smaller.
pub proof fn lemma_scan_grows(text: Seq<char>, k: int)
    requires
        0 <= k <= text.len(),
    ensures
        scan(text).ok ==> scan(text.take(k)).ok,
        scan(text).ok ==> scan(text.take(k)).micros <= scan(text).micros,
    decreases text.len() - k,
{
    if k == text.len() {
        assert(text.take(k) == text);
    } else {
        lemma_scan_grows(text.drop_last(), k);
        assert(text.drop_last().take(k) == text.take(k));
    }
}

impl Decimal {
    /// The number zero.
    pub open spec fn spec_zero() -> Decimal {
        Decimal { micros: 0 }
    }

    /// The number zero.
    #[verifier::when_used_as_spec(spec_zero)]
    pub fn zero() -> (r: Decimal)
        ensures
            r == Self::spec_zero(),
    {
        Decimal { micros: 0 }
    }

    pub open spec fn spec_from_units(units: u32) -> Decimal {
        Decimal { micros: (units * 1_000_000) as u64 }
    }

    /// The whole number `units`.
    #[verifier::when_used_as_spec(spec_from_units)]
    pub fn from_units(units: u32) -> (r: Decimal)
        ensures
            r == Self::spec_from_units(units),
            r.micros == units * 1_000_000,
    {
        Decimal { micros: units as u64 * 1_000_000 }
    }

    /// The whole part.
    pub open spec fn spec_trunc(self) -> u64 {
        self.micros / 1_000_000
    }

    /// The whole part.
    #[verifier::when_used_as_spec(spec_trunc)]
    pub fn trunc(self) -> (r: u64)
        ensures
            r == self.spec_trunc(),
    {
        self.micros / 1_000_000
    }

    /// The part behind the point, in hundredths, rounded to the nearest and
    /// upwards from the half; a hundred where the part rounds up to one.
    pub open spec fn spec_hundredths(self) -> u64 {
        ((self.micros % 1_000_000 + 5_000) / 10_000) as u64
    }

    /// The part behind the point, in rounded hundredths.
    #[verifier::when_used_as_spec(spec_hundredths)]
    pub fn hundredths(self) -> (r: u64)
        ensures
            r == self.spec_hundredths(),
            r <= 100,
    {
        (self.micros % 1_000_000 + 5_000) / 10_000
    }

    /// Reads a number from `text`. There is a result where the text writes a
    /// number that fits the type.
    pub fn parse(text: &str) -> (r: Option<Decimal>)
        ensures
            r is Some <==> parsed(text@) is Some && parsed(text@)->0 <= u64::MAX,
            r matches Some(d) ==> d.micros == parsed(text@)->0,
    {
        let n = text.unicode_len();
        let mut dot = false;
        let mut digits: usize = 0;
        let mut places: usize = 0;
        let mut micros: u64 = 0;
        let mut i: usize = 0;
        while i < n
            invariant
                i <= n,
                n == text@.len(),
                scan(text@.take(i as int)) == (Scan {
                    ok: true,
                    dot,
                    digits: digits as nat,
                    places: places as nat,
                    micros: micros as nat,
                }),
                digits <= i,
                places <= i,
            decreases n - i,
        {
            let c = text.get_char(i);
            proof {
                assert(text@.take(i + 1).drop_last() == text@.take(i as int));
                assert(text@.take(i + 1).last() == c);
                lemma_scan_grows(text@, i + 1);
            }
            if c == '.' {
                if dot {
                    return None;
                }
                dot = true;
            } else if c >= '0' && c <= '9' {
                let d: u64 = (c as u32 - 48) as u64;
                if dot {
                    if places < 6 {
                        let unit = pow10_exec(5 - places as u32);
                        assert(d * unit <= 9 * 1_000_000) by (nonlinear_arith)
                            requires
                                d <= 9,
                                unit <= 1_000_000,
                        ;
                        let worth = d * unit;
                        if micros > u64::MAX - worth {
                            return None;
                        }
                        micros = micros + worth;
                    }
                    places = places + 1;
                } else {
                    if micros > (u64::MAX - d * 1_000_000) / 10 {
                        return None;
                    }
                    micros = micros * 10 + d * 1_000_000;
                }
                digits = digits + 1;
            } else {
                return None;
            }
            i = i + 1;
        }
        assert(text@.take(n as int) == text@);
        if digits > 0 {
            Some(Decimal { micros })
        } else {
            None
        }
    }

    /// The text of a number: its whole part, and behind a point the places
    /// down to the last that is not zero, if there is any.
    pub open spec fn text(self) -> Seq<char> {
        decimal((self.micros / 1_000_000) as nat) + places_text(
            (self.micros % 1_000_000) as nat,
            6,
        )
    }

    /// The text of a number with two places behind the point, rounded to
    /// the nearest hundredth and upwards from the half.
    pub open spec fn text_fixed2(self) -> Seq<char> {
        let cents = (self.micros + 5_000) / 10_000;
        decimal((cents / 100) as nat) + seq!['.'] + two_digits((cents % 100) as nat)
    }

    /// Appends the number as `text` writes it.
    pub fn push_text(self, out: &mut String)
        ensures
            final(out)@ == old(out)@ + self.text(),
    {
        proof {
            reveal_with_fuel(pow10, 8);
        }
        push_decimal(out, self.micros / 1_000_000);
        push_places(out, (self.micros % 1_000_000) as u32, 6);
        assert(old(out)@ + self.text() == old(out)@ + decimal((self.micros / 1_000_000) as nat)
            + places_text((self.micros % 1_000_000) as nat, 6));
    }

    /// Appends the number with two places behind the point.
    pub fn push_fixed2(self, out: &mut String)
        ensures
            final(out)@ == old(out)@ + self.text_fixed2(),
    {
        let cents: u64 = (self.micros / 10_000) + (self.micros % 10_000 + 5_000) / 10_000;
        assert(cents == (self.micros + 5_000) / 10_000);
        push_decimal(out, cents / 100);
        push_char(out, '.');
        crate::text::push_two_digits(out, cents % 100);
        assert(old(out)@ + self.text_fixed2() == (old(out)@ + decimal((cents / 100) as nat)).push(
            '.',
        ) + two_digits((cents % 100) as nat));
    }
}

/// Ten to the power of `n`, for the six places.
pub fn pow10_exec(n: u32) -> (r: u64)
    requires
        n <= 6,
    ensures
        r == pow10(n as nat),
        r <= 1_000_000,
{
    reveal_with_fuel(pow10, 8);
    if n == 0 {
        1
    } else if n == 1 {
        10
    } else if n == 2 {
        100
    } else if n == 3 {
        1_000
    } else if n == 4 {
        10_000
    } else if n == 5 {
        100_000
    } else {
        1_000_000
    }
}

/// The places behind the point of a part `rest` that is written in `width`
/// digits: nothing where the part is zero, else the point and the digits
/// down to the last that is not zero.
pub open spec fn places_text(rest: nat, width: nat) -> Seq<char>
    decreases width,
{
    if rest == 0 || width == 0 {
        Seq::empty()
    } else {
        seq!['.'] + places_digits(rest, width)
    }
}

/// The digits of `rest`, written in `width` digits, without the zeros at the
/// end.
pub open spec fn places_digits(rest: nat, width: nat) -> Seq<char>
    decreases width,
{
    if rest == 0 || width == 0 {
        Seq::empty()
    } else {
        seq![crate::text::digit_char((rest / pow10((width - 1) as nat)) as int % 10)]
            + places_digits(rest % pow10((width - 1) as nat), (width - 1) as nat)
    }
}

/// Appends the digits of `rest` as `places_digits` writes them.
fn push_places_digits(out: &mut String, rest: u32, width: u32)
    requires
        width <= 6,
        rest < pow10(width as nat),
    ensures
        final(out)@ == old(out)@ + places_digits(rest as nat, width as nat),
    decreases width,
{
    if rest == 0 || width == 0 {
        assert(old(out)@ + Seq::<char>::empty() == old(out)@);
    } else {
        let unit = pow10_exec(width - 1) as u32;
        assert(pow10(width as nat) == 10 * pow10((width - 1) as nat));
        assert(rest / unit < 10) by (nonlinear_arith)
            requires
                rest < 10 * unit,
                unit > 0,
        ;
        let d = (rest / unit) as u8;
        push_char(out, digit_of(d));
        push_places_digits(out, rest % unit, width - 1);
        assert(old(out)@ + places_digits(rest as nat, width as nat) == old(out)@.push(
            crate::text::digit_char(d as int),
        ) + places_digits((rest % unit) as nat, (width - 1) as nat));
    }
}

/// Appends the places behind the point as `places_text` writes them.
fn push_places(out: &mut String, rest: u32, width: u32)
    requires
        width <= 6,
        rest < pow10(width as nat),
    ensures
        final(out)@ == old(out)@ + places_text(rest as nat, width as nat),
{
    if rest == 0 || width == 0 {
        assert(old(out)@ + Seq::<char>::empty() == old(out)@);
    } else {
        push_char(out, '.');
        push_places_digits(out, rest, width);
        assert(old(out)@ + (seq!['.'] + places_digits(rest as nat, width as nat)) == old(
            out,
        )@.push('.') + places_digits(rest as nat, width as nat));
    }
}

} // verus!
