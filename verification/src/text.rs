//! Building the texts that the widgets print: digits, padding and centring.

use vstd::prelude::*;
use vstd::string::StrSliceExecFns;

verus! {

/// `String::push`: the character is appended.
#[verifier::external_body]
pub(crate) fn push_char(s: &mut String, c: char)
    ensures
        final(s)@ == old(s)@.push(c),
{
    s.push(c);
}

/// `String::pop`: the last character is removed and returned, or nothing
/// where the text is empty.
#[verifier::external_body]
pub(crate) fn pop_char(s: &mut String) -> (r: Option<char>)
    ensures
        old(s)@.len() == 0 ==> r is None && final(s)@ == old(s)@,
        old(s)@.len() > 0 ==> r == Some(old(s)@.last()) && final(s)@ == old(s)@.drop_last(),
{
    s.pop()
}

/// Appends `more` to `s`.
pub fn push_text(s: &mut String, more: &str)
    ensures
        final(s)@ == old(s)@ + more@,
{
    let n = more.unicode_len();
    let mut i: usize = 0;
    while i < n
        invariant
            i <= n,
            n == more@.len(),
            s@ == old(s)@ + more@.subrange(0, i as int),
        decreases n - i,
    {
        let c = more.get_char(i);
        push_char(s, c);
        assert(more@.subrange(0, i + 1) == more@.subrange(0, i as int).push(c));
        i = i + 1;
    }
    assert(more@.subrange(0, n as int) == more@);
}

/// Appends `count` copies of `c` to `s`.
pub fn push_repeat(s: &mut String, c: char, count: usize)
    ensures
        final(s)@ == old(s)@ + Seq::new(count as nat, |i: int| c),
{
    let mut i: usize = 0;
    while i < count
        invariant
            i <= count,
            s@ == old(s)@ + Seq::new(i as nat, |k: int| c),
        decreases count - i,
    {
        push_char(s, c);
        assert(Seq::new((i + 1) as nat, |k: int| c) == Seq::new(i as nat, |k: int| c).push(c));
        i = i + 1;
    }
}

/// The character of a digit.
pub open spec fn digit_char(d: int) -> char {
    (d + 48) as char
}

/// The decimal digits of `n`, most significant first, with no leading zero
/// but for zero itself.
pub open spec fn decimal(n: nat) -> Seq<char>
    decreases n,
{
    if n < 10 {
        seq![digit_char(n as int)]
    } else {
        decimal(n / 10).push(digit_char((n % 10) as int))
    }
}

/// The character of the digit `d`.
pub fn digit_of(d: u8) -> (c: char)
    requires
        d < 10,
    ensures
        c == digit_char(d as int),
{
    (d + 48) as char
}

/// Appends the decimal digits of `n` to `s`.
pub fn push_decimal(s: &mut String, n: u64)
    ensures
        final(s)@ == old(s)@ + decimal(n as nat),
    decreases n,
{
    if n >= 10 {
        push_decimal(s, n / 10);
    }
    push_char(s, digit_of((n % 10) as u8));
    proof {
        if n >= 10 {
            assert(old(s)@ + decimal(n as nat) == (old(s)@ + decimal((n / 10) as nat)).push(
                digit_char((n % 10) as int),
            ));
        } else {
            assert(old(s)@ + decimal(n as nat) == old(s)@.push(digit_char(n as int)));
        }
    }
}

/// The decimal digits of `n`, with a zero in front where there is one digit
/// only.
pub open spec fn two_digits(n: nat) -> Seq<char> {
    if n < 10 {
        seq!['0'] + decimal(n)
    } else {
        decimal(n)
    }
}

/// Appends `n` in at least two digits to `s`.
pub fn push_two_digits(s: &mut String, n: u64)
    ensures
        final(s)@ == old(s)@ + two_digits(n as nat),
{
    if n < 10 {
        push_char(s, '0');
        push_decimal(s, n);
        assert(old(s)@ + (seq!['0'] + decimal(n as nat)) == old(s)@.push('0') + decimal(n as nat));
    } else {
        push_decimal(s, n);
    }
}

/// `text` set in the middle of `width` columns and filled up with `fill`;
/// an odd column left over stands on the right. A text that is as long as
/// the width, or longer, stays as it is.
pub open spec fn centered_text(text: Seq<char>, width: nat, fill: char) -> Seq<char> {
    if text.len() >= width {
        text
    } else {
        let left = (width - text.len()) / 2;
        let right = width - text.len() - left;
        Seq::new(left as nat, |i: int| fill) + text + Seq::new(right as nat, |i: int| fill)
    }
}

/// Centres `text` in `width` columns, filling with `fill`.
pub fn center(text: &str, width: usize, fill: char) -> (r: String)
    ensures
        r@ == centered_text(text@, width as nat, fill),
{
    let len = text.unicode_len();
    let mut out = String::new();
    if len >= width {
        push_text(&mut out, text);
        assert(Seq::<char>::empty() + text@ == text@);
    } else {
        let left = (width - len) / 2;
        let right = width - len - left;
        push_repeat(&mut out, fill, left);
        push_text(&mut out, text);
        push_repeat(&mut out, fill, right);
        assert(Seq::<char>::empty() + Seq::new(left as nat, |i: int| fill) == Seq::new(
            left as nat,
            |i: int| fill,
        ));
    }
    out
}

/// `text` filled up on the right with `fill` to `width` characters.
pub open spec fn padded_right(text: Seq<char>, width: nat, fill: char) -> Seq<char> {
    if text.len() >= width {
        text
    } else {
        text + Seq::new((width - text.len()) as nat, |i: int| fill)
    }
}

/// Appends `text`, filled up on the right with `fill` to `width` characters.
pub fn push_padded_right(s: &mut String, text: &str, width: usize, fill: char)
    ensures
        final(s)@ == old(s)@ + padded_right(text@, width as nat, fill),
{
    let len = text.unicode_len();
    push_text(s, text);
    if len < width {
        push_repeat(s, fill, width - len);
        assert(old(s)@ + (text@ + Seq::new((width - len) as nat, |i: int| fill)) == old(s)@
            + text@ + Seq::new((width - len) as nat, |i: int| fill));
    }
}

/// The text of a whole number with its sign.
pub open spec fn int_text(n: int) -> Seq<char> {
    if n < 0 {
        seq!['-'] + decimal((-n) as nat)
    } else {
        decimal(n as nat)
    }
}

/// Appends a whole number with its sign.
pub fn push_int(s: &mut String, n: i64)
    ensures
        final(s)@ == old(s)@ + int_text(n as int),
{
    if n < 0 {
        push_char(s, '-');
        push_decimal(s, (-(n as i128)) as u64);
        assert(old(s)@ + (seq!['-'] + decimal((-n) as nat)) == old(s)@.push('-') + decimal(
            (-n) as nat,
        ));
    } else {
        push_decimal(s, n as u64);
    }
}

/// The number that a text of digits writes.
pub open spec fn number(text: Seq<char>) -> nat
    decreases text.len(),
{
    if text.len() == 0 {
        0
    } else {
        number(text.drop_last()) * 10 + (text.last() as int - 48) as nat
    }
}

/// Every character of the text is a digit.
pub open spec fn all_digits(text: Seq<char>) -> bool {
    forall|i: int| 0 <= i < text.len() ==> '0' <= #[trigger] text[i] && text[i] <= '9'
}

/// The number that the first characters of a text of digits write is not
/// above the number that the whole text writes.
pub proof fn lemma_number_grows(text: Seq<char>, k: int)
    requires
        all_digits(text),
        0 <= k <= text.len(),
    ensures
        number(text.take(k)) <= number(text),
    decreases text.len() - k,
{
    if k == text.len() {
        assert(text.take(k) == text);
    } else {
        let rest = text.drop_last();
        assert(all_digits(rest)) by {
            assert forall|i: int| 0 <= i < rest.len() implies '0' <= #[trigger] rest[i] && rest[i]
                <= '9' by {
                assert(rest[i] == text[i]);
            }
        }
        lemma_number_grows(rest, k);
        assert(rest.take(k) == text.take(k));
        assert('0' <= text[text.len() - 1]);
    }
}

} // verus!
