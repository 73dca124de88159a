//! Small helpers on strings.

use vstd::prelude::*;
use vstd::string::{StrSliceExecFns, StringExecFns};

verus! {

/// Whether `c` is white space in the sense of `char::is_whitespace`.
pub uninterp spec fn is_whitespace(c: char) -> bool;

/// Calls `char::is_whitespace`; the contract only gives the answer its name.
#[verifier::external_body]
fn char_is_whitespace(c: char) -> (b: bool)
    ensures
        b == is_whitespace(c),
{
    c.is_whitespace()
}

/// A text is blank when it holds nothing but white space: trimming it
/// leaves the empty text.
pub open spec fn is_blank(s: Seq<char>) -> bool {
    forall|i: int| 0 <= i < s.len() ==> is_whitespace(#[trigger] s[i])
}

/// Whether `s` is empty or all white space.
pub fn blank(s: &str) -> (b: bool)
    ensures
        b == is_blank(s@),
{
    for c in it: s.chars()
        invariant
            it.seq() == s@,
            forall|i: int| 0 <= i < it.index() ==> is_whitespace(#[trigger] s@[i]),
    {
        if !char_is_whitespace(c) {
            assert(!is_whitespace(s@[it.index() as int]));
            return false;
        }
    }
    true
}

/// The character that writes a digit.
pub open spec fn digit_char(d: nat) -> char {
    if d == 0 {
        '0'
    } else if d == 1 {
        '1'
    } else if d == 2 {
        '2'
    } else if d == 3 {
        '3'
    } else if d == 4 {
        '4'
    } else if d == 5 {
        '5'
    } else if d == 6 {
        '6'
    } else if d == 7 {
        '7'
    } else if d == 8 {
        '8'
    } else {
        '9'
    }
}

/// A number written in decimal, without sign or leading zeros.
pub open spec fn decimal_digits(n: nat) -> Seq<char>
    decreases n,
{
    if n < 10 {
        seq![digit_char(n)]
    } else {
        decimal_digits(n / 10).push(digit_char(n % 10))
    }
}

fn digit_text(d: u64) -> (text: &'static str)
    requires
        d < 10,
    ensures
        text@ == seq![digit_char(d as nat)],
{
    proof {
        reveal_strlit("0");
        reveal_strlit("1");
        reveal_strlit("2");
        reveal_strlit("3");
        reveal_strlit("4");
        reveal_strlit("5");
        reveal_strlit("6");
        reveal_strlit("7");
        reveal_strlit("8");
        reveal_strlit("9");
    }
    let text = if d == 0 {
        "0"
    } else if d == 1 {
        "1"
    } else if d == 2 {
        "2"
    } else if d == 3 {
        "3"
    } else if d == 4 {
        "4"
    } else if d == 5 {
        "5"
    } else if d == 6 {
        "6"
    } else if d == 7 {
        "7"
    } else if d == 8 {
        "8"
    } else {
        "9"
    };
    assert(text@ =~= seq![digit_char(d as nat)]);
    text
}

/// Writes `n` in decimal.
pub fn decimal_wide(n: u128) -> (text: String)
    ensures
        text@ == decimal_digits(n as nat),
    decreases n,
{
    if n < 10 {
        digit_text(n as u64).to_owned()
    } else {
        let mut text = decimal_wide(n / 10);
        text.append(digit_text((n % 10) as u64));
        assert(text@ =~= decimal_digits((n / 10) as nat).push(digit_char((n % 10) as nat)));
        text
    }
}

/// Writes `n` in decimal.
pub fn decimal(n: u64) -> (text: String)
    ensures
        text@ == decimal_digits(n as nat),
{
    decimal_wide(n as u128)
}

/// `a` followed by `b`.
pub fn concat2(a: &str, b: &str) -> (text: String)
    ensures
        text@ == a@ + b@,
{
    let mut text = a.to_owned();
    text.append(b);
    text
}

/// `a` followed by `b` and `c`.
pub fn concat3(a: &str, b: &str, c: &str) -> (text: String)
    ensures
        text@ == a@ + b@ + c@,
{
    let mut text = a.to_owned();
    text.append(b);
    text.append(c);
    text
}

/// Calls `String::push`, which appends one character.
#[verifier::external_body]
pub(crate) fn push_char(text: &mut String, c: char)
    ensures
        final(text)@ == old(text)@.push(c),
{
    text.push(c)
}

/// Calls `String::pop`, which removes the last character and hands it
/// back, or hands back `None` and changes nothing where the text is empty.
#[verifier::external_body]
pub(crate) fn pop_char(text: &mut String) -> (last: Option<char>)
    ensures
        old(text)@.len() == 0 ==> last is None && final(text)@ == old(text)@,
        old(text)@.len() > 0 ==> last == Some(old(text)@.last()) && final(text)@ == old(
            text,
        )@.drop_last(),
{
    text.pop()
}

/// The first `count` characters of `text`, or all of it where it is shorter.
pub fn first_chars(text: &str, count: usize) -> (head: String)
    ensures
        head@ == text@.take(if count <= text@.len() {
            count as int
        } else {
            text@.len() as int
        }),
{
    let total = text.unicode_len();
    let end = if count <= total {
        count
    } else {
        total
    };
    let head = text.substring_char(0, end).to_owned();
    assert(text@.subrange(0, end as int) =~= text@.take(end as int));
    head
}

/// A number written in decimal, with a minus sign where it is negative.
pub open spec fn signed_digits(n: int) -> Seq<char> {
    if n < 0 {
        seq!['-'] + decimal_digits((-n) as nat)
    } else {
        decimal_digits(n as nat)
    }
}

/// Writes `n` in decimal, with its sign where it is negative.
pub fn signed_decimal(n: i64) -> (text: String)
    ensures
        text@ == signed_digits(n as int),
{
    if n < 0 {
        let magnitude: u64 = (-(n as i128)) as u64;
        let digits = decimal(magnitude);
        proof {
            reveal_strlit("-");
        }
        let text = concat2("-", digits.as_str());
        assert(text@ =~= seq!['-'] + decimal_digits((-n) as nat));
        text
    } else {
        decimal(n as u64)
    }
}

/// A number below 100 written with two digits.
pub open spec fn two_digits(n: nat) -> Seq<char> {
    seq![digit_char(n / 10), digit_char(n % 10)]
}

/// Writes a number below 100 with two digits.
pub fn two_digit(n: u32) -> (text: String)
    requires
        n < 100,
    ensures
        text@ == two_digits(n as nat),
{
    let text = concat2(digit_text((n / 10) as u64), digit_text((n % 10) as u64));
    assert(text@ =~= two_digits(n as nat));
    text
}

/// `text` cut or filled to exactly `width` characters: a text that is
/// longer is cut and ends in an ellipsis, a shorter one is filled up with
/// spaces on the right.
pub open spec fn fitted(text: Seq<char>, width: nat) -> Seq<char> {
    if text.len() > width {
        if width == 0 {
            Seq::empty()
        } else {
            text.take(width - 1).push('\u{2026}')
        }
    } else {
        text + Seq::new((width - text.len()) as nat, |i: int| ' ')
    }
}

/// Cuts or fills `text` to `width` characters.
pub fn fit(text: &str, width: usize) -> (cell: String)
    ensures
        cell@ == fitted(text@, width as nat),
        cell@.len() == width,
{
    let length = text.unicode_len();
    if length > width {
        if width == 0 {
            String::new()
        } else {
            let mut cell = first_chars(text, width - 1);
            push_char(&mut cell, '\u{2026}');
            cell
        }
    } else {
        let mut cell = text.to_owned();
        let mut filled: usize = length;
        while filled < width
            invariant
                length <= filled <= width,
                length == text@.len(),
                cell@ == text@ + Seq::new((filled - length) as nat, |i: int| ' '),
            decreases width - filled,
        {
            push_char(&mut cell, ' ');
            filled = filled + 1;
            assert(cell@ =~= text@ + Seq::new((filled - length) as nat, |i: int| ' '));
        }
        cell
    }
}

/// `count` times the character `c`.
pub fn repeated(c: char, count: usize) -> (text: String)
    ensures
        text@ == Seq::new(count as nat, |i: int| c),
{
    let mut text = String::new();
    let mut done: usize = 0;
    assert(text@ =~= Seq::new(0, |i: int| c));
    while done < count
        invariant
            done <= count,
            text@ == Seq::new(done as nat, |i: int| c),
        decreases count - done,
    {
        push_char(&mut text, c);
        done = done + 1;
        assert(text@ =~= Seq::new(done as nat, |i: int| c));
    }
    text
}

} // verus!
