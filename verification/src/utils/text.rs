//! Text helpers: numbers as decimal and hexadecimal text.

use vstd::prelude::*;
use vstd::string::*;

verus! {

/// Whether a character has Unicode's `White_Space` property: the tab, the
/// line and page breaks, the space, the next-line mark, the no-break
/// spaces, the Ogham space mark, the spaces of fixed width, the line and
/// paragraph separators, the mathematical space and the ideographic space.
pub open spec fn is_white_space(c: char) -> bool {
    let code = c as u32;
    ||| 0x0009 <= code <= 0x000D
    ||| code == 0x0020
    ||| code == 0x0085
    ||| code == 0x00A0
    ||| code == 0x1680
    ||| 0x2000 <= code <= 0x200A
    ||| code == 0x2028
    ||| code == 0x2029
    ||| code == 0x202F
    ||| code == 0x205F
    ||| code == 0x3000
}

/// The number of white-space characters at the start of a text.
pub open spec fn leading_white_space(text: Seq<char>) -> nat
    decreases text.len(),
{
    if text.len() > 0 && is_white_space(text.first()) {
        1 + leading_white_space(text.drop_first())
    } else {
        0
    }
}

/// The number of white-space characters at the end of a text.
pub open spec fn trailing_white_space(text: Seq<char>) -> nat
    decreases text.len(),
{
    if text.len() > 0 && is_white_space(text.last()) {
        1 + trailing_white_space(text.drop_last())
    } else {
        0
    }
}

/// A text without the white space at its start and at its end: what lies
/// from its first to its last character that is no white space.
pub open spec fn trimmed(text: Seq<char>) -> Seq<char> {
    let rest = text.skip(leading_white_space(text) as int);
    rest.take(rest.len() - trailing_white_space(rest))
}

/// The texts of a list of strings.
pub open spec fn texts(strings: Seq<String>) -> Seq<Seq<char>> {
    Seq::new(strings.len(), |i: int| strings[i]@)
}

/// The text of a string that may be absent.
pub open spec fn text_of(string: Option<String>) -> Option<Seq<char>> {
    match string {
        Some(s) => Some(s@),
        None => None,
    }
}

/// The character of a decimal digit.
pub open spec fn digit_char(digit: int) -> char {
    if digit == 0 {
        '0'
    } else if digit == 1 {
        '1'
    } else if digit == 2 {
        '2'
    } else if digit == 3 {
        '3'
    } else if digit == 4 {
        '4'
    } else if digit == 5 {
        '5'
    } else if digit == 6 {
        '6'
    } else if digit == 7 {
        '7'
    } else if digit == 8 {
        '8'
    } else {
        '9'
    }
}

/// The character of a hexadecimal digit, letters in upper case.
pub open spec fn hex_char(digit: int) -> char {
    if digit < 10 {
        digit_char(digit)
    } else if digit == 10 {
        'A'
    } else if digit == 11 {
        'B'
    } else if digit == 12 {
        'C'
    } else if digit == 13 {
        'D'
    } else if digit == 14 {
        'E'
    } else {
        'F'
    }
}

/// A number in decimal, without sign, padding or leading zeros.
pub open spec fn decimal_text(n: nat) -> Seq<char>
    decreases n,
{
    if n < 10 {
        seq![digit_char(n as int)]
    } else {
        decimal_text(n / 10) + seq![digit_char((n % 10) as int)]
    }
}

/// A byte as two upper-case hexadecimal digits.
pub open spec fn hex_text(byte: u8) -> Seq<char> {
    seq![hex_char(byte as int / 16), hex_char(byte as int % 16)]
}

/// `str::trim` of the standard library, as a string of its own: the text
/// without its leading and trailing white space, where white space is what
/// has Unicode's `White_Space` property.
#[verifier::external_body]
pub(crate) fn trim(text: &str) -> (out: String)
    ensures
        out@ == trimmed(text@),
{
    text.trim().to_string()
}

fn hex_digit(digit: u8) -> (text: &'static str)
    requires
        digit < 16,
    ensures
        text@ == seq![hex_char(digit as int)],
{
    proof {
        reveal_strlit("0");
        reveal_strlit("1");
        reveal_strlit("2");
        reveal_strlit("3");
        reveal_strlit("4");
        reveal_strlit("5");
        reveal_strlit("6");
        reveal_strlit("7");
        reveal_strlit("8");
        reveal_strlit("9");
        reveal_strlit("A");
        reveal_strlit("B");
        reveal_strlit("C");
        reveal_strlit("D");
        reveal_strlit("E");
        reveal_strlit("F");
    }
    let text = match digit {
        0 => "0",
        1 => "1",
        2 => "2",
        3 => "3",
        4 => "4",
        5 => "5",
        6 => "6",
        7 => "7",
        8 => "8",
        9 => "9",
        10 => "A",
        11 => "B",
        12 => "C",
        13 => "D",
        14 => "E",
        _ => "F",
    };
    text
}

/// Appends a byte as two upper-case hexadecimal digits.
pub fn push_hex(text: &mut String, byte: u8)
    ensures
        final(text)@ == old(text)@ + hex_text(byte),
{
    text.append(hex_digit(byte / 16));
    text.append(hex_digit(byte % 16));
}

/// A number as decimal text.
pub fn decimal(n: u64) -> (text: String)
    ensures
        text@ == decimal_text(n as nat),
{
    let mut text = String::from_str(hex_digit((n % 10) as u8));
    let mut rest: u64 = n / 10;
    proof {
        reveal_with_fuel(decimal_text, 2);
    }
    while rest > 0
        invariant
            decimal_text(n as nat) == if rest == 0 {
                text@
            } else {
                decimal_text(rest as nat) + text@
            },
        decreases rest,
    {
        let digit = String::from_str(hex_digit((rest % 10) as u8));
        text = digit.concat(text.as_str());
        rest = rest / 10;
    }
    text
}

/// White space at the start and at the end is counted within the text.
pub proof fn lemma_white_space_bounded(text: Seq<char>)
    ensures
        leading_white_space(text) <= text.len(),
        trailing_white_space(text) <= text.len(),
    decreases text.len(),
{
    if text.len() > 0 {
        lemma_white_space_bounded(text.drop_first());
        lemma_white_space_bounded(text.drop_last());
    }
}

/// A text of nothing but white space is all leading white space.
proof fn lemma_all_leading(text: Seq<char>)
    requires
        forall|i: int| 0 <= i < text.len() ==> is_white_space(#[trigger] text[i]),
    ensures
        leading_white_space(text) == text.len(),
    decreases text.len(),
{
    if text.len() > 0 {
        let rest = text.drop_first();
        assert forall|i: int| 0 <= i < rest.len() implies is_white_space(#[trigger] rest[i]) by {
            assert(rest[i] == text[i + 1]);
        }
        lemma_all_leading(rest);
    }
}

/// Of a text of nothing but white space, the empty text too, nothing is
/// left.
pub proof fn lemma_blank_trims_to_nothing(text: Seq<char>)
    requires
        forall|i: int| 0 <= i < text.len() ==> is_white_space(#[trigger] text[i]),
    ensures
        trimmed(text) == Seq::<char>::empty(),
{
    lemma_all_leading(text);
    let rest = text.skip(text.len() as int);
    assert(rest.len() == 0);
    assert(trimmed(text) =~= Seq::<char>::empty());
}

/// A text that neither starts nor ends with white space is left as it is.
pub proof fn lemma_trimmed_text_stays(text: Seq<char>)
    requires
        text.len() > 0,
        !is_white_space(text.first()),
        !is_white_space(text.last()),
    ensures
        trimmed(text) == text,
{
    assert(text.skip(0) =~= text);
    assert(trimmed(text) =~= text);
}

/// What is left of a text neither starts nor ends with white space.
pub proof fn lemma_trimmed_ends(text: Seq<char>)
    requires
        trimmed(text).len() > 0,
    ensures
        !is_white_space(trimmed(text).first()),
        !is_white_space(trimmed(text).last()),
{
    lemma_white_space_bounded(text);
    lemma_after_leading(text);
    let rest = text.skip(leading_white_space(text) as int);
    lemma_white_space_bounded(rest);
    lemma_before_trailing(rest);
}

/// Behind the leading white space stands a character that is none, if any
/// stands there.
proof fn lemma_after_leading(text: Seq<char>)
    ensures
        leading_white_space(text) < text.len() ==> !is_white_space(
            text[leading_white_space(text) as int],
        ),
    decreases text.len(),
{
    lemma_white_space_bounded(text);
    if text.len() > 0 && is_white_space(text.first()) {
        let rest = text.drop_first();
        lemma_after_leading(rest);
        lemma_white_space_bounded(rest);
        if leading_white_space(rest) < rest.len() {
            assert(rest[leading_white_space(rest) as int] == text[leading_white_space(text) as int]);
        }
    }
}

/// Before the trailing white space stands a character that is none, if any
/// stands there.
proof fn lemma_before_trailing(text: Seq<char>)
    ensures
        trailing_white_space(text) < text.len() ==> !is_white_space(
            text[text.len() - trailing_white_space(text) - 1],
        ),
    decreases text.len(),
{
    lemma_white_space_bounded(text);
    if text.len() > 0 && is_white_space(text.last()) {
        let rest = text.drop_last();
        lemma_before_trailing(rest);
        lemma_white_space_bounded(rest);
        if trailing_white_space(rest) < rest.len() {
            assert(rest[rest.len() - trailing_white_space(rest) - 1] == text[text.len()
                - trailing_white_space(text) - 1]);
        }
    }
}

} // verus!
