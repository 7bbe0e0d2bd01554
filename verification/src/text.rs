//! Text: the scan for the template marker, decimal text of integers, and
//! the string-forcing transform.

use crate::markers::FORCE_STRING;
use crate::value::{TemplateModel, TemplateValue};
use vstd::prelude::*;
use vstd::string::*;

verus! {

/// The character that every template construct starts with.
pub const TEMPLATE_START: char = '{';

/// Whether the text holds the character that starts a template construct.
/// Text without it is plain and is never handed to the engine.
pub open spec fn has_template_start(text: Seq<char>) -> bool {
    text.contains(TEMPLATE_START)
}

/// Scans `input` for the template start character. This reads characters
/// and parses nothing.
pub fn contains_template_start(input: &str) -> (r: bool)
    ensures
        r == has_template_start(input@),
{
    for c in it: input.chars()
        invariant
            it.seq() == input@,
            forall|j: int| 0 <= j < it.index() ==> input@[j] != TEMPLATE_START,
    {
        if c == TEMPLATE_START {
            assert(input@[it.index() as int] == TEMPLATE_START);
            return true;
        }
    }
    false
}

/// The character of a decimal digit.
pub open spec fn digit_char(d: nat) -> char {
    if d == 0 {
        '0'
    } else if d == 1 {
        '1'
    } else if d == 2 {
        '2'
    } else if d == 3 {
        '3'
    } else if d == 4 {
        '4'
    } else if d == 5 {
        '5'
    } else if d == 6 {
        '6'
    } else if d == 7 {
        '7'
    } else if d == 8 {
        '8'
    } else {
        '9'
    }
}

/// The decimal digits of a natural number, most significant first, without
/// leading zeros.
pub open spec fn digits(n: nat) -> Seq<char>
    decreases n,
{
    if n < 10 {
        seq![digit_char(n)]
    } else {
        digits(n / 10).push(digit_char(n % 10))
    }
}

/// The decimal text of an integer: a minus sign for a negative number, then
/// the digits of its magnitude.
pub open spec fn decimal_text(n: int) -> Seq<char> {
    if n < 0 {
        seq!['-'] + digits((-n) as nat)
    } else {
        digits(n as nat)
    }
}

/// The text of one decimal digit.
fn digit_text(d: u128) -> (r: &'static str)
    requires
        d < 10,
    ensures
        r@ == seq![digit_char(d as nat)],
{
    let r = if d == 0 {
        "0"
    } else if d == 1 {
        "1"
    } else if d == 2 {
        "2"
    } else if d == 3 {
        "3"
    } else if d == 4 {
        "4"
    } else if d == 5 {
        "5"
    } else if d == 6 {
        "6"
    } else if d == 7 {
        "7"
    } else if d == 8 {
        "8"
    } else {
        "9"
    };
    proof {
        reveal_strlit("0");
        reveal_strlit("1");
        reveal_strlit("2");
        reveal_strlit("3");
        reveal_strlit("4");
        reveal_strlit("5");
        reveal_strlit("6");
        reveal_strlit("7");
        reveal_strlit("8");
        reveal_strlit("9");
        assert(r@ =~= seq![digit_char(d as nat)]);
    }
    r
}

/// The decimal text of an unsigned integer.
pub fn unsigned_text(n: u128) -> (r: String)
    ensures
        r@ == digits(n as nat),
    decreases n,
{
    if n < 10 {
        String::from_str(digit_text(n))
    } else {
        let r = unsigned_text(n / 10).concat(digit_text(n % 10));
        assert(r@ =~= digits(n as nat));
        r
    }
}

/// The decimal text of a signed integer.
pub fn integer_text(n: i128) -> (r: String)
    ensures
        r@ == decimal_text(n as int),
{
    if n < 0 {
        let magnitude: u128 = if n == i128::MIN {
            0x8000_0000_0000_0000_0000_0000_0000_0000u128
        } else {
            (-n) as u128
        };
        proof {
            reveal_strlit("-");
        }
        let r = String::from_str("-").concat(unsigned_text(magnitude).as_str());
        assert(r@ =~= decimal_text(n as int));
        r
    } else {
        unsigned_text(n as u128)
    }
}

/// What the string-forcing filter makes of a text: the marker, then the text.
pub open spec fn forced(text: Seq<char>) -> Seq<char> {
    FORCE_STRING@ + text
}

/// The string-forcing transform: puts the force-string marker in front of
/// `value`, so that the stage that merges documents keeps the field as text
/// whatever it looks like.
pub fn str_filter(value: String) -> (r: String)
    ensures
        r@ == forced(value@),
{
    String::from_str(FORCE_STRING).concat(value.as_str())
}

/// The integer that a template value holds, whatever its width.
pub open spec fn integer_of(v: TemplateModel) -> Option<int> {
    match v {
        TemplateModel::U64(n) => Some(n as int),
        TemplateModel::U128(n) => Some(n as int),
        TemplateModel::I64(n) => Some(n as int),
        TemplateModel::I128(n) => Some(n as int),
        _ => None,
    }
}

/// The string-forcing filter on a value whose text is known here: on an
/// integer it gives the marker followed by the integer's decimal text, on a
/// string the marker followed by the string. Any other value is printed by
/// the engine and gives `None` here.
pub fn force_scalar(value: &TemplateValue) -> (r: Option<String>)
    ensures
        match value@ {
            TemplateModel::Str(s) => r matches Some(text) && text@ == forced(s),
            other => match integer_of(other) {
                Some(n) => r matches Some(text) && text@ == forced(decimal_text(n)),
                None => r is None,
            },
        },
{
    match value {
        TemplateValue::U64(n) => Some(str_filter(unsigned_text(*n as u128))),
        TemplateValue::U128(n) => Some(str_filter(unsigned_text(*n))),
        TemplateValue::I64(n) => Some(str_filter(integer_text(*n as i128))),
        TemplateValue::I128(n) => Some(str_filter(integer_text(*n))),
        TemplateValue::Str(s) => Some(str_filter(s.clone())),
        _ => None,
    }
}

} // verus!
