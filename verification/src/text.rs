//! Numbers as text.

use vstd::prelude::*;

verus! {

/// The digit for a value below sixteen.
pub open spec fn digit_char(value: int) -> char {
    if value < 10 {
        ('0' as u32 + value) as char
    } else {
        ('A' as u32 + (value - 10)) as char
    }
}

/// `value` in base ten.
pub open spec fn decimal_text(value: nat) -> Seq<char>
    decreases value,
{
    if value < 10 {
        seq![digit_char(value as int)]
    } else {
        decimal_text(value / 10).push(digit_char((value % 10) as int))
    }
}

/// `value` in base sixteen, with capital letters.
pub open spec fn hex_text(value: nat) -> Seq<char>
    decreases value,
{
    if value < 16 {
        seq![digit_char(value as int)]
    } else {
        hex_text(value / 16).push(digit_char((value % 16) as int))
    }
}

fn digit(value: u64) -> (text: &'static str)
    requires
        value < 16,
    ensures
        text@ == seq![digit_char(value as int)],
{
    proof {
        reveal_strlit("0");
        reveal_strlit("1");
        reveal_strlit("2");
        reveal_strlit("3");
        reveal_strlit("4");
        reveal_strlit("5");
        reveal_strlit("6");
        reveal_strlit("7");
        reveal_strlit("8");
        reveal_strlit("9");
        reveal_strlit("A");
        reveal_strlit("B");
        reveal_strlit("C");
        reveal_strlit("D");
        reveal_strlit("E");
        reveal_strlit("F");
    }
    match value {
        0 => "0",
        1 => "1",
        2 => "2",
        3 => "3",
        4 => "4",
        5 => "5",
        6 => "6",
        7 => "7",
        8 => "8",
        9 => "9",
        10 => "A",
        11 => "B",
        12 => "C",
        13 => "D",
        14 => "E",
        _ => "F",
    }
}

/// Writes `value` in base ten.
pub fn decimal(value: u64) -> (text: String)
    ensures
        text@ == decimal_text(value as nat),
    decreases value,
{
    if value < 10 {
        digit(value).to_owned()
    } else {
        let mut text: String = decimal(value / 10);
        let last: &'static str = digit(value % 10);
        text.append(last);
        assert(text@ =~= decimal_text(value as nat));
        text
    }
}

/// Writes `value` in base sixteen, with capital letters.
pub fn upper_hex(value: u64) -> (text: String)
    ensures
        text@ == hex_text(value as nat),
    decreases value,
{
    if value < 16 {
        digit(value).to_owned()
    } else {
        let mut text: String = upper_hex(value / 16);
        let last: &'static str = digit(value % 16);
        text.append(last);
        assert(text@ =~= hex_text(value as nat));
        text
    }
}

/// The value of a digit.
pub open spec fn digit_value(digit: char) -> int {
    if digit as u32 >= 'A' as u32 {
        digit as u32 - 'A' as u32 + 10
    } else {
        digit as u32 - '0' as u32
    }
}

/// The number that digits write, in a base.
pub open spec fn digits_value(digits: Seq<char>, base: int) -> int
    decreases digits.len(),
{
    if digits.len() == 0 {
        0
    } else {
        digits_value(digits.drop_last(), base) * base + digit_value(digits.last())
    }
}

/// A number that is written in decimals reads as that number, without needless zeros; so
/// two numbers are written the same only where they are the same.
pub proof fn law_decimals_read_back(value: nat)
    ensures
        digits_value(decimal_text(value), 10) == value,
        decimal_text(value).len() >= 1,
        value > 0 ==> decimal_text(value)[0] != '0',
        forall|i: int|
            0 <= i < decimal_text(value).len() ==> '0' as u32 <= (
            #[trigger] decimal_text(value)[i]) as u32 <= '9' as u32,
    decreases value,
{
    if value < 10 {
        let text = decimal_text(value);
        assert(text.drop_last() =~= seq![]);
        assert(digits_value(text.drop_last(), 10) == 0);
    } else {
        law_decimals_read_back(value / 10);
        let before = decimal_text(value / 10);
        let text = decimal_text(value);
        assert(text.drop_last() =~= before);
        assert forall|i: int| 0 <= i < text.len() implies '0' as u32 <= (#[trigger] text[i]) as u32
            <= '9' as u32 by {
            if i < before.len() {
                assert(text[i] == before[i]);
            }
        }
        assert(text[0] == before[0]);
    }
}

/// A number that is written in hexadecimals reads as that number.
pub proof fn law_hexadecimals_read_back(value: nat)
    ensures
        digits_value(hex_text(value), 16) == value,
        hex_text(value).len() >= 1,
    decreases value,
{
    if value < 16 {
        let text = hex_text(value);
        assert(text.drop_last() =~= seq![]);
        assert(digits_value(text.drop_last(), 16) == 0);
    } else {
        law_hexadecimals_read_back(value / 16);
        assert(hex_text(value).drop_last() =~= hex_text(value / 16));
    }
}

} // verus!
