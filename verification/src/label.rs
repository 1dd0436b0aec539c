//! The text of the lines of a numbered list.

use vstd::prelude::*;
use vstd::string::StringExecFns;

verus! {

/// The character of a decimal digit.
pub open spec fn digit_char(digit: nat) -> char
    recommends
        digit < 10,
{
    if digit == 0 {
        '0'
    } else if digit == 1 {
        '1'
    } else if digit == 2 {
        '2'
    } else if digit == 3 {
        '3'
    } else if digit == 4 {
        '4'
    } else if digit == 5 {
        '5'
    } else if digit == 6 {
        '6'
    } else if digit == 7 {
        '7'
    } else if digit == 8 {
        '8'
    } else {
        '9'
    }
}

/// A number in decimal, without sign or leading zeros.
pub open spec fn decimal(n: nat) -> Seq<char>
    decreases n,
{
    if n < 10 {
        seq![digit_char(n)]
    } else {
        decimal(n / 10).push(digit_char(n % 10))
    }
}

/// The text that separates the number of a line from its title.
pub open spec fn separator() -> Seq<char> {
    seq!['.', ' ']
}

/// The text that ends a line: carriage return, then line feed.
pub open spec fn line_end() -> Seq<char> {
    seq!['\r', '\n']
}

/// The line of the entry at `index`: its number, counted from one, a full stop
/// and a space, its title, and the line end.
pub open spec fn entry_line(index: nat, title: Seq<char>) -> Seq<char> {
    decimal(index + 1) + separator() + title + line_end()
}

fn digit_text(digit: usize) -> (text: &'static str)
    requires
        digit < 10,
    ensures
        text@ == seq![digit_char(digit as nat)],
{
    proof {
        reveal_strlit("0");
        reveal_strlit("1");
        reveal_strlit("2");
        reveal_strlit("3");
        reveal_strlit("4");
        reveal_strlit("5");
        reveal_strlit("6");
        reveal_strlit("7");
        reveal_strlit("8");
        reveal_strlit("9");
    }
    let text = if digit == 0 {
        "0"
    } else if digit == 1 {
        "1"
    } else if digit == 2 {
        "2"
    } else if digit == 3 {
        "3"
    } else if digit == 4 {
        "4"
    } else if digit == 5 {
        "5"
    } else if digit == 6 {
        "6"
    } else if digit == 7 {
        "7"
    } else if digit == 8 {
        "8"
    } else {
        "9"
    };
    assert(text@ =~= seq![digit_char(digit as nat)]);
    text
}

/// Appends `n` in decimal to `text`.
pub fn push_decimal(text: &mut String, n: usize)
    ensures
        final(text)@ == old(text)@ + decimal(n as nat),
    decreases n,
{
    if n >= 10 {
        push_decimal(text, n / 10);
    }
    text.append(digit_text(n % 10));
    assert(text@ =~= old(text)@ + decimal(n as nat));
}

/// The line of the entry at `index` of a list.
pub fn line_text(index: usize, title: &String) -> (line: String)
    requires
        index < usize::MAX,
    ensures
        line@ == entry_line(index as nat, title@),
{
    let mut line = String::new();
    push_decimal(&mut line, index + 1);
    proof {
        reveal_strlit(". ");
        reveal_strlit("\r\n");
    }
    line.append(". ");
    line.append(title.as_str());
    line.append("\r\n");
    assert(line@ =~= entry_line(index as nat, title@));
    line
}

} // verus!
