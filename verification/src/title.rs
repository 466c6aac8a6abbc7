//! The title above the list: the name of the input and the operator's
//! position among the records.

use crate::stateful_list::cursor_of;
use vstd::prelude::*;
use vstd::string::StringExecFns;

verus! {

/// The character of a decimal digit.
pub open spec fn digit(d: nat) -> char {
    if d == 0 {
        '0'
    } else if d == 1 {
        '1'
    } else if d == 2 {
        '2'
    } else if d == 3 {
        '3'
    } else if d == 4 {
        '4'
    } else if d == 5 {
        '5'
    } else if d == 6 {
        '6'
    } else if d == 7 {
        '7'
    } else if d == 8 {
        '8'
    } else {
        '9'
    }
}

/// A number written in decimal, without leading zeros.
pub open spec fn decimal(n: nat) -> Seq<char>
    decreases n,
{
    if n < 10 {
        seq![digit(n)]
    } else {
        decimal(n / 10).push(digit(n % 10))
    }
}

/// The position shown for a cursor, counted from one. With nothing selected
/// the position shown is the first.
pub open spec fn position_of(cursor: Option<int>) -> nat {
    match cursor {
        Some(i) => (i + 1) as nat,
        None => 1,
    }
}

/// The title: ` [ input ] [ position / total ] `.
pub open spec fn title_text(input: Seq<char>, position: nat, total: nat) -> Seq<char> {
    " [ "@ + input + " ] [ "@ + decimal(position) + " / "@ + decimal(total) + " ] "@
}

fn digit_text(d: u128) -> (text: &'static str)
    requires
        d < 10,
    ensures
        text@ == seq![digit(d as nat)],
{
    proof {
        reveal_strlit("0");
        reveal_strlit("1");
        reveal_strlit("2");
        reveal_strlit("3");
        reveal_strlit("4");
        reveal_strlit("5");
        reveal_strlit("6");
        reveal_strlit("7");
        reveal_strlit("8");
        reveal_strlit("9");
    }
    if d == 0 {
        "0"
    } else if d == 1 {
        "1"
    } else if d == 2 {
        "2"
    } else if d == 3 {
        "3"
    } else if d == 4 {
        "4"
    } else if d == 5 {
        "5"
    } else if d == 6 {
        "6"
    } else if d == 7 {
        "7"
    } else if d == 8 {
        "8"
    } else {
        "9"
    }
}

/// Writes `n` in decimal at the end of `out`.
pub fn push_decimal(out: &mut String, n: u128)
    ensures
        final(out)@ == old(out)@ + decimal(n as nat),
    decreases n,
{
    if n >= 10 {
        push_decimal(out, n / 10);
    }
    out.append(digit_text(n % 10));
    proof {
        if n >= 10 {
            assert(old(out)@ + decimal(n as nat / 10) + seq![digit(n as nat % 10)] == old(out)@
                + decimal(n as nat));
        }
    }
}

/// The title for an input name, a selected index and a number of records.
pub fn title(input: &str, selected: Option<usize>, total: usize) -> (text: String)
    ensures
        text@ == title_text(input@, position_of(cursor_of(selected)), total as nat),
{
    let position: u128 = match selected {
        Some(i) => i as u128 + 1,
        None => 1,
    };
    let mut text = String::from_str(" [ ");
    text.append(input);
    text.append(" ] [ ");
    push_decimal(&mut text, position);
    text.append(" / ");
    push_decimal(&mut text, total as u128);
    text.append(" ] ");
    text
}

} // verus!
