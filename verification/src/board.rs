//! The scoreboard text: a verified decimal rendering of the two scores
//! joined by a colon, recomputed every tick and never stored as state.

use vstd::prelude::*;
use vstd::string::StringExecFns;

verus! {

/// The decimal digit character for `d` in `0 ..= 9`.
pub open spec fn spec_digit_char(d: int) -> char {
    if d == 0 {
        '0'
    } else if d == 1 {
        '1'
    } else if d == 2 {
        '2'
    } else if d == 3 {
        '3'
    } else if d == 4 {
        '4'
    } else if d == 5 {
        '5'
    } else if d == 6 {
        '6'
    } else if d == 7 {
        '7'
    } else if d == 8 {
        '8'
    } else {
        '9'
    }
}

/// The usual decimal digit string of `n`, most significant digit first,
/// with no leading zeros (a lone `0` for zero).
pub open spec fn spec_digits(n: nat) -> Seq<char>
    decreases n,
{
    if n < 10 {
        seq![spec_digit_char(n as int)]
    } else {
        spec_digits(n / 10) + seq![spec_digit_char((n % 10) as int)]
    }
}

/// The scoreboard line `"{left}:{right}"`.
pub open spec fn spec_score_line(left: u32, right: u32) -> Seq<char> {
    spec_digits(left as nat) + seq![':'] + spec_digits(right as nat)
}

fn digit_str(d: u32) -> (s: &'static str)
    requires
        d < 10,
    ensures
        s@ == seq![spec_digit_char(d as int)],
{
    proof {
        reveal_strlit("0");
        reveal_strlit("1");
        reveal_strlit("2");
        reveal_strlit("3");
        reveal_strlit("4");
        reveal_strlit("5");
        reveal_strlit("6");
        reveal_strlit("7");
        reveal_strlit("8");
        reveal_strlit("9");
    }
    let s = match d {
        0 => "0",
        1 => "1",
        2 => "2",
        3 => "3",
        4 => "4",
        5 => "5",
        6 => "6",
        7 => "7",
        8 => "8",
        _ => "9",
    };
    proof {
        assert(s@ =~= seq![spec_digit_char(d as int)]);
    }
    s
}

/// Renders `n` in decimal.
pub fn render_u32(n: u32) -> (s: String)
    ensures
        s@ == spec_digits(n as nat),
    decreases n,
{
    if n < 10 {
        let mut s = String::new();
        s.append(digit_str(n));
        proof {
            assert(s@ =~= spec_digits(n as nat));
        }
        s
    } else {
        let mut s = render_u32(n / 10);
        s.append(digit_str(n % 10));
        proof {
            assert(s@ =~= spec_digits(n as nat));
        }
        s
    }
}

/// The scoreboard string for the two current scores, left first.
pub fn update_score_board(left: u32, right: u32) -> (s: String)
    ensures
        s@ == spec_score_line(left, right),
{
    proof {
        reveal_strlit(":");
    }
    let mut s = render_u32(left);
    s.append(":");
    let right_text = render_u32(right);
    s.append(right_text.as_str());
    proof {
        assert(s@ =~= spec_score_line(left, right));
    }
    s
}

} // verus!
