//! Decimal text for tenths-scaled values.
//!
//! Every numeric field of a report is an integer count of tenths; its text
//! form always shows exactly one digit after the decimal point, which is the
//! display precision the library promises.
use vstd::prelude::*;

verus! {

/// The character for a single decimal digit value.
pub open spec fn digit_char(d: int) -> char {
    if d == 0 {
        '0'
    } else if d == 1 {
        '1'
    } else if d == 2 {
        '2'
    } else if d == 3 {
        '3'
    } else if d == 4 {
        '4'
    } else if d == 5 {
        '5'
    } else if d == 6 {
        '6'
    } else if d == 7 {
        '7'
    } else if d == 8 {
        '8'
    } else {
        '9'
    }
}

/// The value of a decimal digit character, or -1 for any other character.
pub open spec fn digit_val(c: char) -> int {
    if c == '0' {
        0
    } else if c == '1' {
        1
    } else if c == '2' {
        2
    } else if c == '3' {
        3
    } else if c == '4' {
        4
    } else if c == '5' {
        5
    } else if c == '6' {
        6
    } else if c == '7' {
        7
    } else if c == '8' {
        8
    } else if c == '9' {
        9
    } else {
        -1
    }
}

pub open spec fn is_digit(c: char) -> bool {
    digit_val(c) >= 0
}

/// The decimal text of a natural number, most significant digit first.
pub open spec fn dec_str(n: nat) -> Seq<char>
    decreases n,
{
    if n < 10 {
        seq![digit_char(n as int)]
    } else {
        dec_str(n / 10) + seq![digit_char((n % 10) as int)]
    }
}

/// The text of a non-negative tenths count: whole part, '.', one digit.
pub open spec fn tenths_str_nn(t: nat) -> Seq<char> {
    dec_str(t / 10) + seq!['.'] + seq![digit_char((t % 10) as int)]
}

/// The text of a tenths count, with a leading '-' when negative.
pub open spec fn tenths_str(t: int) -> Seq<char> {
    if t < 0 {
        seq!['-'] + tenths_str_nn((-t) as nat)
    } else {
        tenths_str_nn(t as nat)
    }
}

/// The one-character string for a digit value.
fn digit_string(d: u64) -> (s: String)
    requires
        d < 10,
    ensures
        s@ == seq![digit_char(d as int)],
{
    let s = match d {
        0 => String::from_str("0"),
        1 => String::from_str("1"),
        2 => String::from_str("2"),
        3 => String::from_str("3"),
        4 => String::from_str("4"),
        5 => String::from_str("5"),
        6 => String::from_str("6"),
        7 => String::from_str("7"),
        8 => String::from_str("8"),
        _ => String::from_str("9"),
    };
    proof {
        reveal_strlit("0");
        reveal_strlit("1");
        reveal_strlit("2");
        reveal_strlit("3");
        reveal_strlit("4");
        reveal_strlit("5");
        reveal_strlit("6");
        reveal_strlit("7");
        reveal_strlit("8");
        reveal_strlit("9");
        assert(s@ =~= seq![digit_char(d as int)]);
    }
    s
}

/// Formats a natural number in decimal.
pub fn format_u64(n: u64) -> (s: String)
    ensures
        s@ == dec_str(n as nat),
    decreases n,
{
    if n < 10 {
        digit_string(n)
    } else {
        let hi = format_u64(n / 10);
        let lo = digit_string(n % 10);
        let r = hi.concat(lo.as_str());
        proof {
            assert(r@ =~= dec_str(n as nat));
        }
        r
    }
}

/// Formats a tenths count with exactly one digit after the decimal point.
pub fn format_tenths(t: i64) -> (s: String)
    ensures
        s@ == tenths_str(t as int),
{
    let neg = t < 0;
    let mag: u64 = if t >= 0 {
        t as u64
    } else {
        ((-(t + 1)) as u64) + 1
    };
    proof {
        assert(mag as int == if t < 0 {
            -(t as int)
        } else {
            t as int
        });
    }
    let whole = format_u64(mag / 10);
    let tenth = digit_string(mag % 10);
    let mut r = if neg {
        String::from_str("-")
    } else {
        String::new()
    };
    r.append(whole.as_str());
    r.append(".");
    r.append(tenth.as_str());
    proof {
        reveal_strlit("-");
        reveal_strlit(".");
        assert(r@ =~= tenths_str(t as int));
    }
    r
}

/// The length of a decimal text is at least one.
pub proof fn lemma_dec_str_len(n: nat)
    ensures
        dec_str(n).len() >= 1,
    decreases n,
{
    if n >= 10 {
        lemma_dec_str_len(n / 10);
    }
}

/// The text of a tenths count always shows exactly one digit after the
/// decimal point: its second-to-last character is '.', its last a digit.
pub proof fn lemma_tenths_one_decimal(t: int)
    ensures
        tenths_str(t).len() >= 3,
        tenths_str(t)[tenths_str(t).len() - 2] == '.',
        is_digit(tenths_str(t)[tenths_str(t).len() - 1]),
{
    if t < 0 {
        lemma_dec_str_len(((-t) as nat) / 10);
    } else {
        lemma_dec_str_len((t as nat) / 10);
    }
}

} // verus!
