//! Parsing decimal text into a tenths-scaled value.
//!
//! A provider hands numbers over as decimal text (for example "23.55" or
//! "-4"). The library turns such text into an integer count of tenths of a
//! unit, rounding half away from zero, which is exactly the precision the
//! display shows.
use crate::numfmt::{digit_val, is_digit};
use vstd::prelude::*;

verus! {

/// Whether every character of the text is a decimal digit.
pub open spec fn all_digits(s: Seq<char>) -> bool {
    forall|i: int| 0 <= i < s.len() ==> is_digit(#[trigger] s[i])
}

/// The value of a digit string, most significant digit first.
pub open spec fn digits_val(s: Seq<char>) -> int
    decreases s.len(),
{
    if s.len() == 0 {
        0
    } else {
        digits_val(s.drop_last()) * 10 + digit_val(s.last())
    }
}

/// The index of the first '.' in the text, or -1 if there is none.
pub open spec fn find_dot(s: Seq<char>) -> int
    decreases s.len(),
{
    if s.len() == 0 {
        -1
    } else if s[0] == '.' {
        0
    } else if find_dot(s.subrange(1, s.len() as int)) < 0 {
        -1
    } else {
        find_dot(s.subrange(1, s.len() as int)) + 1
    }
}

/// Whether the text carries a leading minus sign.
pub open spec fn num_is_neg(s: Seq<char>) -> bool {
    s.len() > 0 && s[0] == '-'
}

/// The text with a leading minus sign removed.
pub open spec fn num_body(s: Seq<char>) -> Seq<char> {
    if num_is_neg(s) {
        s.subrange(1, s.len() as int)
    } else {
        s
    }
}

/// The digits before the decimal point (the whole body if there is none).
pub open spec fn int_part(s: Seq<char>) -> Seq<char> {
    let b = num_body(s);
    if find_dot(b) >= 0 {
        b.subrange(0, find_dot(b))
    } else {
        b
    }
}

/// The digits after the decimal point, empty if there is none.
pub open spec fn frac_part(s: Seq<char>) -> Seq<char> {
    let b = num_body(s);
    if find_dot(b) >= 0 {
        b.subrange(find_dot(b) + 1, b.len() as int)
    } else {
        Seq::empty()
    }
}

/// A well-formed decimal number: an optional '-', at least one digit, and,
/// if a '.' is present, at least one digit after it.
pub open spec fn wf_number(s: Seq<char>) -> bool {
    &&& int_part(s).len() >= 1
    &&& all_digits(int_part(s))
    &&& (find_dot(num_body(s)) >= 0 ==> frac_part(s).len() >= 1 && all_digits(frac_part(s)))
}

/// The i-th fractional digit of the text, or 0 when there are fewer.
pub open spec fn frac_digit(s: Seq<char>, i: int) -> int {
    if i < frac_part(s).len() {
        digit_val(frac_part(s)[i])
    } else {
        0
    }
}

/// The tenths value of a well-formed decimal text, rounded to the nearest
/// tenth, halves away from zero.
pub open spec fn tenths_val(s: Seq<char>) -> int {
    let mag = digits_val(int_part(s)) * 10 + frac_digit(s, 0) + if frac_digit(s, 1) >= 5 {
        1int
    } else {
        0int
    };
    if num_is_neg(s) {
        -mag
    } else {
        mag
    }
}

/// Ten to the n-th power.
pub open spec fn pow10(n: nat) -> int
    decreases n,
{
    if n == 0 {
        1
    } else {
        10 * pow10((n - 1) as nat)
    }
}

pub proof fn lemma_pow10_pos(n: nat)
    ensures
        pow10(n) >= 1,
    decreases n,
{
    if n > 0 {
        lemma_pow10_pos((n - 1) as nat);
    }
}

pub proof fn lemma_pow10_mono(a: nat, b: nat)
    requires
        a <= b,
    ensures
        pow10(a) <= pow10(b),
    decreases b,
{
    if a < b {
        lemma_pow10_mono(a, (b - 1) as nat);
        lemma_pow10_pos((b - 1) as nat);
    }
}

pub proof fn lemma_pow10_15()
    ensures
        pow10(14) == 100000000000000,
        pow10(15) == 1000000000000000,
{
    assert(pow10(0) == 1);
    assert(pow10(1) == 10);
    assert(pow10(2) == 100);
    assert(pow10(3) == 1000);
    assert(pow10(4) == 10000);
    assert(pow10(5) == 100000);
    assert(pow10(6) == 1000000);
    assert(pow10(7) == 10000000);
    assert(pow10(8) == 100000000);
    assert(pow10(9) == 1000000000);
    assert(pow10(10) == 10000000000);
    assert(pow10(11) == 100000000000);
    assert(pow10(12) == 1000000000000);
    assert(pow10(13) == 10000000000000);
    assert(pow10(14) == 100000000000000);
    assert(pow10(15) == 1000000000000000);
}

/// A digit string's value is bounded by ten to its length.
pub proof fn lemma_digits_val_bound(s: Seq<char>)
    requires
        all_digits(s),
    ensures
        0 <= digits_val(s) < pow10(s.len()),
    decreases s.len(),
{
    if s.len() > 0 {
        assert(all_digits(s.drop_last())) by {
            assert(forall|i: int|
                0 <= i < s.len() - 1 ==> s.drop_last()[i] == #[trigger] s[i]);
        }
        lemma_digits_val_bound(s.drop_last());
        assert(is_digit(s.last()));
        assert(pow10(s.len()) == 10 * pow10((s.len() - 1) as nat));
    }
}

/// If no character of the text is a '.', there is no first '.'.
pub proof fn lemma_find_dot_none(s: Seq<char>)
    requires
        forall|j: int| 0 <= j < s.len() ==> #[trigger] s[j] != '.',
    ensures
        find_dot(s) == -1,
    decreases s.len(),
{
    if s.len() > 0 {
        let t = s.subrange(1, s.len() as int);
        assert(forall|j: int| 0 <= j < t.len() ==> #[trigger] t[j] == s[j + 1]);
        lemma_find_dot_none(t);
    }
}

/// If position k holds the first '.', `find_dot` returns k.
pub proof fn lemma_find_dot_at(s: Seq<char>, k: int)
    requires
        0 <= k < s.len(),
        s[k] == '.',
        forall|j: int| 0 <= j < k ==> #[trigger] s[j] != '.',
    ensures
        find_dot(s) == k,
    decreases s.len(),
{
    if k > 0 {
        let t = s.subrange(1, s.len() as int);
        assert(forall|j: int| 0 <= j < t.len() ==> #[trigger] t[j] == s[j + 1]);
        lemma_find_dot_at(t, k - 1);
    }
}

/// The value of a digit string extended by one digit.
pub proof fn lemma_digits_val_push(s: Seq<char>, c: char)
    ensures
        digits_val(s.push(c)) == digits_val(s) * 10 + digit_val(c),
{
    assert(s.push(c).drop_last() =~= s);
    assert(s.push(c).last() == c);
}

/// A formatted natural number is all digits and reads back as itself.
proof fn lemma_dec_str_digits(n: nat)
    ensures
        all_digits(crate::numfmt::dec_str(n)),
        digits_val(crate::numfmt::dec_str(n)) == n,
    decreases n,
{
    let s = crate::numfmt::dec_str(n);
    if n < 10 {
        assert(s.drop_last() =~= Seq::<char>::empty());
        assert(digits_val(Seq::<char>::empty()) == 0);
        assert(s.last() == crate::numfmt::digit_char(n as int));
        assert(crate::numfmt::digit_val(crate::numfmt::digit_char(n as int)) == n);
        assert(digits_val(s) == n);
    } else {
        lemma_dec_str_digits(n / 10);
        let pre = crate::numfmt::dec_str(n / 10);
        let c = crate::numfmt::digit_char((n % 10) as int);
        assert(s =~= pre.push(c));
        lemma_digits_val_push(pre, c);
        assert(crate::numfmt::digit_val(c) == n % 10);
        assert(digits_val(s) == digits_val(pre) * 10 + crate::numfmt::digit_val(c));
        assert(n == (n / 10) * 10 + n % 10);
        assert(forall|i: int| 0 <= i < pre.len() ==> s[i] == #[trigger] pre[i]);
    }
}

/// Formatting a tenths count and parsing the text back yields the count
/// again: the number text the display shows names the displayed value
/// exactly.
pub proof fn lemma_tenths_text_round_trip(t: int)
    ensures
        wf_number(crate::numfmt::tenths_str(t)),
        tenths_val(crate::numfmt::tenths_str(t)) == t,
{
    let s = crate::numfmt::tenths_str(t);
    let m = if t < 0 {
        -t
    } else {
        t
    };
    let nn = crate::numfmt::tenths_str_nn(m as nat);
    let whole = crate::numfmt::dec_str((m as nat) / 10);
    let c = crate::numfmt::digit_char((m % 10) as int);
    lemma_dec_str_digits((m as nat) / 10);
    let dl = whole.len() as int;
    assert(nn[dl] == '.');
    if t < 0 {
        assert(s[0] == '-');
        assert(num_is_neg(s));
        assert(num_body(s) =~= nn);
    } else {
        assert(s == nn);
        assert(is_digit(nn[0]));
        assert(!num_is_neg(s));
    }
    assert(num_body(s) == nn);
    assert(forall|j: int| 0 <= j < dl ==> #[trigger] nn[j] == whole[j]);
    assert(forall|j: int| 0 <= j < dl ==> nn[j] != '.') by {
        assert(forall|j: int| 0 <= j < dl ==> is_digit(#[trigger] nn[j]));
    }
    lemma_find_dot_at(nn, dl);
    assert(int_part(s) =~= whole);
    assert(frac_part(s) =~= seq![c]);
    assert(frac_digit(s, 0) == m % 10);
    assert(frac_digit(s, 1) == 0);
    assert(tenths_val(s) == if num_is_neg(s) {
        -(digits_val(whole) * 10 + m % 10)
    } else {
        digits_val(whole) * 10 + m % 10
    });
    assert(digits_val(whole) * 10 + m % 10 == m);
}

/// The digit value of a character, when it is a decimal digit.
fn char_digit(c: char) -> (r: Option<u64>)
    ensures
        r is Some <==> is_digit(c),
        r matches Some(v) ==> v as int == digit_val(c) && v < 10,
{
    match c {
        '0' => Some(0),
        '1' => Some(1),
        '2' => Some(2),
        '3' => Some(3),
        '4' => Some(4),
        '5' => Some(5),
        '6' => Some(6),
        '7' => Some(7),
        '8' => Some(8),
        '9' => Some(9),
        _ => None,
    }
}

/// Parses decimal text into tenths, rounded half away from zero. Returns
/// `None` exactly when the text is not a well-formed decimal number or its
/// whole part has more than 15 digits.
pub fn parse_tenths(s: &String) -> (r: Option<i64>)
    ensures
        (r is Some) == (wf_number(s@) && int_part(s@).len() <= 15),
        r matches Some(v) ==> v as int == tenths_val(s@),
{
    let st = s.as_str();
    let n = st.unicode_len();
    let neg = n > 0 && st.get_char(0) == '-';
    let start: usize = if neg {
        1
    } else {
        0
    };
    proof {
        assert(num_is_neg(s@) == neg);
        assert(num_body(s@) =~= s@.subrange(start as int, n as int));
    }
    let ghost body = num_body(s@);
    // Find the first '.' at or after `start`; `n` stands for "none".
    let mut i: usize = start;
    let mut dot_abs: usize = n;
    while i < n && dot_abs == n
        invariant
            start <= i <= n,
            n == s@.len(),
            st@ == s@,
            forall|j: int| start <= j < i ==> #[trigger] s@[j] != '.',
            dot_abs == n || (dot_abs == i && i < n && s@[i as int] == '.'),
        decreases n - i + (if dot_abs == n { 1int } else { 0int }),
    {
        if st.get_char(i) == '.' {
            dot_abs = i;
        } else {
            i += 1;
        }
    }
    proof {
        if dot_abs == n {
            assert(forall|j: int|
                0 <= j < body.len() ==> #[trigger] body[j] == s@[j + start]);
            lemma_find_dot_none(body);
        } else {
            assert(forall|j: int|
                0 <= j < body.len() ==> #[trigger] body[j] == s@[j + start]);
            lemma_find_dot_at(body, dot_abs - start);
        }
    }
    // The whole part occupies [start, ipe).
    let ipe: usize = if dot_abs == n {
        n
    } else {
        dot_abs
    };
    proof {
        assert(int_part(s@) =~= s@.subrange(start as int, ipe as int));
    }
    if ipe == start {
        return None;
    }
    if ipe - start > 15 {
        return None;
    }
    let mut acc: u64 = 0;
    let mut i2: usize = start;
    while i2 < ipe
        invariant
            start <= i2 <= ipe <= n,
            n == s@.len(),
            st@ == s@,
            ipe - start <= 15,
            int_part(s@) =~= s@.subrange(start as int, ipe as int),
            all_digits(s@.subrange(start as int, i2 as int)),
            acc as int == digits_val(s@.subrange(start as int, i2 as int)),
            (acc as int) < pow10((i2 - start) as nat),
        decreases ipe - i2,
    {
        let c = st.get_char(i2);
        match char_digit(c) {
            None => {
                proof {
                    assert(int_part(s@)[i2 - start] == c);
                    assert(!all_digits(int_part(s@)));
                }
                return None;
            },
            Some(d) => {
                proof {
                    lemma_pow10_15();
                    lemma_pow10_mono((i2 - start) as nat, 14);
                    lemma_digits_val_push(s@.subrange(start as int, i2 as int), c);
                    assert(s@.subrange(start as int, i2 as int).push(c) =~= s@.subrange(
                        start as int,
                        i2 as int + 1,
                    ));
                    assert(pow10((i2 + 1 - start) as nat) == 10 * pow10((i2 - start) as nat));
                }
                acc = acc * 10 + d;
            },
        }
        i2 += 1;
    }
    proof {
        assert(all_digits(int_part(s@)));
        assert(acc as int == digits_val(int_part(s@)));
        lemma_pow10_15();
        lemma_pow10_mono((ipe - start) as nat, 15);
        assert((acc as int) < pow10(15));
    }
    // The fractional part, when a '.' is present: all digits, at least one;
    // only the first two influence the rounded tenths value.
    let mut d1: u64 = 0;
    let mut d2: u64 = 0;
    if dot_abs < n {
        let fps: usize = dot_abs + 1;
        proof {
            assert(frac_part(s@) =~= s@.subrange(fps as int, n as int));
        }
        if fps == n {
            return None;
        }
        let mut j: usize = fps;
        while j < n
            invariant
                fps <= j <= n,
                n == s@.len(),
                st@ == s@,
                fps >= 1,
                frac_part(s@) =~= s@.subrange(fps as int, n as int),
                all_digits(s@.subrange(fps as int, j as int)),
                j > fps ==> d1 as int == digit_val(s@[fps as int]) && d1 < 10,
                j <= fps ==> d1 == 0,
                j > fps + 1 ==> d2 as int == digit_val(s@[fps as int + 1]) && d2 < 10,
                j <= fps + 1 ==> d2 == 0,
            decreases n - j,
        {
            let c = st.get_char(j);
            match char_digit(c) {
                None => {
                    proof {
                        assert(frac_part(s@)[j - fps] == c);
                        assert(!all_digits(frac_part(s@)));
                    }
                    return None;
                },
                Some(d) => {
                    if j == fps {
                        d1 = d;
                    } else if j == fps + 1 {
                        d2 = d;
                    }
                },
            }
            j += 1;
        }
        proof {
            assert(all_digits(frac_part(s@)));
            assert(frac_part(s@).len() >= 1);
            assert(d1 as int == frac_digit(s@, 0));
            if n > fps + 1 {
                assert(frac_part(s@)[1] == s@[fps as int + 1]);
            }
            assert(d2 as int == frac_digit(s@, 1));
        }
    } else {
        proof {
            assert(frac_part(s@) =~= Seq::<char>::empty());
            assert(d1 as int == frac_digit(s@, 0));
            assert(d2 as int == frac_digit(s@, 1));
        }
    }
    let mag: u64 = acc * 10 + d1 + if d2 >= 5 {
        1
    } else {
        0
    };
    let v: i64 = if neg {
        -(mag as i64)
    } else {
        mag as i64
    };
    proof {
        assert(wf_number(s@));
        assert(v as int == tenths_val(s@));
    }
    Some(v)
}

} // verus!
