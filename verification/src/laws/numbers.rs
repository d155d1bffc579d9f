//! Laws on numbers and words: sums that stop at the ends, limits and quotients.

use crate::arith::{
    clamp_to, div_toward_zero, max_of, max_of32, min_of, sat_add, sat_add32, sat_mul, sat_mul32,
    sat_narrow, sat_sub,
};
use crate::text::{digit_value, digits_value, int_text, is_blank, read_i64, space_words};
use vstd::prelude::*;

verus! {

/// Sums, differences and products that fit are exact; others stop at the nearer end.
pub proof fn law_sums_stop_at_the_ends(a: i64, b: i64, sum: i64, difference: i64, product: i64)
    requires
        call_ensures(sat_add, (a, b), sum),
        call_ensures(sat_sub, (a, b), difference),
        call_ensures(sat_mul, (a, b), product),
    ensures
        i64::MIN <= a + b <= i64::MAX ==> sum == a + b,
        a + b > i64::MAX ==> sum == i64::MAX,
        a + b < i64::MIN ==> sum == i64::MIN,
        i64::MIN <= a - b <= i64::MAX ==> difference == a - b,
        a - b > i64::MAX ==> difference == i64::MAX,
        a - b < i64::MIN ==> difference == i64::MIN,
        i64::MIN <= a * b <= i64::MAX ==> product == a * b,
        a * b > i64::MAX ==> product == i64::MAX,
        a * b < i64::MIN ==> product == i64::MIN,
{
}

/// The same of narrow numbers.
pub proof fn law_narrow_sums_stop_at_the_ends(
    a: i32,
    b: i32,
    sum: i32,
    product: i32,
    wide: i64,
    near: i32,
)
    requires
        call_ensures(sat_add32, (a, b), sum),
        call_ensures(sat_mul32, (a, b), product),
        call_ensures(sat_narrow, (wide,), near),
    ensures
        i32::MIN <= a + b <= i32::MAX ==> sum == a + b,
        a + b > i32::MAX ==> sum == i32::MAX,
        a + b < i32::MIN ==> sum == i32::MIN,
        i32::MIN <= a * b <= i32::MAX ==> product == a * b,
        a * b > i32::MAX ==> product == i32::MAX,
        a * b < i32::MIN ==> product == i32::MIN,
        i32::MIN <= wide <= i32::MAX ==> near == wide,
        wide > i32::MAX ==> near == i32::MAX,
        wide < i32::MIN ==> near == i32::MIN,
{
}

/// The larger and the smaller of two numbers are among them and on their sides of
/// both; a limited number is within its limits and as near as they let it.
pub proof fn law_limits_hold(
    a: i64,
    b: i64,
    most: i64,
    least: i64,
    value: i64,
    low: i64,
    high: i64,
    limited: i64,
)
    requires
        call_ensures(max_of, (a, b), most),
        call_ensures(min_of, (a, b), least),
        call_ensures(clamp_to, (value, low, high), limited),
        low <= high,
    ensures
        most >= a && most >= b && (most == a || most == b),
        least <= a && least <= b && (least == a || least == b),
        low <= limited <= high,
        low <= value <= high ==> limited == value,
        value < low ==> limited == low,
        value > high ==> limited == high,
{
}

/// The larger of two narrow numbers is one of them and above neither of them only.
pub proof fn law_narrow_maximum(a: i32, b: i32, most: i32)
    requires
        call_ensures(max_of32, (a, b), most),
    ensures
        most >= a && most >= b && (most == a || most == b),
{
}

/// A quotient is cut off toward zero: it times the divisor is within one divisor of
/// the number, on the side of zero.
pub proof fn law_quotients_go_toward_zero(value: i64, divisor: i64, quotient: i64)
    requires
        call_ensures(div_toward_zero, (value, divisor), quotient),
        divisor > 0,
    ensures
        value >= 0 ==> 0 <= value - quotient * divisor < divisor && quotient >= 0,
        value < 0 ==> -divisor < value - quotient * divisor <= 0 && quotient <= 0,
{
    let q = quotient as int;
    let (v, d) = (value as int, divisor as int);
    if value >= 0 {
        assert(0 <= v - (v / d) * d < d && v / d >= 0) by (nonlinear_arith)
            requires
                v >= 0,
                d > 0,
        ;
    } else {
        let n = -v;
        assert(0 <= n - (n / d) * d < d && n / d >= 0) by (nonlinear_arith)
            requires
                n >= 0,
                d > 0,
        ;
        assert(q == -(n / d));
        assert(q * d == -((n / d) * d)) by (nonlinear_arith)
            requires
                q == -(n / d),
        ;
    }
}

/// Numbers are read digit by digit, with one sign in front; a text with anything else
/// in it is no number.
pub proof fn law_numbers_are_read(text: &str, value: Option<i64>, c: char)
    requires
        call_ensures(read_i64, (text,), value),
    ensures
        text@.len() == 0 ==> value is None,
        digit_value(c) is Some <==> '0' <= c && c <= '9',
        '0' <= c && c <= '9' ==> digit_value(c) == Some((c as int - '0' as int) as nat),
        text@ == seq![c] && '0' <= c && c <= '9' ==> value == Some((c as int - '0' as int) as i64),
        text@ == seq!['-', c] && '0' <= c && c <= '9' ==> value == Some(
            ('0' as int - c as int) as i64,
        ),
{
    assert(seq!['-', c].subrange(1, 2) =~= seq![c]);
}

/// A further digit counts the number before it ten times.
pub proof fn law_digits_count_by_tens(text: Seq<char>, high: nat, c: char)
    requires
        digits_value(text) == Some(high),
        '0' <= c && c <= '9',
    ensures
        digits_value(text.push(c)) == Some((high * 10 + (c as int - '0' as int)) as nat),
{
    assert(text.push(c).drop_last() =~= text);
}

/// A number is written back as it is read.
pub proof fn law_written_number_reads(value: i64, text: &str, read: Option<i64>)
    requires
        text@ == int_text(value as int),
        call_ensures(read_i64, (text,), read),
    ensures
        read == Some(value),
{
    crate::text::law_integer_reads_back(value as int);
}

/// A text is blank where it holds spaces only; underscores are shown as spaces, and
/// nothing else is changed.
pub proof fn law_spaces(text: &str, answer: bool, words: String, i: int)
    requires
        call_ensures(is_blank, (text,), answer),
        call_ensures(space_words, (text,), words),
        0 <= i < text@.len(),
    ensures
        answer ==> crate::text::is_space(text@[i]),
        text@[i] == 'a' || text@[i] == '0' || text@[i] == '_' || text@[i] == '-' ==> !answer,
        text@.len() == 1 && text@[i] == ' ' ==> answer,
        words@.len() == text@.len(),
        text@[i] == '_' ==> words@[i] == ' ',
        text@[i] != '_' ==> words@[i] == text@[i],
{
    if answer {
        assert(crate::text::is_space(text@[i]));
    }
}

} // verus!
