//! Text building blocks: comparison, joining, and decimal integers.

use vstd::prelude::*;
use vstd::string::*;

verus! {

/// The character that writes one decimal digit.
pub open spec fn digit_char(digit: nat) -> char {
    if digit == 0 {
        '0'
    } else if digit == 1 {
        '1'
    } else if digit == 2 {
        '2'
    } else if digit == 3 {
        '3'
    } else if digit == 4 {
        '4'
    } else if digit == 5 {
        '5'
    } else if digit == 6 {
        '6'
    } else if digit == 7 {
        '7'
    } else if digit == 8 {
        '8'
    } else {
        '9'
    }
}

/// The decimal digits of a natural number, without leading zeros.
pub open spec fn digits(value: nat) -> Seq<char>
    decreases value,
{
    if value < 10 {
        seq![digit_char(value)]
    } else {
        digits(value / 10).push(digit_char(value % 10))
    }
}

/// The decimal text of an integer.
pub open spec fn int_text(value: int) -> Seq<char> {
    if value < 0 {
        seq!['-'] + digits((-value) as nat)
    } else {
        digits(value as nat)
    }
}

/// The value of one decimal digit character.
pub open spec fn digit_value(c: char) -> Option<nat> {
    if '0' <= c && c <= '9' {
        Some((c as int - '0' as int) as nat)
    } else {
        None
    }
}

/// The number written by a non-empty run of decimal digits.
pub open spec fn digits_value(s: Seq<char>) -> Option<nat>
    decreases s.len(),
{
    if s.len() == 0 {
        None
    } else if s.len() == 1 {
        digit_value(s[0])
    } else {
        match (digits_value(s.drop_last()), digit_value(s.last())) {
            (Some(high), Some(low)) => Some(high * 10 + low),
            _ => None,
        }
    }
}

/// The integer written by an optional sign and a run of decimal digits.
pub open spec fn signed_value(s: Seq<char>) -> Option<int> {
    if s.len() > 0 && (s[0] == '-' || s[0] == '+') {
        match digits_value(s.subrange(1, s.len() as int)) {
            Some(value) => Some(
                if s[0] == '-' {
                    -(value as int)
                } else {
                    value as int
                },
            ),
            None => None,
        }
    } else {
        match digits_value(s) {
            Some(value) => Some(value as int),
            None => None,
        }
    }
}

/// The `i64` a text names, when it is a signed decimal number in range.
pub open spec fn i64_value(s: Seq<char>) -> Option<i64> {
    match signed_value(s) {
        Some(value) => if i64::MIN <= value <= i64::MAX {
            Some(value as i64)
        } else {
            None
        },
        None => None,
    }
}

/// What an optional text holds.
pub open spec fn text_view(text: Option<String>) -> Option<Seq<char>> {
    match text {
        Some(s) => Some(s@),
        None => None,
    }
}

/// What an optional borrowed text holds.
pub open spec fn str_view(text: Option<&str>) -> Option<Seq<char>> {
    match text {
        Some(s) => Some(s@),
        None => None,
    }
}

/// What each text of a list holds.
pub open spec fn texts(list: Seq<String>) -> Seq<Seq<char>> {
    list.map_values(|s: String| s@)
}

/// Whether two texts hold the same characters.
pub fn same_text(a: &str, b: &str) -> (same: bool)
    ensures
        same == (a@ == b@),
{
    a.to_owned() == b.to_owned()
}

/// Joins two texts.
pub fn join2(a: &str, b: &str) -> (joined: String)
    ensures
        joined@ == a@ + b@,
{
    let mut joined = a.to_owned();
    joined.append(b);
    joined
}

/// Joins three texts.
pub fn join3(a: &str, b: &str, c: &str) -> (joined: String)
    ensures
        joined@ == a@ + b@ + c@,
{
    let mut joined = join2(a, b);
    joined.append(c);
    joined
}

/// Joins five texts.
pub fn join5(a: &str, b: &str, c: &str, d: &str, e: &str) -> (joined: String)
    ensures
        joined@ == a@ + b@ + c@ + d@ + e@,
{
    let mut joined = join3(a, b, c);
    joined.append(d);
    joined.append(e);
    joined
}

fn digit_text(digit: u64) -> (text: &'static str)
    requires
        digit < 10,
    ensures
        text@ == seq![digit_char(digit as nat)],
{
    proof {
        reveal_strlit("0");
        reveal_strlit("1");
        reveal_strlit("2");
        reveal_strlit("3");
        reveal_strlit("4");
        reveal_strlit("5");
        reveal_strlit("6");
        reveal_strlit("7");
        reveal_strlit("8");
        reveal_strlit("9");
    }
    let text = if digit == 0 {
        "0"
    } else if digit == 1 {
        "1"
    } else if digit == 2 {
        "2"
    } else if digit == 3 {
        "3"
    } else if digit == 4 {
        "4"
    } else if digit == 5 {
        "5"
    } else if digit == 6 {
        "6"
    } else if digit == 7 {
        "7"
    } else if digit == 8 {
        "8"
    } else {
        "9"
    };
    assert(text@ =~= seq![digit_char(digit as nat)]);
    text
}

fn natural_text(value: u64) -> (text: String)
    ensures
        text@ == digits(value as nat),
    decreases value,
{
    if value < 10 {
        digit_text(value).to_owned()
    } else {
        let mut text = natural_text(value / 10);
        text.append(digit_text(value % 10));
        assert(text@ =~= digits(value as nat));
        text
    }
}

/// Writes an integer in decimal.
pub fn integer_text(value: i64) -> (text: String)
    ensures
        text@ == int_text(value as int),
{
    if value < 0 {
        let magnitude: u64 = (-(value as i128)) as u64;
        proof {
            reveal_strlit("-");
        }
        let text = join2("-", natural_text(magnitude).as_str());
        assert(text@ =~= int_text(value as int));
        text
    } else {
        natural_text(value as u64)
    }
}

fn digit_of(c: char) -> (value: Option<u64>)
    ensures
        value matches Some(v) ==> v <= 9 && digit_value(c) == Some(v as nat),
        value is None ==> digit_value(c) is None,
{
    if '0' <= c && c <= '9' {
        Some((c as u32 - '0' as u32) as u64)
    } else {
        None
    }
}

proof fn lemma_digits_invalid(s: Seq<char>, at: int)
    requires
        0 <= at < s.len(),
        digit_value(s[at]) is None,
    ensures
        digits_value(s) is None,
    decreases s.len(),
{
    if s.len() > 1 && at < s.len() - 1 {
        lemma_digits_invalid(s.drop_last(), at);
    }
}

proof fn lemma_digits_grow(s: Seq<char>, n: int)
    requires
        0 < n <= s.len(),
        digits_value(s) is Some,
    ensures
        digits_value(s.subrange(0, n)) is Some,
        digits_value(s.subrange(0, n))->0 <= digits_value(s)->0,
    decreases s.len(),
{
    if n == s.len() {
        assert(s.subrange(0, n) =~= s);
    } else {
        lemma_digits_grow(s.drop_last(), n);
        assert(s.drop_last().subrange(0, n) =~= s.subrange(0, n));
    }
}

fn natural_value(text: &str, start: usize, length: usize) -> (value: Option<u64>)
    requires
        start <= length,
        length == text@.len(),
    ensures
        ({
            let run = text@.subrange(start as int, length as int);
            match value {
                Some(v) => digits_value(run) == Some(v as nat) && v <= 9_223_372_036_854_775_808,
                None => digits_value(run) is None || digits_value(run)->0
                    > 9_223_372_036_854_775_808,
            }
        }),
{
    if start == length {
        return None;
    }
    let ghost run = text@.subrange(start as int, length as int);
    let mut total: u64 = 0;
    let mut at: usize = start;
    while at < length
        invariant
            start <= at <= length,
            start < length,
            length == text@.len(),
            run == text@.subrange(start as int, length as int),
            at == start ==> total == 0,
            at > start ==> digits_value(run.subrange(0, at - start)) == Some(total as nat),
            total <= 9_223_372_036_854_775_808,
        decreases length - at,
    {
        let digit = match digit_of(text.get_char(at)) {
            Some(digit) => digit,
            None => {
                proof {
                    assert(run[at - start] == text@[at as int]);
                    lemma_digits_invalid(run, at - start);
                }
                return None;
            },
        };
        let wide: u128 = (total as u128) * 10 + (digit as u128);
        proof {
            let next = run.subrange(0, at - start + 1);
            assert(run[at - start] == text@[at as int]);
            assert(next.drop_last() =~= run.subrange(0, at - start));
            assert(next.last() == text@[at as int]);
            assert(digits_value(next) == Some(wide as nat));
        }
        if wide > 9_223_372_036_854_775_808 {
            proof {
                if digits_value(run) is Some {
                    lemma_digits_grow(run, at - start + 1);
                }
            }
            return None;
        }
        total = wide as u64;
        at = at + 1;
    }
    assert(run.subrange(0, length - start) =~= run);
    Some(total)
}

/// Reads a signed decimal `i64`: an optional sign and at least one digit.
pub fn read_i64(text: &str) -> (value: Option<i64>)
    ensures
        value == i64_value(text@),
{
    let length = text.unicode_len();
    if length == 0 {
        return None;
    }
    let first = text.get_char(0);
    if first == '-' || first == '+' {
        match natural_value(text, 1, length) {
            Some(magnitude) => {
                if first == '-' {
                    Some((-(magnitude as i128)) as i64)
                } else if magnitude <= 9_223_372_036_854_775_807 {
                    Some(magnitude as i64)
                } else {
                    None
                }
            },
            None => None,
        }
    } else {
        assert(text@.subrange(0, length as int) =~= text@);
        match natural_value(text, 0, length) {
            Some(magnitude) => {
                if magnitude <= 9_223_372_036_854_775_807 {
                    Some(magnitude as i64)
                } else {
                    None
                }
            },
            None => None,
        }
    }
}

/// Copies an optional borrowed text.
pub fn own_text(text: Option<&str>) -> (owned: Option<String>)
    ensures
        text_view(owned) == str_view(text),
{
    match text {
        Some(s) => Some(s.to_owned()),
        None => None,
    }
}

/// Copies an optional text.
pub fn copy_text(text: &Option<String>) -> (copy: Option<String>)
    ensures
        copy == *text,
{
    match text {
        Some(s) => Some(s.clone()),
        None => None,
    }
}

/// Borrows an optional text.
pub fn borrow_text(text: &Option<String>) -> (borrowed: Option<&str>)
    ensures
        str_view(borrowed) == text_view(*text),
{
    match text {
        Some(s) => Some(s.as_str()),
        None => None,
    }
}

/// Whether an optional text is present and holds exactly `wanted`.
pub fn text_is(text: &Option<String>, wanted: &str) -> (same: bool)
    ensures
        same == (text_view(*text) == Some(wanted@)),
{
    match text {
        Some(s) => same_text(s.as_str(), wanted),
        None => false,
    }
}

/// Whether a character is white space, as Unicode has it.
pub open spec fn is_space(c: char) -> bool {
    let code = c as u32;
    ||| 0x9 <= code <= 0xd
    ||| code == 0x20
    ||| code == 0x85
    ||| code == 0xa0
    ||| code == 0x1680
    ||| 0x2000 <= code <= 0x200a
    ||| code == 0x2028
    ||| code == 0x2029
    ||| code == 0x202f
    ||| code == 0x205f
    ||| code == 0x3000
}

/// Whether a text is white space only.
pub open spec fn blank(text: Seq<char>) -> bool {
    forall|i: int| 0 <= i < text.len() ==> is_space(#[trigger] text[i])
}

fn char_is_space(c: char) -> (answer: bool)
    ensures
        answer == is_space(c),
{
    let code: u32 = c as u32;
    (0x9 <= code && code <= 0xd) || code == 0x20 || code == 0x85 || code == 0xa0 || code == 0x1680
        || (0x2000 <= code && code <= 0x200a) || code == 0x2028 || code == 0x2029 || code == 0x202f
        || code == 0x205f || code == 0x3000
}

/// Whether a text is white space only.
pub fn is_blank(text: &str) -> (answer: bool)
    ensures
        answer == blank(text@),
{
    let length = text.unicode_len();
    let mut i: usize = 0;
    while i < length
        invariant
            length == text@.len(),
            forall|j: int| 0 <= j < i ==> is_space(#[trigger] text@[j]),
        decreases length - i,
    {
        if !char_is_space(text.get_char(i)) {
            return false;
        }
        i = i + 1;
    }
    true
}

proof fn lemma_digits_read_back(value: nat)
    ensures
        digits(value).len() > 0,
        digits_value(digits(value)) == Some(value),
        digit_value(digits(value)[0]) is Some,
    decreases value,
{
    if value >= 10 {
        lemma_digits_read_back(value / 10);
        let s = digits(value);
        assert(s.drop_last() =~= digits(value / 10));
        assert(s[0] == digits(value / 10)[0]);
        assert(digit_value(digit_char(value % 10)) == Some(value % 10));
        assert(value == (value / 10) * 10 + value % 10);
    } else {
        assert(digit_value(digit_char(value)) == Some(value));
    }
}

/// An integer reads back from its text, so that no two have the same one.
pub proof fn law_integer_reads_back(value: int)
    ensures
        signed_value(int_text(value)) == Some(value),
        i64::MIN <= value <= i64::MAX ==> i64_value(int_text(value)) == Some(value as i64),
{
    if value < 0 {
        let run = digits((-value) as nat);
        lemma_digits_read_back((-value) as nat);
        assert(int_text(value).subrange(1, int_text(value).len() as int) =~= run);
    } else {
        lemma_digits_read_back(value as nat);
    }
}

/// A text with every underscore made a space.
pub open spec fn spaced(text: Seq<char>) -> Seq<char> {
    text.map_values(
        |c: char|
            if c == '_' {
                ' '
            } else {
                c
            },
    )
}

/// Makes every underscore of a text a space.
pub fn space_words(text: &str) -> (words: String)
    ensures
        words@ == spaced(text@),
{
    let length = text.unicode_len();
    let mut words = String::new();
    let mut i: usize = 0;
    while i < length
        invariant
            i <= length,
            length == text@.len(),
            words@ == spaced(text@.subrange(0, i as int)),
        decreases length - i,
    {
        let ghost before = words@;
        let c = text.get_char(i);
        if c == '_' {
            words.append(" ");
            proof {
                reveal_strlit(" ");
                assert(" "@ =~= seq![' ']);
            }
        } else {
            words.append(text.substring_char(i, i + 1));
            assert(text@.subrange(i as int, i + 1) =~= seq![c]);
        }
        proof {
            assert(text@.subrange(0, i + 1) =~= text@.subrange(0, i as int).push(c));
            assert(spaced(text@.subrange(0, i + 1)) =~= before.push(if c == '_' { ' ' } else { c }));
        }
        i = i + 1;
    }
    assert(text@.subrange(0, i as int) =~= text@);
    words
}

} // verus!
