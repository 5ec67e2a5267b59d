//! Small functions on text: comparison, quotes, and decimal numbers.

use vstd::prelude::*;

verus! {

/// Whether `c` is one of the ASCII digits `0` to `9`.
pub open spec fn is_digit(c: char) -> bool {
    '0' <= c <= '9'
}

/// The number that a sequence of ASCII digits writes in base ten.
pub open spec fn digits_value(digits: Seq<char>) -> int
    decreases digits.len(),
{
    if digits.len() == 0 {
        0
    } else {
        10 * digits_value(digits.drop_last()) + (digits.last() as int - '0' as int)
    }
}

/// What is left of `text` behind an optional `+` or `-`.
pub open spec fn unsigned_part(text: Seq<char>) -> Seq<char> {
    if text.len() > 0 && (text[0] == '+' || text[0] == '-') {
        text.skip(1)
    } else {
        text
    }
}

/// The integer that `text` writes: an optional sign and at least one digit, nothing else.
pub open spec fn integer_value(text: Seq<char>) -> Option<int> {
    let digits = unsigned_part(text);
    if digits.len() > 0 && (forall|i: int| 0 <= i < digits.len() ==> is_digit(#[trigger] digits[i])) {
        if text[0] == '-' {
            Some(-digits_value(digits))
        } else {
            Some(digits_value(digits))
        }
    } else {
        None
    }
}

/// The integer that `text` writes, where it is a signed 32-bit value.
pub open spec fn i32_value(text: Seq<char>) -> Option<i32> {
    match integer_value(text) {
        Some(n) => if i32::MIN <= n <= i32::MAX {
            Some(n as i32)
        } else {
            None
        },
        None => None,
    }
}

/// The shortest decimal text of `n`, with a leading `-` where `n` is negative.
pub open spec fn decimal_text(n: int) -> Seq<char>
    decreases
            (if n < 0 {
                1 - n
            } else {
                n
            }),
{
    if n < 0 {
        seq!['-'] + decimal_text(-n)
    } else if n < 10 {
        seq![('0' as int + n) as char]
    } else {
        decimal_text(n / 10).push(('0' as int + n % 10) as char)
    }
}

/// How many characters at the front of `text` are double quotes.
pub open spec fn leading_quotes(text: Seq<char>) -> nat
    decreases text.len(),
{
    if text.len() > 0 && text[0] == '"' {
        1 + leading_quotes(text.skip(1))
    } else {
        0
    }
}

/// How many characters at the end of `text` are double quotes.
pub open spec fn trailing_quotes(text: Seq<char>) -> nat
    decreases text.len(),
{
    if text.len() > 0 && text.last() == '"' {
        1 + trailing_quotes(text.drop_last())
    } else {
        0
    }
}

/// `text` without the double quotes around it.
pub open spec fn without_quotes(text: Seq<char>) -> Seq<char> {
    let rest = text.skip(leading_quotes(text) as int);
    rest.take(rest.len() - trailing_quotes(rest))
}

/// Cutting more digits off never raises the number.
proof fn lemma_prefix_value(digits: Seq<char>, n: int)
    requires
        0 <= n <= digits.len(),
        forall|i: int| 0 <= i < digits.len() ==> is_digit(#[trigger] digits[i]),
    ensures
        0 <= digits_value(digits.take(n)) <= digits_value(digits),
    decreases digits.len(),
{
    if digits.len() == 0 {
        assert(digits.take(n) =~= digits);
    } else {
        let front = digits.drop_last();
        assert(is_digit(digits[digits.len() - 1]));
        if n == digits.len() {
            assert(digits.take(n) =~= digits);
            lemma_prefix_value(front, front.len() as int);
            assert(front.take(front.len() as int) =~= front);
        } else {
            assert(digits.take(n) =~= front.take(n));
            lemma_prefix_value(front, n);
        }
    }
}

/// The decimal text of a natural number is a row of digits that writes the number.
proof fn lemma_natural_reads_back(n: int)
    requires
        n >= 0,
    ensures
        decimal_text(n).len() > 0,
        forall|i: int| 0 <= i < decimal_text(n).len() ==> is_digit(#[trigger] decimal_text(n)[i]),
        digits_value(decimal_text(n)) == n,
    decreases n,
{
    let text = decimal_text(n);
    reveal_with_fuel(digits_value, 2);
    if n >= 10 {
        lemma_natural_reads_back(n / 10);
        assert(text.drop_last() =~= decimal_text(n / 10));
        assert forall|i: int| 0 <= i < text.len() implies is_digit(#[trigger] text[i]) by {
            if i < text.len() - 1 {
                assert(is_digit(decimal_text(n / 10)[i]));
            }
        }
    } else {
        assert(text.drop_last() =~= Seq::<char>::empty());
    }
}

/// A number that is written in decimal reads back as itself.
pub proof fn law_decimal_reads_back(n: i32)
    ensures
        i32_value(decimal_text(n as int)) == Some(n),
{
    let text = decimal_text(n as int);
    if n < 0 {
        lemma_natural_reads_back(-n);
        assert(text.skip(1) =~= decimal_text(-n));
        assert(unsigned_part(text) == decimal_text(-n));
    } else {
        lemma_natural_reads_back(n as int);
        assert(is_digit(text[0]));
        assert(unsigned_part(text) == text);
    }
}

/// No decimal text starts or ends with a double quote.
pub proof fn lemma_decimal_has_no_quotes(n: int)
    ensures
        decimal_text(n).len() > 0,
        decimal_text(n)[0] != '"',
        decimal_text(n).last() != '"',
{
    let digits = decimal_text(if n < 0 {
        -n
    } else {
        n
    });
    lemma_natural_reads_back(if n < 0 {
        -n
    } else {
        n
    });
    assert(is_digit(digits[0]));
    assert(is_digit(digits[digits.len() - 1]));
}

/// Double quotes around a text that neither starts nor ends with one do not matter.
pub proof fn law_quotes_do_not_matter(text: Seq<char>)
    requires
        text.len() > 0 ==> text[0] != '"' && text.last() != '"',
    ensures
        without_quotes(text) == text,
        without_quotes(seq!['"'] + text + seq!['"']) == text,
{
    let quoted = seq!['"'] + text + seq!['"'];
    let half = text + seq!['"'];
    reveal_with_fuel(leading_quotes, 3);
    reveal_with_fuel(trailing_quotes, 2);
    assert(text.skip(0) =~= text);
    assert(text.take(text.len() as int) =~= text);
    assert(quoted.skip(1) =~= half);
    if text.len() == 0 {
        assert(half.skip(1) =~= Seq::<char>::empty());
        assert(quoted.skip(2) =~= Seq::<char>::empty());
        assert(without_quotes(quoted) =~= text);
    } else {
        assert(half[0] == text[0]);
        assert(half.drop_last() =~= text);
        assert(half.take(half.len() - 1) =~= text);
    }
}

/// Whether two texts hold the same characters.
pub fn same_text(a: &str, b: &str) -> (same: bool)
    ensures
        same == (a@ == b@),
{
    let len: usize = a.unicode_len();
    if len != b.unicode_len() {
        return false;
    }
    let mut i: usize = 0;
    while i < len
        invariant
            i <= len,
            a@.len() == len,
            b@.len() == len,
            forall|j: int| 0 <= j < i ==> a@[j] == b@[j],
        decreases len - i,
    {
        if a.get_char(i) != b.get_char(i) {
            return false;
        }
        i += 1;
    }
    assert(a@ =~= b@);
    true
}

/// Removes the double quotes around an atom.
pub fn trim_atom_quotes(atom: &str) -> (trimmed: &str)
    ensures
        trimmed@ == without_quotes(atom@),
        exists|start: int, end: int|
            {
                &&& 0 <= start <= end <= atom@.len()
                &&& trimmed@ == #[trigger] atom@.subrange(start, end)
                &&& forall|i: int| 0 <= i < start ==> atom@[i] == '"'
                &&& forall|i: int| end <= i < atom@.len() ==> atom@[i] == '"'
                &&& start < end ==> atom@[start] != '"' && atom@[end - 1] != '"'
            },
{
    let len: usize = atom.unicode_len();
    let mut start: usize = 0;
    assert(atom@.skip(0) =~= atom@);
    while start < len && atom.get_char(start) == '"'
        invariant
            start <= len,
            atom@.len() == len,
            leading_quotes(atom@) == start + leading_quotes(atom@.skip(start as int)),
            forall|i: int| 0 <= i < start ==> atom@[i] == '"',
        decreases len - start,
    {
        assert(atom@.skip(start as int).skip(1) =~= atom@.skip(start + 1));
        start += 1;
    }
    assert(leading_quotes(atom@) == start);
    let ghost rest = atom@.skip(start as int);
    let mut end: usize = len;
    assert(rest.take(rest.len() as int) =~= rest);
    while start < end && atom.get_char(end - 1) == '"'
        invariant
            start <= end <= len,
            atom@.len() == len,
            rest == atom@.skip(start as int),
            trailing_quotes(rest) == (len - end) + trailing_quotes(rest.take(end - start)),
            forall|i: int| end <= i < len ==> atom@[i] == '"',
            start < len ==> atom@[start as int] != '"',
        decreases end,
    {
        assert(rest.take(end - start).drop_last() =~= rest.take(end - start - 1));
        end -= 1;
    }
    assert(trailing_quotes(rest) == len - end);
    assert(atom@.subrange(start as int, end as int) =~= rest.take(end - start));
    atom.substring_char(start, end)
}

/// Reads a signed 32-bit number: an optional sign and at least one digit, nothing else.
pub fn parse_i32(text: &str) -> (value: Option<i32>)
    ensures
        value == i32_value(text@),
{
    let len: usize = text.unicode_len();
    if len == 0 {
        return None;
    }
    let first = text.get_char(0);
    let negative = first == '-';
    let start: usize = if negative || first == '+' {
        1
    } else {
        0
    };
    let ghost digits = unsigned_part(text@);
    if start == len {
        return None;
    }
    let mut i: usize = start;
    let mut value: i64 = 0;
    while i < len
        invariant
            start <= i <= len,
            text@.len() == len,
            start <= 1,
            digits == unsigned_part(text@),
            digits.len() == len - start,
            forall|j: int| 0 <= j < digits.len() ==> digits[j] == text@[j + start],
            forall|j: int| 0 <= j < i - start ==> is_digit(#[trigger] digits[j]),
            value == digits_value(digits.take(i - start)),
            0 <= value <= 0x8000_0000,
        decreases len - i,
    {
        let c = text.get_char(i);
        assert(digits[i - start] == c);
        if !('0' <= c && c <= '9') {
            assert(!is_digit(digits[i - start]));
            return None;
        }
        assert(digits.take(i - start + 1).drop_last() =~= digits.take(i - start));
        value = 10 * value + (c as u32 as i64 - 48);
        if value > 0x8000_0000 {
            proof {
                if forall|j: int| 0 <= j < digits.len() ==> is_digit(#[trigger] digits[j]) {
                    lemma_prefix_value(digits, i - start + 1);
                }
            }
            return None;
        }
        i += 1;
    }
    assert(digits.take(len - start) =~= digits);
    if negative {
        Some((-value) as i32)
    } else if value <= 0x7fff_ffff {
        Some(value as i32)
    } else {
        None
    }
}

/// The text of one decimal digit.
fn digit_text(digit: u128) -> (text: &'static str)
    requires
        digit < 10,
    ensures
        text@ == seq![('0' as int + digit) as char],
{
    proof {
        reveal_strlit("0");
        reveal_strlit("1");
        reveal_strlit("2");
        reveal_strlit("3");
        reveal_strlit("4");
        reveal_strlit("5");
        reveal_strlit("6");
        reveal_strlit("7");
        reveal_strlit("8");
        reveal_strlit("9");
    }
    if digit == 0 {
        "0"
    } else if digit == 1 {
        "1"
    } else if digit == 2 {
        "2"
    } else if digit == 3 {
        "3"
    } else if digit == 4 {
        "4"
    } else if digit == 5 {
        "5"
    } else if digit == 6 {
        "6"
    } else if digit == 7 {
        "7"
    } else if digit == 8 {
        "8"
    } else {
        "9"
    }
}

/// Writes a natural number in decimal.
pub fn decimal_natural(n: u128) -> (text: String)
    ensures
        text@ == decimal_text(n as int),
    decreases n,
{
    if n < 10 {
        digit_text(n).to_owned()
    } else {
        let mut text = decimal_natural(n / 10);
        text.append(digit_text(n % 10));
        assert(text@ =~= decimal_text(n as int));
        text
    }
}

/// Writes an integer in decimal.
pub fn decimal_integer(n: i64) -> (text: String)
    ensures
        text@ == decimal_text(n as int),
{
    if n < 0 {
        proof {
            reveal_strlit("-");
        }
        let mut text = "-".to_owned();
        assert(text@ =~= seq!['-']);
        let rest = decimal_natural((-(n as i128)) as u128);
        text.append(rest.as_str());
        text
    } else {
        decimal_natural(n as u128)
    }
}

/// The digits further left count for ten times as much per place: a row of digits put
/// before another adds its number, times ten for each digit of the other.
pub proof fn law_digits_have_place_value(front: Seq<char>, back: Seq<char>)
    ensures
        digits_value(front + back) == digits_value(front) * vstd::arithmetic::power::pow(
            10,
            back.len(),
        ) + digits_value(back),
    decreases back.len(),
{
    let all = front + back;
    if back.len() == 0 {
        assert(all =~= front);
        vstd::arithmetic::power::lemma_pow0(10);
    } else {
        let less = back.drop_last();
        let scale = vstd::arithmetic::power::pow(10, less.len());
        law_digits_have_place_value(front, less);
        assert(all.drop_last() =~= front + less);
        vstd::arithmetic::power::lemma_pow_adds(10, less.len(), 1);
        vstd::arithmetic::power::lemma_pow1(10);
        assert(digits_value(front) * (scale * 10) == 10 * (digits_value(front) * scale))
            by (nonlinear_arith);
    }
}

/// A single digit counts for the number that it shows, and no digits for nothing.
pub proof fn law_single_digits(digit: char)
    ensures
        digits_value(seq![digit]) == digit as int - 48,
        digits_value(Seq::empty()) == 0,
{
    reveal_with_fuel(digits_value, 2);
    assert(seq![digit].drop_last() =~= Seq::<char>::empty());
}

/// Whether `digits` is a row of at least one of the characters `0` to `9`.
pub open spec fn is_row_of_digits(digits: Seq<char>) -> bool {
    &&& digits.len() > 0
    &&& forall|i: int| 0 <= i < digits.len() ==> 48 <= (#[trigger] digits[i]) as int <= 57
}

/// A row of digits is read as its number where that fits, a plus sign before it changes
/// nothing, and a minus sign negates it.
pub proof fn law_signs_and_range(digits: Seq<char>)
    requires
        is_row_of_digits(digits),
    ensures
        i32_value(digits) == if digits_value(digits) <= 2147483647 {
            Some(digits_value(digits) as i32)
        } else {
            None
        },
        i32_value(seq!['+'] + digits) == i32_value(digits),
        i32_value(seq!['-'] + digits) == if digits_value(digits) <= 2147483648 {
            Some((-digits_value(digits)) as i32)
        } else {
            None
        },
{
    let plus = seq!['+'] + digits;
    let minus = seq!['-'] + digits;
    assert(plus.skip(1) =~= digits);
    assert(minus.skip(1) =~= digits);
    assert forall|i: int| 0 <= i < digits.len() implies is_digit(#[trigger] digits[i]) by {}
    assert(48 <= digits[0] as int <= 57);
    lemma_prefix_value(digits, digits.len() as int);
    assert(digits.take(digits.len() as int) =~= digits);
}

/// Nothing is read as a number but a row of digits, with or without one sign before it.
pub proof fn law_only_digits_are_numbers(text: Seq<char>)
    requires
        i32_value(text) is Some,
    ensures
        is_row_of_digits(text) || (text.len() > 1 && (text[0] == '+' || text[0] == '-')
            && is_row_of_digits(text.subrange(1, text.len() as int))),
{
    let digits = unsigned_part(text);
    assert forall|i: int| 0 <= i < digits.len() implies 48 <= (#[trigger] digits[i]) as int
        <= 57 by {
        assert(is_digit(digits[i]));
    }
    assert(text.skip(1) =~= text.subrange(1, text.len() as int));
}

/// The decimal text of a natural number is the only row of digits for it that does not
/// begin with a needless zero; that of a negative number has one minus sign before it.
pub proof fn law_decimal_text_is_shortest(n: int)
    requires
        n >= 0,
    ensures
        is_row_of_digits(decimal_text(n)),
        digits_value(decimal_text(n)) == n,
        n > 0 ==> decimal_text(n)[0] != '0',
        n == 0 ==> decimal_text(n).len() == 1,
        n > 0 ==> decimal_text(-n) == seq!['-'] + decimal_text(n),
    decreases n,
{
    lemma_natural_reads_back(n);
    let text = decimal_text(n);
    assert forall|i: int| 0 <= i < text.len() implies 48 <= (#[trigger] text[i]) as int
        <= 57 by {
        assert(is_digit(text[i]));
    }
    if n >= 10 {
        law_decimal_text_is_shortest(n / 10);
        assert(text[0] == decimal_text(n / 10)[0]);
    }
}

/// Only double quotes are cut off, at both ends, and all of them.
pub proof fn law_only_quotes_are_trimmed(text: Seq<char>)
    ensures
        exists|start: int, end: int|
            {
                &&& 0 <= start <= end <= text.len()
                &&& without_quotes(text) == #[trigger] text.subrange(start, end)
                &&& forall|i: int| 0 <= i < start ==> text[i] == '"'
                &&& forall|i: int| end <= i < text.len() ==> text[i] == '"'
                &&& start < end ==> text[start] != '"' && text[end - 1] != '"'
            },
{
    let start = leading_quotes(text) as int;
    lemma_leading_quotes(text);
    let rest = text.skip(start);
    lemma_trailing_quotes(rest);
    let end = text.len() - trailing_quotes(rest);
    assert(without_quotes(text) =~= text.subrange(start, end));
    assert forall|i: int| end <= i < text.len() implies text[i] == '"' by {
        assert(rest[i - start] == '"');
    }
    if start < end {
        assert(rest[end - start - 1] != '"');
    }
}

/// The leading quotes are quotes, and what follows them is not.
proof fn lemma_leading_quotes(text: Seq<char>)
    ensures
        leading_quotes(text) <= text.len(),
        forall|i: int| 0 <= i < leading_quotes(text) ==> text[i] == '"',
        leading_quotes(text) < text.len() ==> text[leading_quotes(text) as int] != '"',
    decreases text.len(),
{
    if text.len() > 0 && text[0] == '"' {
        let rest = text.skip(1);
        lemma_leading_quotes(rest);
        assert forall|i: int| 0 <= i < leading_quotes(text) implies text[i] == '"' by {
            if i > 0 {
                assert(rest[i - 1] == '"');
            }
        }
    }
}

/// The trailing quotes are quotes, and what comes before them is not.
proof fn lemma_trailing_quotes(text: Seq<char>)
    ensures
        trailing_quotes(text) <= text.len(),
        forall|i: int| text.len() - trailing_quotes(text) <= i < text.len() ==> text[i] == '"',
        trailing_quotes(text) < text.len() ==> text[text.len() - trailing_quotes(text) - 1] != '"',
    decreases text.len(),
{
    if text.len() > 0 && text.last() == '"' {
        let rest = text.drop_last();
        lemma_trailing_quotes(rest);
        assert forall|i: int|
            text.len() - trailing_quotes(text) <= i < text.len() implies text[i] == '"' by {
            if i < text.len() - 1 {
                assert(rest[i] == '"');
            }
        }
    }
}

} // verus!
