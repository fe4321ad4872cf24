//! The text of a sensor file: its first line, the signed decimal number
//! written on that line, and the decimal text of a number.

use vstd::prelude::*;
use vstd::std_specs::iter::IteratorSpec;
use vstd::string::StringExecFns;

verus! {

/// `c` is one of the ten decimal digits.
pub open spec fn is_digit(c: char) -> bool {
    '0' <= c <= '9'
}

/// The number that the digit `c` stands for.
pub open spec fn digit_value(c: char) -> nat
    recommends
        is_digit(c),
{
    (c as nat - '0' as nat) as nat
}

/// The digit that stands for `d`.
pub open spec fn digit_char(d: nat) -> char
    recommends
        d < 10,
{
    if d == 0 {
        '0'
    } else if d == 1 {
        '1'
    } else if d == 2 {
        '2'
    } else if d == 3 {
        '3'
    } else if d == 4 {
        '4'
    } else if d == 5 {
        '5'
    } else if d == 6 {
        '6'
    } else if d == 7 {
        '7'
    } else if d == 8 {
        '8'
    } else {
        '9'
    }
}

/// Every character of `s` is a decimal digit.
pub open spec fn all_digits(s: Seq<char>) -> bool {
    forall|i: int| 0 <= i < s.len() ==> is_digit(#[trigger] s[i])
}

/// The number that a run of decimal digits denotes, most significant digit
/// first. The empty run denotes zero.
pub open spec fn digits_value(s: Seq<char>) -> nat
    decreases s.len(),
{
    if s.len() == 0 {
        0
    } else {
        digits_value(s.drop_last()) * 10 + digit_value(s.last())
    }
}

/// The digits of a signed decimal number without its sign, if it has one.
pub open spec fn unsigned_part(line: Seq<char>) -> Seq<char> {
    if line.len() > 0 && (line[0] == '-' || line[0] == '+') {
        line.skip(1)
    } else {
        line
    }
}

/// `line` begins with a minus sign.
pub open spec fn is_negative(line: Seq<char>) -> bool {
    line.len() > 0 && line[0] == '-'
}

/// The number that `line` denotes with its sign, whatever its size.
pub open spec fn signed_value(line: Seq<char>) -> int {
    if is_negative(line) {
        -(digits_value(unsigned_part(line)) as int)
    } else {
        digits_value(unsigned_part(line)) as int
    }
}

/// `line` is a signed decimal number: an optional `+` or `-`, then one
/// decimal digit or more, and nothing else.
pub open spec fn is_signed_decimal(line: Seq<char>) -> bool {
    unsigned_part(line).len() > 0 && all_digits(unsigned_part(line))
}

/// The 32-bit number that `line` denotes, if it is a signed decimal number
/// within the range of one.
pub open spec fn parse_i32(line: Seq<char>) -> Option<i32> {
    if is_signed_decimal(line) && i32::MIN <= signed_value(line) <= i32::MAX {
        Some(signed_value(line) as i32)
    } else {
        None
    }
}

/// The number of characters before the first line feed of `text`, or the
/// length of `text` if it has none.
pub open spec fn line_end(text: Seq<char>) -> nat
    decreases text.len(),
{
    if text.len() == 0 || text[0] == '\n' {
        0
    } else {
        1 + line_end(text.drop_first())
    }
}

/// The first line of `text` without its line ending, which is a line feed
/// or a carriage return and a line feed. Empty text has no first line; a
/// last line needs no line ending and then keeps every character.
pub open spec fn first_line_of(text: Seq<char>) -> Option<Seq<char>> {
    let end = line_end(text) as int;
    if text.len() == 0 {
        None
    } else if end < text.len() && end > 0 && text[end - 1] == '\r' {
        Some(text.subrange(0, end - 1))
    } else {
        Some(text.subrange(0, end))
    }
}

/// The decimal digits of `n`, without leading zeros.
pub open spec fn digits_of(n: nat) -> Seq<char>
    decreases n,
{
    if n < 10 {
        seq![digit_char(n)]
    } else {
        digits_of(n / 10).push(digit_char(n % 10))
    }
}

/// The decimal text of `v`: its digits, after a minus sign if it is
/// negative.
pub open spec fn decimal_of(v: int) -> Seq<char> {
    if v < 0 {
        seq!['-'] + digits_of((-v) as nat)
    } else {
        digits_of(v as nat)
    }
}

/// Appending digits to a run of digits never makes its value smaller.
pub proof fn lemma_digits_value_grows(s: Seq<char>, t: Seq<char>)
    ensures
        digits_value(s + t) >= digits_value(s),
    decreases t.len(),
{
    if t.len() == 0 {
        assert(s + t =~= s);
    } else {
        assert((s + t).drop_last() =~= s + t.drop_last());
        lemma_digits_value_grows(s, t.drop_last());
    }
}

/// A position that has no line feed before it, and a line feed or the end
/// of the text at it, is where the first line ends.
pub proof fn lemma_line_end_is(text: Seq<char>, end: int)
    requires
        0 <= end <= text.len(),
        forall|i: int| 0 <= i < end ==> text[i] != '\n',
        end < text.len() ==> text[end] == '\n',
    ensures
        line_end(text) == end,
    decreases text.len(),
{
    if text.len() == 0 || text[0] == '\n' {
        if end > 0 {
            assert(text[0] != '\n');
        }
    } else {
        let rest = text.drop_first();
        assert(end > 0);
        assert forall|i: int| 0 <= i < end - 1 implies rest[i] != '\n' by {
            assert(rest[i] == text[i + 1]);
        }
        lemma_line_end_is(rest, end - 1);
    }
}

/// The digits of a number are digits, at least one of them, and they
/// denote that number.
pub proof fn lemma_digits_of(n: nat)
    ensures
        digits_of(n).len() > 0,
        all_digits(digits_of(n)),
        digits_value(digits_of(n)) == n,
    decreases n,
{
    if n < 10 {
        let s = seq![digit_char(n)];
        assert(s.drop_last() =~= Seq::<char>::empty());
        assert(digits_value(s.drop_last()) == 0);
        assert(s.last() == digit_char(n));
    } else {
        lemma_digits_of(n / 10);
        let front = digits_of(n / 10);
        let s = front.push(digit_char(n % 10));
        assert(s.drop_last() =~= front);
        assert(s.last() == digit_char(n % 10));
    }
}

/// The decimal text of a number is a signed decimal number with that
/// value, and holds no line ending.
pub proof fn lemma_decimal_of(v: int)
    ensures
        is_signed_decimal(decimal_of(v)),
        signed_value(decimal_of(v)) == v,
        forall|i: int|
            0 <= i < decimal_of(v).len() ==> (#[trigger] decimal_of(v)[i]) != '\n' && decimal_of(
                v,
            )[i] != '\r',
        decimal_of(v).len() > 0,
{
    let text = decimal_of(v);
    if v < 0 {
        let body = digits_of((-v) as nat);
        lemma_digits_of((-v) as nat);
        assert(text.skip(1) =~= body);
        assert(text[0] == '-');
        assert forall|i: int| 0 <= i < text.len() implies (#[trigger] text[i]) != '\n' && text[i]
            != '\r' by {
            if i > 0 {
                assert(text[i] == body[i - 1]);
                assert(is_digit(body[i - 1]));
            }
        }
    } else {
        lemma_digits_of(v as nat);
        assert(is_digit(text[0]));
        assert forall|i: int| 0 <= i < text.len() implies (#[trigger] text[i]) != '\n' && text[i]
            != '\r' by {
            assert(is_digit(text[i]));
        }
    }
}

/// What is written is read back: the decimal text of a 32-bit number,
/// alone or followed by a line feed and anything after it, has that text as
/// its first line, and the line denotes the number.
pub proof fn lemma_written_number_reads_back(v: i32, rest: Seq<char>)
    ensures
        parse_i32(decimal_of(v as int)) == Some(v),
        first_line_of(decimal_of(v as int)) == Some(decimal_of(v as int)),
        first_line_of(decimal_of(v as int) + seq!['\n'] + rest) == Some(decimal_of(v as int)),
{
    let number = decimal_of(v as int);
    lemma_decimal_of(v as int);
    lemma_line_end_is(number, number.len() as int);
    assert(number.subrange(0, number.len() as int) =~= number);
    let text = number + seq!['\n'] + rest;
    assert forall|i: int| 0 <= i < number.len() implies text[i] != '\n' by {
        assert(text[i] == number[i]);
    }
    assert(text[number.len() as int] == '\n');
    lemma_line_end_is(text, number.len() as int);
    assert(text[number.len() - 1] == number[number.len() - 1]);
    assert(text.subrange(0, number.len() as int) =~= number);
}

/// The first line of `text`, if it has one.
pub fn read_first_line(text: &str) -> (line: Option<String>)
    ensures
        line.deep_view() == first_line_of(text@),
{
    let total: usize = text.unicode_len();
    let mut chars = text.chars();
    let mut end: usize = 0;
    let mut after_return: bool = false;
    let mut found: bool = false;
    let ghost mut seen: Seq<char> = Seq::empty();
    loop
        invariant_except_break
            !found,
            chars.obeys_prophetic_iter_laws(),
            chars.decrease() is Some,
            seen + chars.remaining() == text@,
            end == seen.len(),
        invariant
            total == text@.len(),
            end <= total,
            forall|i: int| 0 <= i < end ==> text@[i] != '\n',
            after_return <==> (end > 0 && text@[end - 1] == '\r'),
        ensures
            found ==> end < total && text@[end as int] == '\n',
            !found ==> end == total,
        decreases chars.decrease()->0,
    {
        match chars.next() {
            None => {
                break ;
            },
            Some(c) => {
                assert(text@[end as int] == c);
                if c == '\n' {
                    found = true;
                    break ;
                }
                proof {
                    seen = seen.push(c);
                    assert(seen + chars.remaining() =~= text@);
                }
                after_return = c == '\r';
                end = end + 1;
            },
        }
    }
    proof {
        lemma_line_end_is(text@, end as int);
    }
    if total == 0 {
        return None;
    }
    let stop: usize = if found && after_return {
        end - 1
    } else {
        end
    };
    let line = text.substring_char(0, stop);
    Some(String::from_str(line))
}

/// The 32-bit number that `line` denotes, if it denotes one.
pub fn parse_signed(line: &str) -> (value: Option<i32>)
    ensures
        value == parse_i32(line@),
{
    let mut chars = line.chars();
    let first = match chars.next() {
        None => {
            return None;
        },
        Some(c) => c,
    };
    let negative: bool = first == '-';
    let signed: bool = negative || first == '+';
    let mut magnitude: i64 = 0;
    let mut count: usize = 0;
    let ghost mut seen: Seq<char> = Seq::empty();
    let ghost lead: Seq<char> = seq![first];
    if !signed {
        if first < '0' || first > '9' {
            assert(!is_digit(unsigned_part(line@)[0]));
            return None;
        }
        magnitude = (first as u32 - '0' as u32) as i64;
        count = 1;
        proof {
            seen = seq![first];
            assert(seen.drop_last() =~= Seq::<char>::empty());
            assert(digits_value(seen.drop_last()) == 0);
        }
    }
    assert(seen + chars.remaining() =~= unsigned_part(line@));
    loop
        invariant
            chars.obeys_prophetic_iter_laws(),
            chars.decrease() is Some,
            seen + chars.remaining() == unsigned_part(line@),
            all_digits(seen),
            magnitude == digits_value(seen),
            0 <= magnitude <= 2147483648,
            count <= 1,
            count == 0 <==> seen.len() == 0,
            negative == is_negative(line@),
        decreases chars.decrease()->0,
    {
        match chars.next() {
            None => {
                assert(seen =~= unsigned_part(line@));
                if count == 0 {
                    return None;
                }
                if negative {
                    return Some((-magnitude) as i32);
                }
                if magnitude > 2147483647 {
                    return None;
                }
                return Some(magnitude as i32);
            },
            Some(c) => {
                assert(unsigned_part(line@)[seen.len() as int] == c);
                if c < '0' || c > '9' {
                    return None;
                }
                let ghost before = seen;
                proof {
                    seen = seen.push(c);
                    assert(seen.drop_last() =~= before);
                    assert(seen + chars.remaining() =~= unsigned_part(line@));
                }
                magnitude = magnitude * 10 + (c as u32 - '0' as u32) as i64;
                count = 1;
                if magnitude > 2147483648 {
                    proof {
                        lemma_digits_value_grows(seen, chars.remaining());
                    }
                    return None;
                }
            },
        }
    }
}

/// The text of one decimal digit.
fn digit_text(d: u64) -> (text: &'static str)
    requires
        d < 10,
    ensures
        text@ == seq![digit_char(d as nat)],
{
    proof {
        reveal_strlit("0");
        reveal_strlit("1");
        reveal_strlit("2");
        reveal_strlit("3");
        reveal_strlit("4");
        reveal_strlit("5");
        reveal_strlit("6");
        reveal_strlit("7");
        reveal_strlit("8");
        reveal_strlit("9");
    }
    let text = if d == 0 {
        "0"
    } else if d == 1 {
        "1"
    } else if d == 2 {
        "2"
    } else if d == 3 {
        "3"
    } else if d == 4 {
        "4"
    } else if d == 5 {
        "5"
    } else if d == 6 {
        "6"
    } else if d == 7 {
        "7"
    } else if d == 8 {
        "8"
    } else {
        "9"
    };
    assert(text@ =~= seq![digit_char(d as nat)]);
    text
}

/// Appends the decimal digits of `n` to `out`.
fn push_digits(out: &mut String, n: u64)
    ensures
        final(out)@ == old(out)@ + digits_of(n as nat),
    decreases n,
{
    if n >= 10 {
        push_digits(out, n / 10);
    }
    out.append(digit_text(n % 10));
    proof {
        if n >= 10 {
            assert(final(out)@ =~= old(out)@ + digits_of(n as nat));
        }
    }
}

/// The decimal text of `value`.
pub fn write_decimal(value: i32) -> (text: String)
    ensures
        text@ == decimal_of(value as int),
{
    let mut text = String::new();
    let wide: i64 = value as i64;
    if wide < 0 {
        proof {
            reveal_strlit("-");
        }
        text.append("-");
        push_digits(&mut text, (-wide) as u64);
        assert(text@ =~= decimal_of(value as int));
    } else {
        push_digits(&mut text, wide as u64);
        assert(text@ =~= decimal_of(value as int));
    }
    text
}

} // verus!
