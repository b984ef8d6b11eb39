//! The notation of durations: which texts add up to a time that can be counted.
//!
//! Texts are read by the `humantime` crate. This module only tells apart the ones that it
//! cannot take, those whose time spans lead exactly to the end of what a `Duration` can
//! count.

use vstd::prelude::*;
use vstd::string::*;

use crate::text::{decimal, digit_char, same_text};

verus! {

/// The nanoseconds in a unit of time, by the words that stand for it.
pub open spec fn unit_nanos(word: Seq<char>) -> Option<nat> {
    if word == "nanos"@ || word == "nsec"@ || word == "ns"@ {
        Some(1)
    } else if word == "usec"@ || word == "us"@ || word == "\u{b5}s"@ {
        Some(1_000)
    } else if word == "millis"@ || word == "msec"@ || word == "ms"@ {
        Some(1_000_000)
    } else if word == "seconds"@ || word == "second"@ || word == "secs"@ || word == "sec"@ || word
        == "s"@ {
        Some(1_000_000_000)
    } else if word == "minutes"@ || word == "minute"@ || word == "min"@ || word == "mins"@ || word
        == "m"@ {
        Some(60_000_000_000)
    } else if word == "hours"@ || word == "hour"@ || word == "hr"@ || word == "hrs"@ || word
        == "h"@ {
        Some(3_600_000_000_000)
    } else if word == "days"@ || word == "day"@ || word == "d"@ {
        Some(86_400_000_000_000)
    } else if word == "weeks"@ || word == "week"@ || word == "wk"@ || word == "wks"@ || word
        == "w"@ {
        Some(604_800_000_000_000)
    } else if word == "months"@ || word == "month"@ || word == "M"@ {
        Some(2_630_016_000_000_000)
    } else if word == "years"@ || word == "year"@ || word == "yr"@ || word == "yrs"@ || word
        == "y"@ {
        Some(31_557_600_000_000_000)
    } else {
        None
    }
}

/// One nanosecond more than a `Duration` can count: `u64::MAX` seconds and one more.
pub const DURATION_END: u128 = 18_446_744_073_709_551_616_000_000_000;

/// The nanoseconds in a second.
pub const SECOND: u128 = 1_000_000_000;

/// The nanoseconds in an hour.
pub const HOUR: u128 = 3_600_000_000_000;

/// A time span of a text: a number, perhaps with a fraction, and its unit. Without a
/// fraction the denominator is zero.
pub struct Span {
    pub number: nat,
    pub numerator: nat,
    pub denominator: nat,
    pub unit: Seq<char>,
}

/// What the time spans of a text add up to.
pub enum Sum {
    /// So many nanoseconds, less than [`DURATION_END`].
    Total(nat),
    /// The text is no duration, or more than a `Duration` can count.
    Refused,
    /// The last step, of a second at most and not counted in seconds, leads from within the
    /// last second that a `Duration` can count to its very end.
    Overflow,
}

/// Adds a part of a time span to the time before it: a count of seconds or of nanoseconds.
/// Neither the count nor its sum with the nanoseconds before it may exceed a `u64`. A count
/// of seconds does not lead to the end step by step.
pub open spec fn add_part(total: nat, count: nat, in_seconds: bool) -> Sum {
    if count > u64::MAX {
        Sum::Refused
    } else if in_seconds {
        if total + count * SECOND < DURATION_END {
            Sum::Total(total + count * SECOND as nat)
        } else {
            Sum::Refused
        }
    } else if total % (SECOND as nat) + count > u64::MAX {
        Sum::Refused
    } else if total + count < DURATION_END {
        Sum::Total(total + count)
    } else if total + count == DURATION_END && count <= SECOND {
        Sum::Overflow
    } else {
        Sum::Refused
    }
}

/// A unit of so many nanoseconds, in seconds or in nanoseconds.
pub open spec fn unit_count(unit: nat, in_seconds: bool) -> nat {
    if in_seconds {
        unit / (SECOND as nat)
    } else {
        unit
    }
}

/// Adds a time span to the time before it: its number first, and then its fraction.
/// Nanoseconds have no fraction; that of an hour or of a longer unit has to be a whole number
/// of seconds, every other one a whole number of nanoseconds.
pub open spec fn add_span(total: nat, span: Span) -> Sum {
    match unit_nanos(span.unit) {
        None => Sum::Refused,
        Some(unit) => match add_part(
            total,
            span.number * unit_count(unit, unit >= SECOND),
            unit >= SECOND,
        ) {
            Sum::Total(sum) => {
                let scaled = span.numerator * unit_count(unit, unit >= HOUR);
                if span.denominator == 0 {
                    Sum::Total(sum)
                } else if unit == 1 || scaled > u64::MAX || scaled % span.denominator != 0 {
                    Sum::Refused
                } else {
                    add_part(sum, scaled / span.denominator, unit >= HOUR)
                }
            },
            other => other,
        },
    }
}

/// How far a text has been read: what its complete time spans add up to, and the time span
/// that is not complete.
pub struct Reading {
    pub sum: Sum,
    pub span: Option<Span>,
}

/// A time span that begins with a digit.
pub open spec fn first_digit(digit: nat) -> Span {
    Span { number: digit, numerator: 0, denominator: 0, unit: Seq::empty() }
}

/// A reading that goes no further.
pub open spec fn refused() -> Reading {
    Reading { sum: Sum::Refused, span: None }
}

/// Ends the time span that is being read, if there is one, and begins another.
pub open spec fn end_span(reading: Reading, next: Option<Span>) -> Reading {
    match (reading.sum, reading.span) {
        (Sum::Total(total), Some(span)) => Reading { sum: add_span(total, span), span: next },
        _ => Reading { span: next, ..reading },
    }
}

/// Reads a digit: of a number, of a fraction, or the first one behind a unit.
pub open spec fn read_digit(reading: Reading, digit: nat) -> Reading {
    match reading.span {
        None => Reading { span: Some(first_digit(digit)), ..reading },
        Some(span) => if span.unit.len() > 0 {
            end_span(reading, Some(first_digit(digit)))
        } else if span.denominator > 0 {
            let numerator = span.numerator * 10 + digit;
            let denominator = span.denominator * 10;
            if numerator > u64::MAX || denominator > u64::MAX {
                refused()
            } else {
                Reading { span: Some(Span { numerator, denominator, ..span }), ..reading }
            }
        } else {
            let number = span.number * 10 + digit;
            if number > u64::MAX {
                refused()
            } else {
                Reading { span: Some(Span { number, ..span }), ..reading }
            }
        },
    }
}

/// Whether units are written with a character.
pub open spec fn is_unit_letter(c: char) -> bool {
    ('a' <= c && c <= 'z') || ('A' <= c && c <= 'Z') || c == '\u{b5}'
}

/// Whether a character is white space, which may stand between the parts of a text: in
/// Unicode, the characters with the property `White_Space`.
pub open spec fn is_blank(c: char) -> bool {
    ||| '\u{9}' <= c && c <= '\u{d}'
    ||| c == ' '
    ||| c == '\u{85}'
    ||| c == '\u{a0}'
    ||| c == '\u{1680}'
    ||| '\u{2000}' <= c && c <= '\u{200a}'
    ||| c == '\u{2028}'
    ||| c == '\u{2029}'
    ||| c == '\u{202f}'
    ||| c == '\u{205f}'
    ||| c == '\u{3000}'
}

/// Reads one more character.
pub open spec fn read_char(reading: Reading, c: char) -> Reading {
    if !(reading.sum is Total) {
        reading
    } else if '0' <= c && c <= '9' {
        read_digit(reading, (c as nat - '0' as nat) as nat)
    } else if is_unit_letter(c) {
        match reading.span {
            Some(span) => if span.denominator == 1 {
                refused()
            } else {
                Reading { span: Some(Span { unit: span.unit.push(c), ..span }), ..reading }
            },
            None => refused(),
        }
    } else if c == '.' {
        match reading.span {
            Some(span) => if span.unit.len() == 0 && span.denominator == 0 {
                Reading { span: Some(Span { denominator: 1, ..span }), ..reading }
            } else {
                refused()
            },
            None => refused(),
        }
    } else if is_blank(c) {
        match reading.span {
            Some(span) => if span.unit.len() > 0 {
                end_span(reading, None)
            } else {
                reading
            },
            None => reading,
        }
    } else {
        refused()
    }
}

/// Reads a text.
pub open spec fn reading(text: Seq<char>) -> Reading
    decreases text.len(),
{
    if text.len() == 0 {
        Reading { sum: Sum::Total(0), span: None }
    } else {
        read_char(reading(text.drop_last()), text.last())
    }
}

/// Whether the time spans of a text can be added up without a step to the very end of what a
/// `Duration` can count.
pub open spec fn countable(text: Seq<char>) -> bool {
    !(end_span(reading(text), None).sum is Overflow)
}

fn unit_nanos_of(word: &str) -> (nanos: Option<u128>)
    ensures
        match nanos {
            Some(nanos) => unit_nanos(word@) == Some(nanos as nat) && nanos
                <= 31_557_600_000_000_000,
            None => unit_nanos(word@) is None,
        },
{
    if same_text(word, "nanos") || same_text(word, "nsec") || same_text(word, "ns") {
        Some(1)
    } else if same_text(word, "usec") || same_text(word, "us") || same_text(word, "\u{b5}s") {
        Some(1_000)
    } else if same_text(word, "millis") || same_text(word, "msec") || same_text(word, "ms") {
        Some(1_000_000)
    } else if same_text(word, "seconds") || same_text(word, "second") || same_text(word, "secs")
        || same_text(word, "sec") || same_text(word, "s") {
        Some(1_000_000_000)
    } else if same_text(word, "minutes") || same_text(word, "minute") || same_text(word, "min")
        || same_text(word, "mins") || same_text(word, "m") {
        Some(60_000_000_000)
    } else if same_text(word, "hours") || same_text(word, "hour") || same_text(word, "hr")
        || same_text(word, "hrs") || same_text(word, "h") {
        Some(3_600_000_000_000)
    } else if same_text(word, "days") || same_text(word, "day") || same_text(word, "d") {
        Some(86_400_000_000_000)
    } else if same_text(word, "weeks") || same_text(word, "week") || same_text(word, "wk")
        || same_text(word, "wks") || same_text(word, "w") {
        Some(604_800_000_000_000)
    } else if same_text(word, "months") || same_text(word, "month") || same_text(word, "M") {
        Some(2_630_016_000_000_000)
    } else if same_text(word, "years") || same_text(word, "year") || same_text(word, "yr")
        || same_text(word, "yrs") || same_text(word, "y") {
        Some(31_557_600_000_000_000)
    } else {
        None
    }
}

/// A [`Sum`] that code can hold.
#[derive(Clone, Copy)]
enum SumSoFar {
    Total(u128),
    Refused,
    Overflow,
}

impl View for SumSoFar {
    type V = Sum;

    closed spec fn view(&self) -> Sum {
        match self {
            SumSoFar::Total(total) => Sum::Total(*total as nat),
            SumSoFar::Refused => Sum::Refused,
            SumSoFar::Overflow => Sum::Overflow,
        }
    }
}

fn sum_with_part(total: u128, count: u128, in_seconds: bool) -> (sum: SumSoFar)
    requires
        total < DURATION_END,
    ensures
        sum@ == add_part(total as nat, count as nat, in_seconds),
{
    let longest: u128 = u64::MAX as u128;
    if count > longest {
        SumSoFar::Refused
    } else if in_seconds {
        let sum: u128 = total + count * SECOND;
        if sum < DURATION_END {
            SumSoFar::Total(sum)
        } else {
            SumSoFar::Refused
        }
    } else if total % SECOND + count > longest {
        SumSoFar::Refused
    } else {
        let sum: u128 = total + count;
        if sum < DURATION_END {
            SumSoFar::Total(sum)
        } else if sum == DURATION_END && count <= SECOND {
            SumSoFar::Overflow
        } else {
            SumSoFar::Refused
        }
    }
}

/// So many units of so many nanoseconds, in seconds or in nanoseconds.
fn scaled_by_unit(number: u64, unit: u128, in_seconds: bool) -> (count: u128)
    requires
        unit <= 31_557_600_000_000_000,
    ensures
        count == number * unit_count(unit as nat, in_seconds),
{
    let scale: u128 = if in_seconds {
        unit / SECOND
    } else {
        unit
    };
    assert(number * scale <= 0xffff_ffff_ffff_ffff * 31_557_600_000_000_000) by (nonlinear_arith)
        requires
            number <= 0xffff_ffff_ffff_ffff,
            scale <= 31_557_600_000_000_000,
    ;
    number as u128 * scale
}

fn sum_with_span(
    total: u128,
    number: u64,
    numerator: u64,
    denominator: u64,
    unit: &str,
) -> (sum: SumSoFar)
    requires
        total < DURATION_END,
    ensures
        sum@ == add_span(
            total as nat,
            Span {
                number: number as nat,
                numerator: numerator as nat,
                denominator: denominator as nat,
                unit: unit@,
            },
        ),
{
    let unit: u128 = match unit_nanos_of(unit) {
        Some(nanos) => nanos,
        None => return SumSoFar::Refused,
    };
    let count: u128 = scaled_by_unit(number, unit, unit >= SECOND);
    let sum = sum_with_part(total, count, unit >= SECOND);
    match sum {
        SumSoFar::Total(total) => {
            if denominator == 0 {
                return sum;
            }
            let scaled: u128 = scaled_by_unit(numerator, unit, unit >= HOUR);
            if unit == 1 || scaled > u64::MAX as u128 || scaled % (denominator as u128) != 0 {
                return SumSoFar::Refused;
            }
            sum_with_part(total, scaled / (denominator as u128), unit >= HOUR)
        },
        _ => sum,
    }
}

/// A text that is refused, or that overflows, does so however it goes on.
proof fn lemma_reading_is_over(text: Seq<char>, end: int)
    requires
        0 <= end <= text.len(),
        !(reading(text.take(end)).sum is Total),
    ensures
        reading(text).sum == reading(text.take(end)).sum,
    decreases text.len() - end,
{
    if end < text.len() {
        assert(text.take(end + 1).drop_last() =~= text.take(end));
        lemma_reading_is_over(text, end + 1);
    } else {
        assert(text.take(end) =~= text);
    }
}

/// Whether a text may be read as a duration.
pub fn is_countable(text: &str) -> (fits: bool)
    ensures
        fits == countable(text@),
{
    let length: usize = text.unicode_len();
    let mut total: u128 = 0;
    let mut in_span = false;
    let mut in_unit = false;
    let mut number: u64 = 0;
    let mut numerator: u64 = 0;
    let mut denominator: u64 = 0;
    let mut unit_start: usize = 0;
    let mut i: usize = 0;
    assert(text@.take(0) =~= Seq::<char>::empty());
    while i < length
        invariant
            length == text@.len(),
            i <= length,
            total < DURATION_END,
            in_unit ==> in_span && unit_start < i,
            reading(text@.take(i as int)) == (Reading {
                sum: Sum::Total(total as nat),
                span: if in_span {
                    Some(
                        Span {
                            number: number as nat,
                            numerator: numerator as nat,
                            denominator: denominator as nat,
                            unit: if in_unit {
                                text@.subrange(unit_start as int, i as int)
                            } else {
                                Seq::empty()
                            },
                        },
                    )
                } else {
                    None
                },
            }),
        decreases length - i,
    {
        let c = text.get_char(i);
        let digit = '0' <= c && c <= '9';
        let letter = ('a' <= c && c <= 'z') || ('A' <= c && c <= 'Z') || c == '\u{b5}';
        let blank = ('\u{9}' <= c && c <= '\u{d}') || c == ' ' || c == '\u{85}' || c == '\u{a0}'
            || c == '\u{1680}' || ('\u{2000}' <= c && c <= '\u{200a}') || c == '\u{2028}' || c
            == '\u{2029}' || c == '\u{202f}' || c == '\u{205f}' || c == '\u{3000}';
        let ghost before = reading(text@.take(i as int));
        proof {
            assert(text@.take(i + 1).drop_last() =~= text@.take(i as int));
            assert(text@.take(i + 1).last() == c);
            if !(reading(text@.take(i + 1)).sum is Total) {
                lemma_reading_is_over(text@, i + 1);
            }
        }
        if in_unit && (digit || blank) {
            let unit = text.substring_char(unit_start, i);
            match sum_with_span(total, number, numerator, denominator, unit) {
                SumSoFar::Total(sum) => {
                    total = sum;
                },
                SumSoFar::Refused => {
                    return true;
                },
                SumSoFar::Overflow => {
                    return false;
                },
            }
            in_span = false;
            in_unit = false;
        }
        if digit {
            let value: u64 = c as u64 - '0' as u64;
            if !in_span {
                in_span = true;
                number = value;
                numerator = 0;
                denominator = 0;
            } else if denominator > 0 {
                let next: u128 = numerator as u128 * 10 + value as u128;
                let scale: u128 = denominator as u128 * 10;
                if next > u64::MAX as u128 || scale > u64::MAX as u128 {
                    return true;
                }
                numerator = next as u64;
                denominator = scale as u64;
            } else {
                let next: u128 = number as u128 * 10 + value as u128;
                if next > u64::MAX as u128 {
                    return true;
                }
                number = next as u64;
            }
        } else if letter {
            if !in_span || denominator == 1 {
                return true;
            }
            if !in_unit {
                in_unit = true;
                unit_start = i;
                assert(text@.subrange(i as int, i + 1) =~= Seq::<char>::empty().push(c));
            } else {
                assert(text@.subrange(unit_start as int, i + 1) =~= text@.subrange(
                    unit_start as int,
                    i as int,
                ).push(c));
            }
        } else if c == '.' {
            if !in_span || in_unit || denominator > 0 {
                return true;
            }
            denominator = 1;
        } else if !blank {
            return true;
        }
        i = i + 1;
    }
    assert(text@.take(length as int) =~= text@);
    if !in_span {
        return true;
    }
    let unit = if in_unit {
        text.substring_char(unit_start, length)
    } else {
        ""
    };
    proof {
        reveal_strlit("");
        assert(!in_unit ==> unit@ =~= Seq::<char>::empty());
    }
    match sum_with_span(total, number, numerator, denominator, unit) {
        SumSoFar::Overflow => false,
        _ => true,
    }
}

/// A number behind complete time spans begins another one.
proof fn lemma_number_is_read(before: Seq<char>, total: nat, number: nat)
    requires
        reading(before) == (Reading { sum: Sum::Total(total), span: None }),
        number <= u64::MAX,
    ensures
        reading(before + decimal(number)) == (Reading {
            sum: Sum::Total(total),
            span: Some(first_digit(number)),
        }),
    decreases number,
{
    let text = before + decimal(number);
    assert('0' <= digit_char(number % 10) <= '9');
    assert(digit_char(number % 10) as nat - '0' as nat == number % 10);
    if number < 10 {
        assert(text.drop_last() =~= before);
        assert(text.last() == digit_char(number));
    } else {
        lemma_number_is_read(before, total, number / 10);
        assert(text.drop_last() =~= before + decimal(number / 10));
        assert(text.last() == digit_char(number % 10));
        assert(number == (number / 10) * 10 + number % 10);
    }
}

/// Letters behind a number are its unit.
proof fn lemma_unit_is_read(before: Seq<char>, total: nat, number: nat, unit: Seq<char>)
    requires
        reading(before) == (Reading {
            sum: Sum::Total(total),
            span: Some(first_digit(number)),
        }),
        forall|i: int| 0 <= i < unit.len() ==> is_unit_letter(#[trigger] unit[i]),
    ensures
        reading(before + unit) == (Reading {
            sum: Sum::Total(total),
            span: Some(Span { unit, ..first_digit(number) }),
        }),
    decreases unit.len(),
{
    if unit.len() == 0 {
        assert(before + unit =~= before);
        assert(unit =~= Seq::<char>::empty());
    } else {
        let shorter = unit.drop_last();
        assert forall|i: int| 0 <= i < shorter.len() implies is_unit_letter(#[trigger] shorter[i])
            by {
            assert(shorter[i] == unit[i]);
        }
        lemma_unit_is_read(before, total, number, shorter);
        assert((before + unit).drop_last() =~= before + shorter);
        assert(is_unit_letter(unit[unit.len() - 1]));
        assert(shorter.push(unit.last()) =~= unit);
    }
}

/// A single time span without a fraction can be counted, however large its number and
/// whatever its unit.
pub proof fn law_single_span_is_countable(number: u64, unit: Seq<char>)
    requires
        forall|i: int|
            0 <= i < unit.len() ==> 'a' <= #[trigger] unit[i] <= 'z' || 'A' <= unit[i] <= 'Z',
    ensures
        countable(decimal(number as nat) + unit),
{
    let none = Seq::<char>::empty();
    lemma_number_is_read(none, 0, number as nat);
    assert(none + decimal(number as nat) =~= decimal(number as nat));
    lemma_unit_is_read(decimal(number as nat), 0, number as nat, unit);
}

/// The words for nanoseconds, microseconds, milliseconds and seconds.
proof fn lemma_short_units(unit: Seq<char>, nanos: nat)
    requires
        ({
            ||| nanos == 1 && (unit == "nanos"@ || unit == "nsec"@ || unit == "ns"@)
            ||| nanos == 1_000 && (unit == "usec"@ || unit == "us"@ || unit == "\u{b5}s"@)
            ||| nanos == 1_000_000 && (unit == "millis"@ || unit == "msec"@ || unit == "ms"@)
        }),
    ensures
        unit_nanos(unit) == Some(nanos),
        unit.len() > 0,
        forall|i: int| 0 <= i < unit.len() ==> is_unit_letter(#[trigger] unit[i]),
        "s"@ =~= seq!['s'],
        unit_nanos("s"@) == Some(1_000_000_000nat),
{
    reveal_strlit("nanos");
    reveal_strlit("nsec");
    reveal_strlit("ns");
    reveal_strlit("usec");
    reveal_strlit("us");
    reveal_strlit("\u{b5}s");
    reveal_strlit("millis");
    reveal_strlit("msec");
    reveal_strlit("ms");
    reveal_strlit("seconds");
    reveal_strlit("second");
    reveal_strlit("secs");
    reveal_strlit("sec");
    reveal_strlit("s");
    assert("s"@.len() == 1);
    assert("ms"@.len() == 2 && "ms"@[0] == 'm');
    assert("ns"@.len() == 2 && "ns"@[0] == 'n');
    assert("us"@.len() == 2 && "us"@[0] == 'u');
    assert("\u{b5}s"@.len() == 2 && "\u{b5}s"@[0] == '\u{b5}');
    assert("nanos"@.len() == 5 && "millis"@.len() == 6);
    assert("nsec"@.len() == 4 && "nsec"@[0] == 'n');
    assert("usec"@.len() == 4 && "usec"@[0] == 'u');
    assert("msec"@.len() == 4 && "msec"@[0] == 'm');
}

/// Seconds followed by a number of smaller units can be counted, unless there are as many
/// seconds as a `Duration` can count and the smaller units are exactly one second more.
pub proof fn law_seconds_and_smaller_units(
    seconds: u64,
    number: u64,
    unit: Seq<char>,
    nanos: nat,
)
    requires
        ({
            ||| nanos == 1 && (unit == "nanos"@ || unit == "nsec"@ || unit == "ns"@)
            ||| nanos == 1_000 && (unit == "usec"@ || unit == "us"@ || unit == "\u{b5}s"@)
            ||| nanos == 1_000_000 && (unit == "millis"@ || unit == "msec"@ || unit == "ms"@)
        }),
    ensures
        countable(decimal(seconds as nat) + "s"@ + seq![' '] + decimal(number as nat) + unit)
            <==> !(seconds == 0xffff_ffff_ffff_ffff && number * nanos == 1_000_000_000),
{
    lemma_short_units(unit, nanos);
    let none = Seq::<char>::empty();
    let first = decimal(seconds as nat);
    let total = (seconds * 1_000_000_000) as nat;
    lemma_number_is_read(none, 0, seconds as nat);
    assert(none + first =~= first);
    lemma_unit_is_read(first, 0, seconds as nat, "s"@);
    let spaced = first + "s"@ + seq![' '];
    assert(spaced.drop_last() =~= first + "s"@);
    assert(spaced.last() == ' ');
    assert(seconds as nat * unit_count(1_000_000_000, true) == seconds) by (nonlinear_arith)
        requires
            unit_count(1_000_000_000, true) == 1,
    ;
    let span = Span { unit: "s"@, ..first_digit(seconds as nat) };
    assert(add_span(0, span) == Sum::Total(total));
    assert(reading(spaced) == (Reading { sum: Sum::Total(total), span: None }));
    lemma_number_is_read(spaced, total, number as nat);
    lemma_unit_is_read(spaced + decimal(number as nat), total, number as nat, unit);
    assert(total % 1_000_000_000 == 0);
}

/// There is no unit without letters.
proof fn lemma_no_empty_unit()
    ensures
        unit_nanos(Seq::empty()) is None,
{
    reveal_strlit("nanos");
    reveal_strlit("nsec");
    reveal_strlit("ns");
    reveal_strlit("usec");
    reveal_strlit("us");
    reveal_strlit("\u{b5}s");
    reveal_strlit("millis");
    reveal_strlit("msec");
    reveal_strlit("ms");
    reveal_strlit("seconds");
    reveal_strlit("second");
    reveal_strlit("secs");
    reveal_strlit("sec");
    reveal_strlit("s");
    reveal_strlit("minutes");
    reveal_strlit("minute");
    reveal_strlit("min");
    reveal_strlit("mins");
    reveal_strlit("m");
    reveal_strlit("hours");
    reveal_strlit("hour");
    reveal_strlit("hr");
    reveal_strlit("hrs");
    reveal_strlit("h");
    reveal_strlit("days");
    reveal_strlit("day");
    reveal_strlit("d");
    reveal_strlit("weeks");
    reveal_strlit("week");
    reveal_strlit("wk");
    reveal_strlit("wks");
    reveal_strlit("w");
    reveal_strlit("months");
    reveal_strlit("month");
    reveal_strlit("M");
    reveal_strlit("years");
    reveal_strlit("year");
    reveal_strlit("yr");
    reveal_strlit("yrs");
    reveal_strlit("y");
    assert("nanos"@.len() > 0);
    assert("nsec"@.len() > 0);
    assert("ns"@.len() > 0);
    assert("usec"@.len() > 0);
    assert("us"@.len() > 0);
    assert("\u{b5}s"@.len() > 0);
    assert("millis"@.len() > 0);
    assert("msec"@.len() > 0);
    assert("ms"@.len() > 0);
    assert("seconds"@.len() > 0);
    assert("second"@.len() > 0);
    assert("secs"@.len() > 0);
    assert("sec"@.len() > 0);
    assert("s"@.len() > 0);
    assert("minutes"@.len() > 0);
    assert("minute"@.len() > 0);
    assert("min"@.len() > 0);
    assert("mins"@.len() > 0);
    assert("m"@.len() > 0);
    assert("hours"@.len() > 0);
    assert("hour"@.len() > 0);
    assert("hr"@.len() > 0);
    assert("hrs"@.len() > 0);
    assert("h"@.len() > 0);
    assert("days"@.len() > 0);
    assert("day"@.len() > 0);
    assert("d"@.len() > 0);
    assert("weeks"@.len() > 0);
    assert("week"@.len() > 0);
    assert("wk"@.len() > 0);
    assert("wks"@.len() > 0);
    assert("w"@.len() > 0);
    assert("months"@.len() > 0);
    assert("month"@.len() > 0);
    assert("M"@.len() > 0);
    assert("years"@.len() > 0);
    assert("year"@.len() > 0);
    assert("yr"@.len() > 0);
    assert("yrs"@.len() > 0);
    assert("y"@.len() > 0);
}

/// A text that cannot be counted cannot be counted either if more stands behind it.
pub proof fn law_nothing_mends_an_overflow(text: Seq<char>, more: Seq<char>)
    requires
        !countable(text),
    ensures
        !countable(text + seq![' '] + more),
{
    lemma_no_empty_unit();
    let spaced = text + seq![' '];
    let whole = spaced + more;
    assert(spaced.drop_last() =~= text);
    assert(spaced.last() == ' ');
    if reading(text).sum is Total {
        let span = reading(text).span->0;
        if span.unit.len() == 0 {
            assert(span.unit =~= Seq::<char>::empty());
        }
    }
    assert(reading(spaced).sum is Overflow);
    assert(whole.take(spaced.len() as int) =~= spaced);
    lemma_reading_is_over(whole, spaced.len() as int);
}

} // verus!
