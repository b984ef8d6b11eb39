//! Durations: what is known of `std::time::Duration`, and durations in the notation of the
//! `humantime` crate, such as `1h 30m`.

use std::time::Duration;

use vstd::prelude::*;

use crate::notation::countable;

verus! {

/// The length of a duration in nanoseconds, as `Duration::as_nanos` counts it.
pub uninterp spec fn nanos(duration: Duration) -> u128;

/// How much longer a time is than another one.
pub open spec fn time_left(whole: u128, gone: u128) -> u128 {
    if gone <= whole {
        (whole - gone) as u128
    } else {
        0
    }
}

/// `Duration::is_zero`: true of a duration of no nanoseconds, and of no other.
pub assume_specification[ Duration::is_zero ](duration: &Duration) -> (zero: bool)
    ensures
        zero == (nanos(*duration) == 0),
;

/// `Duration::as_nanos`: the length itself.
pub assume_specification[ Duration::as_nanos ](duration: &Duration) -> (length: u128)
    ensures
        length == nanos(*duration),
;

/// `Duration::saturating_sub`: the difference of two durations, zero if the second one is
/// longer.
pub assume_specification[ Duration::saturating_sub ](duration: Duration, other: Duration) -> (left:
    Duration)
    ensures
        nanos(left) == time_left(nanos(duration), nanos(other)),
;

/// `Duration::from_secs`: a duration of so many whole seconds.
pub assume_specification[ Duration::from_secs ](secs: u64) -> (duration: Duration)
    ensures
        nanos(duration) == secs * 1_000_000_000,
;

/// `humantime::DurationError`: why a text is no duration.
#[verifier::external_type_specification]
#[verifier::external_body]
pub struct ExDurationError(humantime::DurationError);

/// What `humantime::parse_duration` makes of a text: the length of the duration in
/// nanoseconds, or the message of its error.
pub uninterp spec fn parsed_duration(text: Seq<char>) -> Result<u128, Seq<char>>;

/// The message that the `Display` of a `humantime::DurationError` writes.
pub uninterp spec fn duration_error_message(error: humantime::DurationError) -> Seq<char>;

/// The text that `humantime::format_duration` writes for a duration of so many nanoseconds.
pub uninterp spec fn formatted_duration(nanos: u128) -> Seq<char>;

/// `humantime::parse_duration`: the outcome depends on the text alone. It panics where
/// `u64::MAX` seconds have been added up and the nanoseconds beside them come to exactly one
/// second: there it asks for a `Duration` that cannot be counted. That step is an overflow,
/// so a countable text has none.
pub assume_specification[ humantime::parse_duration ](text: &str) -> (parsed: Result<
    Duration,
    humantime::DurationError,
>)
    requires
        countable(text@),
    ensures
        match parsed {
            Ok(duration) => parsed_duration(text@) == Ok::<u128, Seq<char>>(nanos(duration)),
            Err(error) => parsed_duration(text@) == Err::<u128, Seq<char>>(
                duration_error_message(error),
            ),
        },
;

/// The `Display` of `humantime::DurationError`: the message depends on the error alone.
#[verifier::external_body]
fn duration_error_text(error: &humantime::DurationError) -> (text: String)
    ensures
        text@ == duration_error_message(*error),
{
    error.to_string()
}

/// `humantime::format_duration`, written out by its `Display`: the text depends on the
/// length of the duration alone.
#[verifier::external_body]
pub(crate) fn format_duration(duration: Duration) -> (text: String)
    ensures
        text@ == formatted_duration(nanos(duration)),
{
    humantime::format_duration(duration).to_string()
}

/// A duration by its length, an error by its text.
pub open spec fn duration_outcome(outcome: Result<Duration, String>) -> Result<u128, Seq<char>> {
    match outcome {
        Ok(duration) => Ok(nanos(duration)),
        Err(error) => Err(error@),
    }
}

/// Refuses a duration of no length; leaves every other outcome as it is.
pub open spec fn require_nonzero(outcome: Result<u128, Seq<char>>) -> Result<u128, Seq<char>> {
    match outcome {
        Ok(length) if length == 0 => Err("duration must be greater than zero"@),
        _ => outcome,
    }
}

/// Refuses a parsed duration of zero.
pub fn nonzero_duration(parsed: Result<Duration, String>) -> (checked: Result<Duration, String>)
    ensures
        duration_outcome(checked) == require_nonzero(duration_outcome(parsed)),
        checked is Ok ==> checked == parsed,
{
    match parsed {
        Ok(duration) => {
            if duration.is_zero() {
                return Err("duration must be greater than zero".to_owned());
            }
            Ok(duration)
        },
        Err(error) => Err(error),
    }
}

/// Reads a duration such as `30s`, `5m` or `1h`, which must not be zero.
///
/// [`is_countable`](crate::notation::is_countable) tells whether a text may be read: at the
/// very end of what a `Duration` can count, reading it can panic.
pub fn parse_nonzero_duration(value: &str) -> (parsed: Result<Duration, String>)
    requires
        countable(value@),
    ensures
        duration_outcome(parsed) == require_nonzero(parsed_duration(value@)),
        parsed matches Ok(duration) ==> nanos(duration) > 0,
{
    let parsed = match humantime::parse_duration(value) {
        Ok(duration) => Ok(duration),
        Err(error) => Err(duration_error_text(&error)),
    };
    nonzero_duration(parsed)
}

/// What is left of a time and what is gone of it make up the whole; nothing is left of a
/// time that is over.
pub proof fn law_time_left(whole: u128, gone: u128)
    ensures
        gone <= whole ==> time_left(whole, gone) + gone == whole,
        gone > whole ==> time_left(whole, gone) == 0,
{
}

/// Zero is the only length that is refused; every other outcome is passed on as it is.
pub proof fn law_only_zero_is_refused(length: u128, error: Seq<char>)
    ensures
        length > 0 ==> require_nonzero(Ok(length)) == Ok::<u128, Seq<char>>(length),
        require_nonzero(Ok(0)) == Err::<u128, Seq<char>>("duration must be greater than zero"@),
        require_nonzero(Err(error)) == Err::<u128, Seq<char>>(error),
{
}

/// Durations are told by their whole length, and errors by their whole text.
pub proof fn law_duration_outcome(outcome: Result<Duration, String>)
    ensures
        match outcome {
            Ok(duration) => duration_outcome(outcome) == Ok::<u128, Seq<char>>(nanos(duration)),
            Err(error) => duration_outcome(outcome) == Err::<u128, Seq<char>>(error@),
        },
{
}

} // verus!
