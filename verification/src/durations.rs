//! Lengths of time as users write them and read them.

use crate::error::Error;
use vstd::prelude::*;
use vstd::string::*;

verus! {

#[verifier::external_type_specification]
#[verifier::external_body]
pub struct ExDurationError(humantime::DurationError);

/// The most numbers that a length of time may hold.
pub const MAX_NUMBERS: usize = 50;

/// The most digits that a number of a length of time may hold.
pub const MAX_DIGITS: usize = 10;

/// Whether a byte is a decimal digit.
pub open spec fn is_digit(byte: u8) -> bool {
    0x30 <= byte <= 0x39
}

/// Whether a byte ends a number: a letter, with which a unit begins, or the point before a
/// fraction. Blanks and whatever else may stand between digits do not end it.
pub open spec fn ends_number(byte: u8) -> bool {
    0x41 <= byte <= 0x5a || 0x61 <= byte <= 0x7a || byte == 0x2e
}

/// What a text holds in numbers: how many there are, how many digits the last one has so
/// far (0 once it has ended), and how many digits the longest has.
pub struct Tally {
    pub numbers: nat,
    pub run: nat,
    pub longest: nat,
}

/// The numbers in a text of these bytes.
pub open spec fn tally(bytes: Seq<u8>) -> Tally
    decreases bytes.len(),
{
    if bytes.len() == 0 {
        Tally { numbers: 0, run: 0, longest: 0 }
    } else {
        let before = tally(bytes.drop_last());
        if is_digit(bytes.last()) {
            Tally {
                numbers: if before.run == 0 {
                    before.numbers + 1
                } else {
                    before.numbers
                },
                run: before.run + 1,
                longest: if before.run + 1 > before.longest {
                    before.run + 1
                } else {
                    before.longest
                },
            }
        } else if ends_number(bytes.last()) {
            Tally { run: 0, ..before }
        } else {
            before
        }
    }
}

/// Whether a text holds no more numbers, and no longer ones, than a length of time may.
pub open spec fn within_limits(bytes: Seq<u8>) -> bool {
    tally(bytes).numbers <= MAX_NUMBERS && tally(bytes).longest <= MAX_DIGITS
}

/// What `humantime::parse_duration` makes of a text: whole seconds and the nanoseconds
/// beyond them, or nothing where it rejects the text.
pub uninterp spec fn parsed_duration(text: Seq<char>) -> Option<(u64, u32)>;

/// What `humantime::format_duration` writes for a length of time, given as whole seconds
/// and the nanoseconds beyond them.
pub uninterp spec fn formatted_duration(secs: u64, nanos: u32) -> Seq<char>;

/// Calls `humantime::parse_duration`. The parser reads the text alone and returns its
/// error for whatever it cannot read, so the result is named by the text: the seconds and
/// nanoseconds of the duration it gives, or an error where `parsed_duration` is `None`.
///
/// The parser adds up what it reads with checked arithmetic, but builds the duration
/// unchecked: where the seconds have reached the largest number that 64 bits hold, above
/// 1.8 times 10^19, and the nanoseconds make up exactly one more second, it panics. The
/// seconds are a sum over the numbers of the text. A number is the digits up to the next
/// unit letter or point, so one of at most ten digits is below 10^10; a unit is at most a
/// year of 31 557 600 seconds; and what a fraction or a carry from the nanoseconds adds is
/// at most one more year. Fifty such numbers stay below 1.6 times 10^19.
#[verifier::external_body]
fn parse_duration(text: &str) -> (r: Result<(u64, u32), humantime::DurationError>)
    requires
        within_limits(text.spec_bytes()),
    ensures
        match r {
            Ok(length) => parsed_duration(text@) == Some(length),
            Err(_) => parsed_duration(text@).is_none(),
        },
{
    match humantime::parse_duration(text) {
        Ok(length) => Ok((length.as_secs(), length.subsec_nanos())),
        Err(e) => Err(e),
    }
}

/// Calls `humantime::format_duration` and collects what it displays. The text depends on
/// the duration alone. With fewer than a thousand million nanoseconds the duration can be
/// built without a carry into the seconds.
#[verifier::external_body]
fn format_duration(secs: u64, nanos: u32) -> (text: String)
    requires
        nanos < 1_000_000_000,
    ensures
        text@ == formatted_duration(secs, nanos),
{
    humantime::format_duration(std::time::Duration::new(secs, nanos)).to_string()
}

/// Tells whether a text holds more numbers, or longer ones, than a length of time may: more
/// than fifty, or one of more than ten digits.
pub fn has_too_many_digits(text: &str) -> (b: bool)
    ensures
        b == !within_limits(text.spec_bytes()),
{
    let bytes = text.as_bytes();
    let mut numbers: usize = 0;
    let mut run: usize = 0;
    let mut longest: usize = 0;
    let mut i: usize = 0;
    while i < bytes.len()
        invariant
            i <= bytes.len(),
            bytes@ == text.spec_bytes(),
            numbers == tally(bytes@.take(i as int)).numbers,
            run == tally(bytes@.take(i as int)).run,
            longest == tally(bytes@.take(i as int)).longest,
            numbers <= i,
            run <= i,
            longest <= i,
        decreases bytes.len() - i,
    {
        proof {
            assert(bytes@.take(i + 1).drop_last() =~= bytes@.take(i as int));
            assert(bytes@.take(i + 1).last() == bytes@[i as int]);
        }
        let byte = bytes[i];
        if 0x30 <= byte && byte <= 0x39 {
            if run == 0 {
                numbers = numbers + 1;
            }
            run = run + 1;
            if run > longest {
                longest = run;
            }
        } else if (0x41 <= byte && byte <= 0x5a) || (0x61 <= byte && byte <= 0x7a) || byte
            == 0x2e {
            run = 0;
        }
        i = i + 1;
    }
    assert(bytes@.take(i as int) =~= bytes@);
    numbers > MAX_NUMBERS || longest > MAX_DIGITS
}

/// The whole seconds of the length of time that a text gives, if it gives one: it holds no
/// more numbers and no longer ones than a length may, and the parser accepts it.
pub open spec fn length_of(text: &str) -> Option<u64> {
    if !within_limits(text.spec_bytes()) {
        None
    } else {
        match parsed_duration(text@) {
            Some(length) => Some(length.0),
            None => None,
        }
    }
}

/// Reads a length of time such as `2h 30m` and returns its whole seconds.
///
/// Where the text holds more than fifty numbers or a number of more than ten digits, or is
/// no length of time, the result is `InvalidDuration`.
pub fn parse_length(text: &str) -> (r: Result<u64, Error>)
    ensures
        match r {
            Ok(secs) => length_of(text) == Some(secs),
            Err(e) => length_of(text).is_none() && e == Error::InvalidDuration,
        },
{
    if has_too_many_digits(text) {
        return Err(Error::InvalidDuration);
    }
    match parse_duration(text) {
        Ok(length) => Ok(length.0),
        Err(_) => Err(Error::InvalidDuration),
    }
}

/// Writes a length of time, given as whole seconds and the nanoseconds beyond them, the way
/// people read it.
pub fn format_length(secs: u64, nanos: u32) -> (text: String)
    requires
        nanos < 1_000_000_000,
    ensures
        text@ == formatted_duration(secs, nanos),
{
    format_duration(secs, nanos)
}

} // verus!
