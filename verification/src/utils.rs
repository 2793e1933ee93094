//! Settings that the engine reads from its environment, once their raw
//! text is in hand.

use vstd::prelude::*;
use vstd::string::*;

verus! {

/// The value of a decimal digit, or `None` for any other character.
pub open spec fn digit_value(c: char) -> Option<nat> {
    if c == '0' {
        Some(0)
    } else if c == '1' {
        Some(1)
    } else if c == '2' {
        Some(2)
    } else if c == '3' {
        Some(3)
    } else if c == '4' {
        Some(4)
    } else if c == '5' {
        Some(5)
    } else if c == '6' {
        Some(6)
    } else if c == '7' {
        Some(7)
    } else if c == '8' {
        Some(8)
    } else if c == '9' {
        Some(9)
    } else {
        None
    }
}

/// Why a text is not a number of seconds.
#[derive(Clone, Copy, PartialEq, Eq, Structural, Debug)]
pub enum SecondsError {
    /// The text is empty.
    Empty,
    /// Some character is not a decimal digit, or there is no digit at all.
    InvalidDigit,
    /// The number does not fit in 64 bits.
    TooLarge,
}

/// What reading a run of digits from left to right gives: the number it
/// stands for, or the first fault met on the way. A character that is no
/// digit is a fault; so is a digit that takes the number beyond 64 bits.
/// The empty run stands for zero.
pub open spec fn scanned(digits: Seq<char>) -> Result<nat, SecondsError>
    decreases digits.len(),
{
    if digits.len() == 0 {
        Ok(0)
    } else {
        match scanned(digits.drop_last()) {
            Err(fault) => Err(fault),
            Ok(high) => match digit_value(digits.last()) {
                None => Err(SecondsError::InvalidDigit),
                Some(low) => if high * 10 + low > u64::MAX {
                    Err(SecondsError::TooLarge)
                } else {
                    Ok(high * 10 + low)
                },
            },
        }
    }
}

/// The digits of a numeral: the text itself, without a leading `+`.
pub open spec fn unsigned_digits(text: Seq<char>) -> Seq<char> {
    if text.len() > 0 && text[0] == '+' {
        text.drop_first()
    } else {
        text
    }
}

/// The number of seconds that `text` stands for: one or more decimal
/// digits, with an optional `+` before them and nothing else around them,
/// whose number fits in 64 bits. Otherwise, why it stands for none.
pub open spec fn seconds_of(text: Seq<char>) -> Result<u64, SecondsError> {
    let digits = unsigned_digits(text);
    if text.len() == 0 {
        Err(SecondsError::Empty)
    } else if digits.len() == 0 {
        Err(SecondsError::InvalidDigit)
    } else {
        match scanned(digits) {
            Ok(value) => Ok(value as u64),
            Err(fault) => Err(fault),
        }
    }
}

/// The seconds to wait: what `value` stands for where it is set and is a
/// number of seconds, and `default` otherwise.
pub open spec fn seconds_or_default(value: Option<Seq<char>>, default: u64) -> u64 {
    match value {
        Some(text) => match seconds_of(text) {
            Ok(seconds) => seconds,
            Err(_) => default,
        },
        None => default,
    }
}

/// A fault met in a prefix of a run of digits is the fault of the whole
/// run.
proof fn lemma_fault_stays(digits: Seq<char>, upto: int)
    requires
        0 <= upto <= digits.len(),
        scanned(digits.take(upto)) is Err,
    ensures
        scanned(digits) == scanned(digits.take(upto)),
    decreases digits.len(),
{
    if upto == digits.len() {
        assert(digits.take(upto) =~= digits);
    } else {
        assert(digits.drop_last().take(upto) =~= digits.take(upto));
        lemma_fault_stays(digits.drop_last(), upto);
    }
}

fn digit_of(c: char) -> (digit: Option<u64>)
    ensures
        match digit {
            Some(digit) => digit_value(c) == Some(digit as nat) && digit <= 9,
            None => digit_value(c) is None,
        },
{
    if c == '0' {
        Some(0)
    } else if c == '1' {
        Some(1)
    } else if c == '2' {
        Some(2)
    } else if c == '3' {
        Some(3)
    } else if c == '4' {
        Some(4)
    } else if c == '5' {
        Some(5)
    } else if c == '6' {
        Some(6)
    } else if c == '7' {
        Some(7)
    } else if c == '8' {
        Some(8)
    } else if c == '9' {
        Some(9)
    } else {
        None
    }
}

/// The sentence that says why a text is not a number of seconds.
pub open spec fn fault_text(fault: SecondsError) -> Seq<char> {
    match fault {
        SecondsError::Empty => "cannot parse integer from empty string"@,
        SecondsError::InvalidDigit => "invalid digit found in string"@,
        SecondsError::TooLarge => "number too large to fit in target type"@,
    }
}

impl SecondsError {
    /// Says why the text is not a number of seconds.
    pub fn message(self) -> (text: &'static str)
        ensures
            text@ == fault_text(self),
    {
        match self {
            SecondsError::Empty => "cannot parse integer from empty string",
            SecondsError::InvalidDigit => "invalid digit found in string",
            SecondsError::TooLarge => "number too large to fit in target type",
        }
    }
}

/// Reads a number of seconds: decimal digits, optionally after a `+`.
/// Anything else, the empty text and numbers beyond 64 bits are refused,
/// with the first fault met from the left.
pub fn parse_seconds(text: &str) -> (seconds: Result<u64, SecondsError>)
    ensures
        seconds == seconds_of(text@),
{
    let len = text.unicode_len();
    if len == 0 {
        return Err(SecondsError::Empty);
    }
    let start: usize = if text.get_char(0) == '+' {
        1
    } else {
        0
    };
    let ghost digits = unsigned_digits(text@);
    assert(digits =~= text@.skip(start as int));
    if start == len {
        return Err(SecondsError::InvalidDigit);
    }
    let mut value: u64 = 0;
    let mut i: usize = start;
    assert(digits.take(0) =~= Seq::<char>::empty());
    while i < len
        invariant
            start <= i <= len,
            len == text@.len(),
            len > 0,
            digits == text@.skip(start as int),
            digits == unsigned_digits(text@),
            digits.len() > 0,
            scanned(digits.take(i - start)) == Ok::<nat, SecondsError>(value as nat),
        decreases len - i,
    {
        let ghost seen = digits.take(i - start);
        let ghost next = digits.take(i - start + 1);
        let c = text.get_char(i);
        proof {
            assert(next.drop_last() =~= seen);
            assert(next.last() == c);
        }
        match digit_of(c) {
            Some(digit) => {
                if value > (u64::MAX - digit) / 10 {
                    proof {
                        lemma_fault_stays(digits, i - start + 1);
                    }
                    return Err(SecondsError::TooLarge);
                }
                value = value * 10 + digit;
            },
            None => {
                proof {
                    lemma_fault_stays(digits, i - start + 1);
                }
                return Err(SecondsError::InvalidDigit);
            },
        }
        i += 1;
    }
    assert(digits.take(i - start) =~= digits);
    Ok(value)
}

/// The seconds to wait, given the raw setting: the number it stands for,
/// or `default` where it is unset or is not a number of seconds.
pub fn duration_secs(value: Option<&str>, default: u64) -> (seconds: u64)
    ensures
        seconds == seconds_or_default(
            match value {
                Some(text) => Some(text@),
                None => None,
            },
            default,
        ),
{
    match value {
        Some(text) => match parse_seconds(text) {
            Ok(seconds) => seconds,
            Err(_) => default,
        },
        None => default,
    }
}

/// The log filter of a debug build that was given none.
pub open spec fn debug_filter() -> Seq<char> {
    "hash_cloud=debug,hash_engine=debug,cli=debug,server=debug,proto=debug,nano=debug,apiclient=debug"@
}

/// The log filter to fall back on: a debug build that was given no filter
/// logs the engine's own crates at debug level; any other build keeps what
/// it was given.
pub fn default_log_filter(debug_build: bool, configured: bool) -> (filter: Option<&'static str>)
    ensures
        match filter {
            Some(filter) => debug_build && !configured && filter@ == debug_filter(),
            None => !debug_build || configured,
        },
{
    if debug_build && !configured {
        Some(
            "hash_cloud=debug,hash_engine=debug,cli=debug,server=debug,proto=debug,nano=debug,apiclient=debug",
        )
    } else {
        None
    }
}

} // verus!
