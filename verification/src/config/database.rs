//! How the pool of database connections is set up.

use std::time::Duration;
use vstd::prelude::*;

verus! {

/// The most connections that the pool opens, unless told otherwise.
pub const DEFAULT_MAX_CONNECTIONS: u32 = 5;

/// The fewest connections that the pool keeps, unless told otherwise.
pub const DEFAULT_MIN_CONNECTIONS: u32 = 1;

/// The seconds after which a connection is replaced, unless told otherwise:
/// thirty minutes.
pub const DEFAULT_MAX_LIFETIME_SECS: u64 = 1800;

/// The seconds after which an idle connection is closed, unless told
/// otherwise: ten minutes.
pub const DEFAULT_IDLE_TIMEOUT_SECS: u64 = 600;

/// The seconds to wait for a connection, unless told otherwise.
pub const DEFAULT_CONNECT_TIMEOUT_SECS: u64 = 30;

/// The settings of the pool of database connections.
#[derive(Debug)]
pub struct DatabaseConfig {
    pub connection_string: String,
    pub max_connections: u32,
    pub min_connections: u32,
    pub max_lifetime: Duration,
    pub idle_timeout: Duration,
    pub connect_timeout: Duration,
}

impl Clone for DatabaseConfig {
    fn clone(&self) -> (config: DatabaseConfig)
        ensures
            config == *self,
    {
        DatabaseConfig {
            connection_string: self.connection_string.clone(),
            max_connections: self.max_connections,
            min_connections: self.min_connections,
            max_lifetime: self.max_lifetime,
            idle_timeout: self.idle_timeout,
            connect_timeout: self.connect_timeout,
        }
    }
}

impl DatabaseConfig {
    /// The settings with the given parts.
    pub fn new(
        connection_string: String,
        max_connections: u32,
        min_connections: u32,
        max_lifetime: Duration,
        idle_timeout: Duration,
        connect_timeout: Duration,
    ) -> (config: DatabaseConfig)
        ensures
            config == (DatabaseConfig {
                connection_string,
                max_connections,
                min_connections,
                max_lifetime,
                idle_timeout,
                connect_timeout,
            }),
    {
        DatabaseConfig {
            connection_string,
            max_connections,
            min_connections,
            max_lifetime,
            idle_timeout,
            connect_timeout,
        }
    }
}

/// The byte of the plus sign.
const PLUS_SIGN: u8 = 43;

/// The byte of the digit zero.
const DIGIT_ZERO: u8 = 48;

/// The byte of the digit nine.
const DIGIT_NINE: u8 = 57;

/// Whether `c` is a decimal digit.
pub open spec fn is_digit(c: char) -> bool {
    '0' <= c && c <= '9'
}

/// The number that a run of decimal digits stands for.
pub open spec fn decimal_value(digits: Seq<char>) -> nat
    decreases digits.len(),
{
    if digits.len() == 0 {
        0
    } else {
        decimal_value(digits.drop_last()) * 10 + (digits.last() as u32 - '0' as u32) as nat
    }
}

/// The digits of a text that is read as a number: the text without a plus
/// sign in front.
pub open spec fn digits_of(text: Seq<char>) -> Seq<char> {
    if text.len() > 0 && text[0] == '+' {
        text.subrange(1, text.len() as int)
    } else {
        text
    }
}

/// Whether a text reads as a number without sign: at least one decimal
/// digit and nothing else, but for a plus sign that may stand in front.
pub open spec fn reads_as_number(text: Seq<char>) -> bool {
    digits_of(text).len() > 0 && forall|i: int|
        0 <= i < digits_of(text).len() ==> is_digit(#[trigger] digits_of(text)[i])
}

/// The number that a text reads as, if it reads as one that a `u64` holds.
pub open spec fn decimal_u64(text: Seq<char>) -> Option<u64> {
    if reads_as_number(text) && decimal_value(digits_of(text)) <= u64::MAX {
        Some(decimal_value(digits_of(text)) as u64)
    } else {
        None
    }
}

/// The number that a text reads as, if it reads as one that a `u32` holds.
pub open spec fn decimal_u32(text: Seq<char>) -> Option<u32> {
    if reads_as_number(text) && decimal_value(digits_of(text)) <= u32::MAX {
        Some(decimal_value(digits_of(text)) as u32)
    } else {
        None
    }
}

/// The number that the first digits of a run stand for is no more than the
/// number that the whole run stands for.
proof fn lemma_decimal_value_grows(digits: Seq<char>, n: int)
    requires
        0 <= n <= digits.len(),
        forall|i: int| 0 <= i < digits.len() ==> is_digit(#[trigger] digits[i]),
    ensures
        decimal_value(digits.take(n)) <= decimal_value(digits),
    decreases digits.len(),
{
    if n < digits.len() {
        let front = digits.drop_last();
        lemma_decimal_value_grows(front, n);
        assert(front.take(n) =~= digits.take(n));
    } else {
        assert(digits.take(n) =~= digits);
    }
}

/// Reads a text as a `u64`, as `str::parse` does: decimal digits, with or
/// without a plus sign in front, that stand for a number that a `u64` holds.
pub fn parse_u64(text: &str) -> (number: Option<u64>)
    ensures
        number == decimal_u64(text@),
{
    if !text.is_ascii() {
        proof {
            let i = choose|i: int|
                0 <= i < text@.len() && !('\0' <= #[trigger] text@[i] <= '\u{7f}');
            if i > 0 || !(text@[0] == '+') {
                let j = if text@[0] == '+' {
                    i - 1
                } else {
                    i
                };
                assert(digits_of(text@)[j] == text@[i]);
            }
        }
        return None;
    }
    proof {
        vstd::string::is_ascii_spec_bytes(text);
    }
    let bytes = text.as_bytes();
    let length = bytes.len();
    let start: usize = if length > 0 && bytes[0] == PLUS_SIGN {
        1
    } else {
        0
    };
    if start == length {
        return None;
    }
    let ghost digits = digits_of(text@);
    assert(digits =~= text@.subrange(start as int, length as int));
    let mut value: u64 = 0;
    let mut i: usize = start;
    while i < length
        invariant
            length == text@.len(),
            length == bytes@.len(),
            forall|j: int| 0 <= j < length ==> '\0' <= #[trigger] text@[j] <= '\u{7f}',
            forall|j: int| 0 <= j < length ==> #[trigger] bytes@[j] == text@[j] as u8,
            start <= i <= length,
            start < length,
            digits == text@.subrange(start as int, length as int),
            digits == digits_of(text@),
            forall|j: int| 0 <= j < i - start ==> is_digit(#[trigger] digits[j]),
            value == decimal_value(digits.take(i - start)),
        decreases length - i,
    {
        let byte = bytes[i];
        assert(digits[i - start] == text@[i as int]);
        if byte < DIGIT_ZERO || byte > DIGIT_NINE {
            assert(!is_digit(digits[i - start]));
            return None;
        }
        let digit: u64 = (byte - DIGIT_ZERO) as u64;
        proof {
            let upto = digits.take(i - start + 1);
            assert(upto.drop_last() =~= digits.take(i - start));
            assert(upto.last() == digits[i - start]);
            assert(decimal_value(upto) == value * 10 + digit);
            if forall|j: int| 0 <= j < digits.len() ==> is_digit(#[trigger] digits[j]) {
                lemma_decimal_value_grows(digits, i - start + 1);
            }
        }
        let tens = match value.checked_mul(10) {
            Some(tens) => tens,
            None => {
                return None;
            },
        };
        value = match tens.checked_add(digit) {
            Some(sum) => sum,
            None => {
                return None;
            },
        };
        i = i + 1;
    }
    assert(digits.take(i - start) =~= digits);
    Some(value)
}

/// Reads a text as a `u32`, as `str::parse` does: decimal digits, with or
/// without a plus sign in front, that stand for a number that a `u32` holds.
pub fn parse_u32(text: &str) -> (number: Option<u32>)
    ensures
        number == decimal_u32(text@),
{
    match parse_u64(text) {
        Some(value) => {
            if value <= u32::MAX as u64 {
                Some(value as u32)
            } else {
                None
            }
        },
        None => None,
    }
}

/// The numbers among the settings of the pool: how many connections, and for
/// how many seconds.
#[derive(Debug, Clone, Copy, PartialEq, Eq, Structural)]
pub struct PoolSettings {
    pub max_connections: u32,
    pub min_connections: u32,
    pub max_lifetime_secs: u64,
    pub idle_timeout_secs: u64,
    pub connect_timeout_secs: u64,
}

impl PoolSettings {
    /// The settings that hold where nothing else is said.
    pub open spec fn standard() -> PoolSettings {
        PoolSettings {
            max_connections: DEFAULT_MAX_CONNECTIONS,
            min_connections: DEFAULT_MIN_CONNECTIONS,
            max_lifetime_secs: DEFAULT_MAX_LIFETIME_SECS,
            idle_timeout_secs: DEFAULT_IDLE_TIMEOUT_SECS,
            connect_timeout_secs: DEFAULT_CONNECT_TIMEOUT_SECS,
        }
    }

    /// The settings given by the numbers that were read, each replaced by
    /// its default where none was read.
    pub open spec fn of_numbers(
        max_connections: Option<u32>,
        min_connections: Option<u32>,
        max_lifetime_secs: Option<u64>,
        idle_timeout_secs: Option<u64>,
        connect_timeout_secs: Option<u64>,
    ) -> PoolSettings {
        PoolSettings {
            max_connections: max_connections.unwrap_or(DEFAULT_MAX_CONNECTIONS),
            min_connections: min_connections.unwrap_or(DEFAULT_MIN_CONNECTIONS),
            max_lifetime_secs: max_lifetime_secs.unwrap_or(DEFAULT_MAX_LIFETIME_SECS),
            idle_timeout_secs: idle_timeout_secs.unwrap_or(DEFAULT_IDLE_TIMEOUT_SECS),
            connect_timeout_secs: connect_timeout_secs.unwrap_or(DEFAULT_CONNECT_TIMEOUT_SECS),
        }
    }

    /// The number that a variable gives as a `u32`: none where the variable
    /// is not set or does not read as a number.
    pub open spec fn number_u32(variable: Option<Seq<char>>) -> Option<u32> {
        match variable {
            Some(text) => decimal_u32(text),
            None => None,
        }
    }

    /// The number that a variable gives as a `u64`: none where the variable
    /// is not set or does not read as a number.
    pub open spec fn number_u64(variable: Option<Seq<char>>) -> Option<u64> {
        match variable {
            Some(text) => decimal_u64(text),
            None => None,
        }
    }

    /// The settings that hold where nothing else is said.
    pub fn defaults() -> (settings: PoolSettings)
        ensures
            settings == PoolSettings::standard(),
    {
        PoolSettings {
            max_connections: DEFAULT_MAX_CONNECTIONS,
            min_connections: DEFAULT_MIN_CONNECTIONS,
            max_lifetime_secs: DEFAULT_MAX_LIFETIME_SECS,
            idle_timeout_secs: DEFAULT_IDLE_TIMEOUT_SECS,
            connect_timeout_secs: DEFAULT_CONNECT_TIMEOUT_SECS,
        }
    }

    /// The settings given by the numbers that were read, each replaced by
    /// its default where none was read.
    pub fn from_numbers(
        max_connections: Option<u32>,
        min_connections: Option<u32>,
        max_lifetime_secs: Option<u64>,
        idle_timeout_secs: Option<u64>,
        connect_timeout_secs: Option<u64>,
    ) -> (settings: PoolSettings)
        ensures
            settings == PoolSettings::of_numbers(
                max_connections,
                min_connections,
                max_lifetime_secs,
                idle_timeout_secs,
                connect_timeout_secs,
            ),
    {
        PoolSettings {
            max_connections: max_connections.unwrap_or(DEFAULT_MAX_CONNECTIONS),
            min_connections: min_connections.unwrap_or(DEFAULT_MIN_CONNECTIONS),
            max_lifetime_secs: max_lifetime_secs.unwrap_or(DEFAULT_MAX_LIFETIME_SECS),
            idle_timeout_secs: idle_timeout_secs.unwrap_or(DEFAULT_IDLE_TIMEOUT_SECS),
            connect_timeout_secs: connect_timeout_secs.unwrap_or(DEFAULT_CONNECT_TIMEOUT_SECS),
        }
    }

    /// The settings given by the texts of the variables that configure the
    /// pool. A variable that is not set, or whose text does not read as a
    /// number, leaves its setting at the default.
    pub fn from_vars(
        max_connections: Option<&str>,
        min_connections: Option<&str>,
        max_lifetime: Option<&str>,
        idle_timeout: Option<&str>,
        connect_timeout: Option<&str>,
    ) -> (settings: PoolSettings)
        ensures
            settings == PoolSettings::of_numbers(
                PoolSettings::number_u32(text_of(max_connections)),
                PoolSettings::number_u32(text_of(min_connections)),
                PoolSettings::number_u64(text_of(max_lifetime)),
                PoolSettings::number_u64(text_of(idle_timeout)),
                PoolSettings::number_u64(text_of(connect_timeout)),
            ),
    {
        let max_connections = match max_connections {
            Some(text) => parse_u32(text),
            None => None,
        };
        let min_connections = match min_connections {
            Some(text) => parse_u32(text),
            None => None,
        };
        let max_lifetime = match max_lifetime {
            Some(text) => parse_u64(text),
            None => None,
        };
        let idle_timeout = match idle_timeout {
            Some(text) => parse_u64(text),
            None => None,
        };
        let connect_timeout = match connect_timeout {
            Some(text) => parse_u64(text),
            None => None,
        };
        PoolSettings::from_numbers(
            max_connections,
            min_connections,
            max_lifetime,
            idle_timeout,
            connect_timeout,
        )
    }
}

/// The text of a variable, if it is set.
pub open spec fn text_of(variable: Option<&str>) -> Option<Seq<char>> {
    match variable {
        Some(text) => Some(text@),
        None => None,
    }
}

} // verus!
