//! How long a silence lasts, and how the operator's wording of it is read.

use vstd::prelude::*;
use vstd::string::*;
use crate::err::ConfigError;
use crate::text::{
    chars_of, contains_char, decimal_text, digit_of, is_digit, number_of, parse_number, split,
    split_on, texts, to_decimal,
};

verus! {

/// The expiration policy of a silence.
#[derive(Debug, Clone, Copy, PartialEq, Eq, Structural)]
pub enum Expire {
    /// No time limit; the flag says whether the silence ends when the check
    /// resolves.
    NoExpiration(bool),
    /// Ends after so many seconds; the flag says whether it also ends when
    /// the check resolves.
    Expire(usize, bool),
}

/// The expiration used where none is given: two hours.
pub const DEFAULT_EXPIRE: usize = 7200;

impl Expire {
    /// The wording of the policy in a status line.
    pub open spec fn text(self) -> Seq<char> {
        match self {
            Expire::NoExpiration(true) => "not expire until resolution"@,
            Expire::NoExpiration(false) => "never expire"@,
            Expire::Expire(n, true) => "expire in "@ + decimal_text(n as nat)
                + " seconds or on resolution"@,
            Expire::Expire(n, false) => "expire in "@ + decimal_text(n as nat) + " seconds"@,
        }
    }

    /// The wording of the policy in a status line.
    pub fn to_text(&self) -> (s: String)
        ensures
            s@ == self.text(),
    {
        match *self {
            Expire::NoExpiration(true) => String::from_str("not expire until resolution"),
            Expire::NoExpiration(false) => String::from_str("never expire"),
            Expire::Expire(n, on_resolve) => {
                let mut s = String::from_str("expire in ");
                s.append(to_decimal(n as u64).as_str());
                if on_resolve {
                    s.append(" seconds or on resolution");
                } else {
                    s.append(" seconds");
                }
                s
            },
        }
    }
}

/// The seconds in one unit of a duration: day, hour, minute or second.
pub open spec fn unit_seconds(c: char) -> Option<nat> {
    if c == 'd' {
        Some(86400)
    } else if c == 'h' {
        Some(3600)
    } else if c == 'm' {
        Some(60)
    } else if c == 's' {
        Some(1)
    } else {
        None
    }
}

/// Whether `s` holds one of the unit letters.
pub open spec fn has_unit(s: Seq<char>) -> bool {
    s.contains('d') || s.contains('h') || s.contains('m') || s.contains('s')
}

/// The length of the run of digits that `s` starts with.
pub open spec fn digit_run(s: Seq<char>) -> int
    decreases s.len(),
{
    if s.len() == 0 || !is_digit(s[0]) {
        0
    } else {
        1 + digit_run(s.drop_first())
    }
}

/// The number that a run of digits contributes: what it spells, or nothing
/// where that does not fit the machine's word.
pub open spec fn token_value(digits: Seq<char>) -> nat {
    match number_of(digits) {
        Some(v) => v as nat,
        None => 0,
    }
}

/// The seconds that a text in unit format stands for. Every run of digits
/// counts: times its unit where a unit letter follows it, as seconds where
/// none does. All other characters are passed over.
pub open spec fn units_total(s: Seq<char>) -> nat
    decreases s.len(),
{
    let n = digit_run(s);
    if s.len() == 0 {
        0
    } else if n <= 0 || n > s.len() {
        units_total(s.drop_first())
    } else if n < s.len() && unit_seconds(s[n]) is Some {
        token_value(s.take(n)) * unit_seconds(s[n])->0 + units_total(s.skip(n + 1))
    } else {
        token_value(s.take(n)) + units_total(s.skip(n))
    }
}

/// The seconds that the fields of a clock-format text stand for: seconds
/// last, minutes before them, hours before those.
pub open spec fn clock_total(fields: Seq<Seq<char>>) -> Result<nat, ConfigError> {
    let n = fields.len() as int;
    if n > 3 {
        Err(ConfigError::TooManyClockFields)
    } else if exists|i: int| 0 <= i < n && number_of(#[trigger] fields[i]) is None {
        Err(ConfigError::BadClockField)
    } else {
        let seconds = token_value(fields[n - 1]);
        let minutes = if n >= 2 {
            token_value(fields[n - 2])
        } else {
            0
        };
        let hours = if n >= 3 {
            token_value(fields[n - 3])
        } else {
            0
        };
        Ok(hours * 3600 + minutes * 60 + seconds)
    }
}

/// The policy for so many seconds, where they fit the machine's word.
pub open spec fn timed(seconds: nat, expire_on_resolve: bool) -> Result<Expire, ConfigError> {
    if seconds <= usize::MAX {
        Ok(Expire::Expire(seconds as usize, expire_on_resolve))
    } else {
        Err(ConfigError::ExpirationTooLong)
    }
}

/// The policy that an expiration text stands for.
pub open spec fn expiration_of_text(s: Seq<char>, expire_on_resolve: bool) -> Result<
    Expire,
    ConfigError,
> {
    if s == "none"@ {
        Ok(Expire::NoExpiration(expire_on_resolve))
    } else if s.contains(':') {
        match clock_total(split_on(s, ':')) {
            Ok(seconds) => timed(seconds, expire_on_resolve),
            Err(e) => Err(e),
        }
    } else if has_unit(s) {
        timed(units_total(s), expire_on_resolve)
    } else {
        match number_of(s) {
            Some(n) => Ok(Expire::Expire(n, expire_on_resolve)),
            None => Ok(Expire::Expire(DEFAULT_EXPIRE, expire_on_resolve)),
        }
    }
}

/// The policy that the operator's flags stand for.
pub open spec fn expiration_of(expire: Option<Seq<char>>, expire_on_resolve: bool) -> Result<
    Expire,
    ConfigError,
> {
    match expire {
        Some(s) => expiration_of_text(s, expire_on_resolve),
        None => if expire_on_resolve {
            Ok(Expire::NoExpiration(true))
        } else {
            Ok(Expire::Expire(DEFAULT_EXPIRE, false))
        },
    }
}

/// `digit_run` is the place before which only digits stand and at which
/// none does, or the text ends.
pub proof fn lemma_digit_run(s: Seq<char>, k: int)
    requires
        0 <= k <= s.len(),
        forall|j: int| 0 <= j < k ==> is_digit(#[trigger] s[j]),
        k == s.len() || !is_digit(s[k]),
    ensures
        digit_run(s) == k,
    decreases s.len(),
{
    if k > 0 {
        lemma_digit_run(s.drop_first(), k - 1);
    }
}

fn is_word_none(chars: &Vec<char>) -> (b: bool)
    ensures
        b == (chars@ == "none"@),
{
    proof {
        reveal_strlit("none");
    }
    let b = chars.len() == 4 && chars[0] == 'n' && chars[1] == 'o' && chars[2] == 'n' && chars[3]
        == 'e';
    assert(b ==> chars@ =~= "none"@);
    b
}

fn unit_of(c: char) -> (r: Option<usize>)
    ensures
        r is Some <==> unit_seconds(c) is Some,
        r matches Some(m) ==> m == unit_seconds(c)->0 && m <= 86400,
{
    if c == 'd' {
        Some(86400)
    } else if c == 'h' {
        Some(3600)
    } else if c == 'm' {
        Some(60)
    } else if c == 's' {
        Some(1)
    } else {
        None
    }
}

fn has_unit_letter(chars: &Vec<char>) -> (b: bool)
    ensures
        b == has_unit(chars@),
{
    contains_char(chars, 'd') || contains_char(chars, 'h') || contains_char(chars, 'm')
        || contains_char(chars, 's')
}

fn timed_policy(seconds: u128, expire_on_resolve: bool) -> (r: Result<Expire, ConfigError>)
    ensures
        r == timed(seconds as nat, expire_on_resolve),
{
    if seconds <= usize::MAX as u128 {
        Ok(Expire::Expire(seconds as usize, expire_on_resolve))
    } else {
        Err(ConfigError::ExpirationTooLong)
    }
}

fn read_units(chars: &Vec<char>, expire_on_resolve: bool) -> (r: Result<Expire, ConfigError>)
    ensures
        r == timed(units_total(chars@), expire_on_resolve),
{
    let ghost s = chars@;
    let len = chars.len();
    let mut total: usize = 0;
    let mut i: usize = 0;
    assert(s.skip(0) == s);
    while i < len
        invariant
            i <= len == chars.len(),
            s == chars@,
            total + units_total(s.skip(i as int)) == units_total(s),
        decreases len - i,
    {
        let ghost rest = s.skip(i as int);
        if digit_of(chars[i]).is_none() {
            proof {
                lemma_digit_run(rest, 0);
                assert(rest.drop_first() == s.skip(i + 1));
            }
            i += 1;
        } else {
            let mut j: usize = i + 1;
            while j < len && digit_of(chars[j]).is_some()
                invariant
                    i < j <= len == chars.len(),
                    forall|k: int| i <= k < j ==> is_digit(#[trigger] chars@[k]),
                decreases len - j,
            {
                j += 1;
            }
            let token: usize = match parse_number(chars, i, j) {
                Some(v) => v,
                None => 0,
            };
            proof {
                lemma_digit_run(rest, j - i);
                assert(rest.take(j - i) == s.subrange(i as int, j as int));
            }
            let unit = if j < len {
                unit_of(chars[j])
            } else {
                None
            };
            let (worth, next): (u128, usize) = match unit {
                Some(m) => {
                    assert(token * m <= 0xffff_ffff_ffff_ffff * 86400) by (nonlinear_arith)
                        requires
                            0 <= token <= 0xffff_ffff_ffff_ffff,
                            0 <= m <= 86400,
                    ;
                    assert(rest.skip(j - i + 1) == s.skip(j + 1));
                    (token as u128 * m as u128, j + 1)
                },
                None => {
                    assert(rest.skip(j - i) == s.skip(j as int));
                    (token as u128, j)
                },
            };
            let sum: u128 = total as u128 + worth;
            if sum > usize::MAX as u128 {
                return Err(ConfigError::ExpirationTooLong);
            }
            total = sum as usize;
            i = next;
        }
    }
    timed_policy(total as u128, expire_on_resolve)
}

fn read_clock(s: &str, expire_on_resolve: bool) -> (r: Result<Expire, ConfigError>)
    ensures
        r == match clock_total(split_on(s@, ':')) {
            Ok(seconds) => timed(seconds, expire_on_resolve),
            Err(e) => Err(e),
        },
{
    let fields = split(s, ':');
    let ghost parts = split_on(s@, ':');
    let n = fields.len();
    if n > 3 {
        return Err(ConfigError::TooManyClockFields);
    }
    let mut values: Vec<usize> = Vec::new();
    let mut i: usize = 0;
    while i < n
        invariant
            i <= n == fields.len(),
            n <= 3,
            parts == texts(fields@),
            parts == split_on(s@, ':'),
            values.len() == i,
            forall|k: int| 0 <= k < i ==> number_of(#[trigger] parts[k]) == Some(values@[k]),
        decreases n - i,
    {
        let chars = chars_of(fields[i].as_str());
        assert(chars@.subrange(0, chars.len() as int) == chars@);
        match parse_number(&chars, 0, chars.len()) {
            Some(v) => {
                values.push(v);
            },
            None => {
                return Err(ConfigError::BadClockField);
            },
        }
        i += 1;
    }
    let seconds: u128 = values[n - 1] as u128;
    let minutes: u128 = if n >= 2 {
        values[n - 2] as u128
    } else {
        0
    };
    let hours: u128 = if n >= 3 {
        values[n - 3] as u128
    } else {
        0
    };
    timed_policy(hours * 3600 + minutes * 60 + seconds, expire_on_resolve)
}

/// Reads the operator's expiration flags.
///
/// The word `none` asks for no time limit. A text with a colon is a clock
/// reading of up to three fields, each of which must be a number. A text
/// with a unit letter is a sum of numbers with units. Any other text is a
/// number of seconds, and two hours where it is not a number. Without a text
/// the silence lasts two hours, or until the check resolves where that was
/// asked for.
pub fn get_expiration(expire: Option<String>, expire_on_resolve: bool) -> (r: Result<
    Expire,
    ConfigError,
>)
    ensures
        r == expiration_of(
            match expire {
                Some(s) => Some(s@),
                None => None,
            },
            expire_on_resolve,
        ),
{
    match expire {
        None => {
            if expire_on_resolve {
                Ok(Expire::NoExpiration(true))
            } else {
                Ok(Expire::Expire(DEFAULT_EXPIRE, false))
            }
        },
        Some(text) => {
            let chars = chars_of(text.as_str());
            if is_word_none(&chars) {
                Ok(Expire::NoExpiration(expire_on_resolve))
            } else if contains_char(&chars, ':') {
                read_clock(text.as_str(), expire_on_resolve)
            } else if has_unit_letter(&chars) {
                read_units(&chars, expire_on_resolve)
            } else {
                assert(chars@.subrange(0, chars.len() as int) == chars@);
                match parse_number(&chars, 0, chars.len()) {
                    Some(n) => Ok(Expire::Expire(n, expire_on_resolve)),
                    None => Ok(Expire::Expire(DEFAULT_EXPIRE, expire_on_resolve)),
                }
            }
        },
    }
}

} // verus!
