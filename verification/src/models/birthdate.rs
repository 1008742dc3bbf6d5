//! Birthdates: a month and a day, read from text such as `April 10`.

use crate::pattern::{captured, captures, groups_view};
use crate::text::{str_chars, str_eq};
use crate::utils::{ordinal, ordinal_number};
use std::cmp::Ordering;
use vstd::prelude::*;
use vstd::std_specs::cmp::PartialOrdSpecImpl;

verus! {

/// A month of the year.
#[derive(Debug, Clone, Copy, PartialEq, Eq, Hash, PartialOrd, Ord, Structural)]
pub enum Month {
    January,
    February,
    March,
    April,
    May,
    June,
    July,
    August,
    September,
    October,
    November,
    December,
}

impl Month {
    /// The English name of the month.
    pub open spec fn spec_label(self) -> Seq<char> {
        match self {
            Month::January => "January"@,
            Month::February => "February"@,
            Month::March => "March"@,
            Month::April => "April"@,
            Month::May => "May"@,
            Month::June => "June"@,
            Month::July => "July"@,
            Month::August => "August"@,
            Month::September => "September"@,
            Month::October => "October"@,
            Month::November => "November"@,
            Month::December => "December"@,
        }
    }

    /// The number of the month in the year, from 1 to 12.
    pub open spec fn spec_number(self) -> nat {
        match self {
            Month::January => 1,
            Month::February => 2,
            Month::March => 3,
            Month::April => 4,
            Month::May => 5,
            Month::June => 6,
            Month::July => 7,
            Month::August => 8,
            Month::September => 9,
            Month::October => 10,
            Month::November => 11,
            Month::December => 12,
        }
    }

    /// The month of that English name, if it is one.
    pub open spec fn spec_from_name(name: Seq<char>) -> Option<Month> {
        if name == "January"@ {
            Some(Month::January)
        } else if name == "February"@ {
            Some(Month::February)
        } else if name == "March"@ {
            Some(Month::March)
        } else if name == "April"@ {
            Some(Month::April)
        } else if name == "May"@ {
            Some(Month::May)
        } else if name == "June"@ {
            Some(Month::June)
        } else if name == "July"@ {
            Some(Month::July)
        } else if name == "August"@ {
            Some(Month::August)
        } else if name == "September"@ {
            Some(Month::September)
        } else if name == "October"@ {
            Some(Month::October)
        } else if name == "November"@ {
            Some(Month::November)
        } else if name == "December"@ {
            Some(Month::December)
        } else {
            None
        }
    }

    /// The English name of the month.
    pub fn label(&self) -> (r: &'static str)
        ensures
            r@ == self.spec_label(),
    {
        match self {
            Month::January => "January",
            Month::February => "February",
            Month::March => "March",
            Month::April => "April",
            Month::May => "May",
            Month::June => "June",
            Month::July => "July",
            Month::August => "August",
            Month::September => "September",
            Month::October => "October",
            Month::November => "November",
            Month::December => "December",
        }
    }

    /// The number of the month in the year, from 1 to 12.
    pub fn number(&self) -> (r: u8)
        ensures
            r == self.spec_number(),
    {
        match self {
            Month::January => 1,
            Month::February => 2,
            Month::March => 3,
            Month::April => 4,
            Month::May => 5,
            Month::June => 6,
            Month::July => 7,
            Month::August => 8,
            Month::September => 9,
            Month::October => 10,
            Month::November => 11,
            Month::December => 12,
        }
    }

    /// The month of that English name, if it is one; the name is matched
    /// letter for letter.
    pub fn from_name(name: &str) -> (r: Option<Month>)
        ensures
            r == Month::spec_from_name(name@),
    {
        if str_eq(name, "January") {
            Some(Month::January)
        } else if str_eq(name, "February") {
            Some(Month::February)
        } else if str_eq(name, "March") {
            Some(Month::March)
        } else if str_eq(name, "April") {
            Some(Month::April)
        } else if str_eq(name, "May") {
            Some(Month::May)
        } else if str_eq(name, "June") {
            Some(Month::June)
        } else if str_eq(name, "July") {
            Some(Month::July)
        } else if str_eq(name, "August") {
            Some(Month::August)
        } else if str_eq(name, "September") {
            Some(Month::September)
        } else if str_eq(name, "October") {
            Some(Month::October)
        } else if str_eq(name, "November") {
            Some(Month::November)
        } else if str_eq(name, "December") {
            Some(Month::December)
        } else {
            None
        }
    }
}

/// The value of the decimal digit `c`, if it is one of `0` to `9`.
pub open spec fn digit_value(c: char) -> Option<nat> {
    if c == '0' {
        Some(0)
    } else if c == '1' {
        Some(1)
    } else if c == '2' {
        Some(2)
    } else if c == '3' {
        Some(3)
    } else if c == '4' {
        Some(4)
    } else if c == '5' {
        Some(5)
    } else if c == '6' {
        Some(6)
    } else if c == '7' {
        Some(7)
    } else if c == '8' {
        Some(8)
    } else if c == '9' {
        Some(9)
    } else {
        None
    }
}

/// Whether every character of `s` is a decimal digit.
pub open spec fn all_digits(s: Seq<char>) -> bool {
    forall|i: int| 0 <= i < s.len() ==> digit_value(#[trigger] s[i]) is Some
}

/// The number that the digits of `s` write in base ten.
pub open spec fn digits_value(s: Seq<char>) -> nat
    decreases s.len(),
{
    if s.len() == 0 {
        0
    } else {
        digits_value(s.drop_last()) * 10 + digit_value(s.last()).unwrap_or(0)
    }
}

/// The day that `s` writes: an optional `+`, then at least one digit and
/// nothing else, the number being at most 255.
pub open spec fn parse_day(s: Seq<char>) -> Option<u8> {
    let digits = if s.len() > 0 && s[0] == '+' {
        s.skip(1)
    } else {
        s
    };
    if digits.len() > 0 && all_digits(digits) && digits_value(digits) <= 255 {
        Some(digits_value(digits) as u8)
    } else {
        None
    }
}

proof fn lemma_digits_value_grows(s: Seq<char>, n: int)
    requires
        0 <= n <= s.len(),
    ensures
        digits_value(s.take(n)) <= digits_value(s),
    decreases s.len() - n,
{
    if n == s.len() {
        assert(s.take(n) =~= s);
    } else {
        lemma_digits_value_grows(s, n + 1);
        assert(s.take(n + 1).drop_last() =~= s.take(n));
    }
}

fn digit_of(c: char) -> (r: Option<u8>)
    ensures
        match r {
            Some(d) => digit_value(c) == Some(d as nat),
            None => digit_value(c) is None,
        },
{
    match c {
        '0' => Some(0),
        '1' => Some(1),
        '2' => Some(2),
        '3' => Some(3),
        '4' => Some(4),
        '5' => Some(5),
        '6' => Some(6),
        '7' => Some(7),
        '8' => Some(8),
        '9' => Some(9),
        _ => None,
    }
}

/// Reads a day as the standard library reads a `u8` from text.
pub fn day_from_text(text: &str) -> (r: Option<u8>)
    ensures
        r == parse_day(text@),
{
    let chars = str_chars(text);
    let start: usize = if chars.len() > 0 && chars[0] == '+' {
        1
    } else {
        0
    };
    let ghost digits = if text@.len() > 0 && text@[0] == '+' {
        text@.skip(1)
    } else {
        text@
    };
    proof {
        assert(digits =~= chars@.skip(start as int));
    }
    if start == chars.len() {
        return None;
    }
    let mut value: u16 = 0;
    let mut i: usize = start;
    while i < chars.len()
        invariant
            start <= i <= chars.len(),
            digits == chars@.skip(start as int),
            digits == if text@.len() > 0 && text@[0] == '+' {
                text@.skip(1)
            } else {
                text@
            },
            all_digits(digits.take(i - start)),
            value == digits_value(digits.take(i - start)),
            value <= 255,
        decreases chars.len() - i,
    {
        let ghost seen = digits.take(i - start);
        let ghost next = digits.take(i - start + 1);
        proof {
            assert(next.drop_last() =~= seen);
            assert(next.last() == chars@[i as int]);
        }
        match digit_of(chars[i]) {
            Some(d) => {
                value = value * 10 + d as u16;
                proof {
                    assert forall|k: int| 0 <= k < next.len() implies digit_value(
                        #[trigger] next[k],
                    ) is Some by {
                        if k < seen.len() {
                            assert(next[k] == seen[k]);
                        }
                    }
                }
                if value > 255 {
                    proof {
                        lemma_digits_value_grows(digits, i - start + 1);
                    }
                    return None;
                }
            },
            None => {
                assert(digit_value(digits[i - start]) is None);
                return None;
            },
        }
        i += 1;
    }
    proof {
        assert(digits.take(i - start) =~= digits);
    }
    Some(value as u8)
}

/// Why a text gives no birthdate.
#[derive(Debug, Clone, Copy, PartialEq, Eq, Structural)]
pub enum BirthdateError {
    /// The text holds no word followed by a number.
    NotFound,
    /// The word is not the name of a month.
    InvalidMonth,
    /// The number is no day.
    InvalidDay,
    /// The pattern engine turned the pattern for dates down.
    Pattern,
}

impl BirthdateError {
    /// The error in words.
    pub open spec fn spec_message(self) -> Seq<char> {
        match self {
            BirthdateError::NotFound => "could not find date"@,
            BirthdateError::InvalidMonth => "invalid month"@,
            BirthdateError::InvalidDay => "invalid day"@,
            BirthdateError::Pattern => "invalid date pattern"@,
        }
    }

    /// The error in words.
    pub fn message(&self) -> (r: &'static str)
        ensures
            r@ == self.spec_message(),
    {
        match self {
            BirthdateError::NotFound => "could not find date",
            BirthdateError::InvalidMonth => "invalid month",
            BirthdateError::InvalidDay => "invalid day",
            BirthdateError::Pattern => "invalid date pattern",
        }
    }
}

/// The pattern that finds a date in a text: a word, blank space, and a
/// number of one or two digits.
pub const DATE_PATTERN: &'static str = "(?P<month>\\w+)\\s+(?P<day>\\d{1,2})";

/// A day of the year: the month, then the day of the month.
#[derive(Debug, Clone, Copy, PartialEq, Eq, Hash, Ord, Structural)]
pub struct Birthdate(pub Month, pub u8);

impl PartialOrd for Birthdate {
    fn partial_cmp(&self, other: &Self) -> (r: Option<Ordering>) {
        let a = self.0.number();
        let b = other.0.number();
        if a < b {
            Some(Ordering::Less)
        } else if a > b {
            Some(Ordering::Greater)
        } else if self.1 < other.1 {
            Some(Ordering::Less)
        } else if self.1 > other.1 {
            Some(Ordering::Greater)
        } else {
            Some(Ordering::Equal)
        }
    }
}

impl PartialOrdSpecImpl for Birthdate {
    open spec fn obeys_partial_cmp_spec() -> bool {
        true
    }

    open spec fn partial_cmp_spec(&self, other: &Birthdate) -> Option<Ordering> {
        if self.0.spec_number() < other.0.spec_number() {
            Some(Ordering::Less)
        } else if self.0.spec_number() > other.0.spec_number() {
            Some(Ordering::Greater)
        } else if self.1 < other.1 {
            Some(Ordering::Less)
        } else if self.1 > other.1 {
            Some(Ordering::Greater)
        } else {
            Some(Ordering::Equal)
        }
    }
}

impl Birthdate {
    /// The birthdate in words: the month and the ordinal of the day.
    pub open spec fn spec_text(self) -> Seq<char> {
        self.0.spec_label() + " "@ + ordinal(self.1 as nat)
    }

    /// What the groups of a match of the date pattern give: the month from
    /// group 1 and the day from group 2, the month being looked at first.
    pub open spec fn spec_from_groups(groups: Seq<Option<Seq<char>>>) -> Result<
        Birthdate,
        BirthdateError,
    > {
        if groups.len() < 3 || groups[1] is None || groups[2] is None {
            Err(BirthdateError::NotFound)
        } else {
            match Month::spec_from_name(groups[1]->0) {
                None => Err(BirthdateError::InvalidMonth),
                Some(month) => match parse_day(groups[2]->0) {
                    None => Err(BirthdateError::InvalidDay),
                    Some(day) => Ok(Birthdate(month, day)),
                },
            }
        }
    }

    /// What a text gives, by what the pattern engine finds in it.
    pub open spec fn spec_from_str(s: Seq<char>) -> Result<Birthdate, BirthdateError> {
        match captured(DATE_PATTERN@, s) {
            None => Err(BirthdateError::Pattern),
            Some(None) => Err(BirthdateError::NotFound),
            Some(Some(groups)) => Birthdate::spec_from_groups(groups),
        }
    }

    /// The birthdate in words, such as `April 10th`.
    pub fn to_text(&self) -> (r: String)
        ensures
            r@ == self.spec_text(),
    {
        let mut r = String::from_str(self.0.label());
        r.append(" ");
        let day = ordinal_number(self.1);
        r.append(day.as_str());
        r
    }

    /// Builds the birthdate from the groups of a match of the date pattern.
    pub fn from_groups(groups: &Vec<Option<String>>) -> (r: Result<Birthdate, BirthdateError>)
        ensures
            r == Birthdate::spec_from_groups(groups_view(groups@)),
    {
        if groups.len() < 3 {
            return Err(BirthdateError::NotFound);
        }
        match (&groups[1], &groups[2]) {
            (Some(month), Some(day)) => {
                match Month::from_name(month.as_str()) {
                    None => Err(BirthdateError::InvalidMonth),
                    Some(month) => match day_from_text(day.as_str()) {
                        None => Err(BirthdateError::InvalidDay),
                        Some(day) => Ok(Birthdate(month, day)),
                    },
                }
            },
            _ => Err(BirthdateError::NotFound),
        }
    }

    /// Reads the first date that a text holds.
    pub fn from_str(s: &str) -> (r: Result<Birthdate, BirthdateError>)
        ensures
            r == Birthdate::spec_from_str(s@),
    {
        match captures(DATE_PATTERN, s) {
            None => Err(BirthdateError::Pattern),
            Some(None) => Err(BirthdateError::NotFound),
            Some(Some(groups)) => Birthdate::from_groups(&groups),
        }
    }
}

} // verus!
