use vstd::prelude::*;
use vstd::string::StringExecFns;

use crate::epoch::{
    spec_day_of_month0, spec_day_of_week_of, spec_day_of_year0, spec_month_of, spec_year_of,
    PostEpochTime,
};
use crate::month::{month_abbrev_string, spec_month_abbrev};
use crate::weekday::{day_abbrev_string, spec_day_abbrev};

verus! {

/// Decimal digit character for a value in 0..=9.
pub open spec fn spec_digit(n: int) -> char {
    if n == 0 {
        '0'
    } else if n == 1 {
        '1'
    } else if n == 2 {
        '2'
    } else if n == 3 {
        '3'
    } else if n == 4 {
        '4'
    } else if n == 5 {
        '5'
    } else if n == 6 {
        '6'
    } else if n == 7 {
        '7'
    } else if n == 8 {
        '8'
    } else {
        '9'
    }
}

/// Decimal representation of a non-negative integer, most significant digit
/// first, without leading zeros.
pub open spec fn spec_decimal(n: int) -> Seq<char>
    decreases n when n >= 0
{
    if n < 10 {
        seq![spec_digit(n)]
    } else {
        spec_decimal(n / 10).push(spec_digit(n % 10))
    }
}

/// Two-digit, zero-padded decimal representation of a value in 0..=99.
pub open spec fn spec_two_digits(n: int) -> Seq<char> {
    seq![spec_digit(n / 10), spec_digit(n % 10)]
}

/// The rendered form of a point in time: weekday abbreviation, day of the
/// month, month abbreviation and year, then the clock fields zero-padded to
/// two digits, e.g. "Sun, 2 Feb 2020 02:25:40".
pub open spec fn spec_display(p: PostEpochTime) -> Seq<char> {
    let days = p.spec_days();
    let year = spec_year_of(days);
    let doy0 = spec_day_of_year0(days);
    spec_day_abbrev(spec_day_of_week_of(days)) + ", "@ + spec_decimal(
        spec_day_of_month0(year, doy0) + 1,
    ) + " "@ + spec_month_abbrev(spec_month_of(year, doy0)) + " "@ + spec_decimal(year) + " "@
        + spec_two_digits(p.spec_secs() as int % 86400 / 3600) + ":"@ + spec_two_digits(
        p.spec_secs() as int % 86400 % 3600 / 60,
    ) + ":"@ + spec_two_digits(p.spec_secs() as int % 60)
}

/// The single-character string holding the decimal digit for `d`.
fn digit_str(d: u64) -> (r: &'static str)
    requires
        d <= 9,
    ensures
        r@ == seq![spec_digit(d as int)],
{
    if d == 0 {
        proof {
            reveal_strlit("0");
            assert("0"@ =~= seq!['0']);
        }
        "0"
    } else if d == 1 {
        proof {
            reveal_strlit("1");
            assert("1"@ =~= seq!['1']);
        }
        "1"
    } else if d == 2 {
        proof {
            reveal_strlit("2");
            assert("2"@ =~= seq!['2']);
        }
        "2"
    } else if d == 3 {
        proof {
            reveal_strlit("3");
            assert("3"@ =~= seq!['3']);
        }
        "3"
    } else if d == 4 {
        proof {
            reveal_strlit("4");
            assert("4"@ =~= seq!['4']);
        }
        "4"
    } else if d == 5 {
        proof {
            reveal_strlit("5");
            assert("5"@ =~= seq!['5']);
        }
        "5"
    } else if d == 6 {
        proof {
            reveal_strlit("6");
            assert("6"@ =~= seq!['6']);
        }
        "6"
    } else if d == 7 {
        proof {
            reveal_strlit("7");
            assert("7"@ =~= seq!['7']);
        }
        "7"
    } else if d == 8 {
        proof {
            reveal_strlit("8");
            assert("8"@ =~= seq!['8']);
        }
        "8"
    } else {
        proof {
            reveal_strlit("9");
            assert("9"@ =~= seq!['9']);
        }
        "9"
    }
}

/// Renders a non-negative integer in decimal, without leading zeros.
fn decimal_string(n: u64) -> (r: String)
    ensures
        r@ == spec_decimal(n as int),
    decreases n,
{
    if n <= 9 {
        String::from_str(digit_str(n))
    } else {
        let mut s = decimal_string(n / 10);
        s.append(digit_str(n % 10));
        proof {
            assert(spec_decimal(n as int / 10).push(spec_digit(n as int % 10)) =~= spec_decimal(
                n as int / 10,
            ) + seq![spec_digit(n as int % 10)]);
        }
        s
    }
}

/// Renders a value in 0..=99 as exactly two decimal digits.
fn two_digit_string(n: u64) -> (r: String)
    requires
        n <= 99,
    ensures
        r@ == spec_two_digits(n as int),
{
    let mut s = String::from_str(digit_str(n / 10));
    s.append(digit_str(n % 10));
    proof {
        assert(s@ =~= spec_two_digits(n as int));
    }
    s
}

impl PostEpochTime {
    /// Renders this point in time as a human-readable date-time string,
    /// e.g. "Sun, 2 Feb 2020 02:25:40".
    pub fn display_string(&self) -> (r: String)
        ensures
            r@ == spec_display(*self),
    {
        let mut s = String::from_str(day_abbrev_string(self.day_of_week()));
        s.append(", ");
        let dom = decimal_string(self.day_of_month());
        s.append(dom.as_str());
        s.append(" ");
        s.append(month_abbrev_string(self.month()));
        s.append(" ");
        let year = decimal_string(self.year());
        s.append(year.as_str());
        s.append(" ");
        let hour = two_digit_string(self.hour());
        s.append(hour.as_str());
        s.append(":");
        let minute = two_digit_string(self.minute());
        s.append(minute.as_str());
        s.append(":");
        let second = two_digit_string(self.second());
        s.append(second.as_str());
        s
    }
}

} // verus!
