use vstd::prelude::*;

verus! {

/// Enum with the months of the year.
#[derive(Debug, Clone, Copy, PartialEq, Eq, Structural)]
pub enum Month {
    January,
    February,
    March,
    April,
    May,
    June,
    July,
    August,
    September,
    October,
    November,
    December,
}

/// Full English name of a month, as a sequence of characters.
pub open spec fn spec_month_name(m: Month) -> Seq<char> {
    match m {
        Month::January => "January"@,
        Month::February => "February"@,
        Month::March => "March"@,
        Month::April => "April"@,
        Month::May => "May"@,
        Month::June => "June"@,
        Month::July => "July"@,
        Month::August => "August"@,
        Month::September => "September"@,
        Month::October => "October"@,
        Month::November => "November"@,
        Month::December => "December"@,
    }
}

/// Three-letter abbreviation of a month, as a sequence of characters.
pub open spec fn spec_month_abbrev(m: Month) -> Seq<char> {
    match m {
        Month::January => "Jan"@,
        Month::February => "Feb"@,
        Month::March => "Mar"@,
        Month::April => "Apr"@,
        Month::May => "May"@,
        Month::June => "Jun"@,
        Month::July => "Jul"@,
        Month::August => "Aug"@,
        Month::September => "Sep"@,
        Month::October => "Oct"@,
        Month::November => "Nov"@,
        Month::December => "Dec"@,
    }
}

/// Canonical 1-based index of a month: January = 1, ..., December = 12.
pub open spec fn spec_month_index(m: Month) -> int {
    match m {
        Month::January => 1,
        Month::February => 2,
        Month::March => 3,
        Month::April => 4,
        Month::May => 5,
        Month::June => 6,
        Month::July => 7,
        Month::August => 8,
        Month::September => 9,
        Month::October => 10,
        Month::November => 11,
        Month::December => 12,
    }
}

/// The month with 1-based index `n`, for `n` in 1..=12; `None` otherwise.
pub open spec fn spec_month_from_index(n: int) -> Option<Month> {
    if n == 1 {
        Some(Month::January)
    } else if n == 2 {
        Some(Month::February)
    } else if n == 3 {
        Some(Month::March)
    } else if n == 4 {
        Some(Month::April)
    } else if n == 5 {
        Some(Month::May)
    } else if n == 6 {
        Some(Month::June)
    } else if n == 7 {
        Some(Month::July)
    } else if n == 8 {
        Some(Month::August)
    } else if n == 9 {
        Some(Month::September)
    } else if n == 10 {
        Some(Month::October)
    } else if n == 11 {
        Some(Month::November)
    } else if n == 12 {
        Some(Month::December)
    } else {
        None
    }
}

/// The month preceding `m` in the year; January is mapped to itself.
pub open spec fn spec_prev_month(m: Month) -> Month {
    match m {
        Month::January => Month::January,
        Month::February => Month::January,
        Month::March => Month::February,
        Month::April => Month::March,
        Month::May => Month::April,
        Month::June => Month::May,
        Month::July => Month::June,
        Month::August => Month::July,
        Month::September => Month::August,
        Month::October => Month::September,
        Month::November => Month::October,
        Month::December => Month::November,
    }
}

/// The month following `m` in the year; December wraps to January.
pub open spec fn spec_next_month(m: Month) -> Month {
    match m {
        Month::January => Month::February,
        Month::February => Month::March,
        Month::March => Month::April,
        Month::April => Month::May,
        Month::May => Month::June,
        Month::June => Month::July,
        Month::July => Month::August,
        Month::August => Month::September,
        Month::September => Month::October,
        Month::October => Month::November,
        Month::November => Month::December,
        Month::December => Month::January,
    }
}

/// Maps the `Month` enum to a string representation, e.g. "January".
pub fn month_string(month: Month) -> (r: &'static str)
    ensures
        r@ == spec_month_name(month),
{
    match month {
        Month::January => "January",
        Month::February => "February",
        Month::March => "March",
        Month::April => "April",
        Month::May => "May",
        Month::June => "June",
        Month::July => "July",
        Month::August => "August",
        Month::September => "September",
        Month::October => "October",
        Month::November => "November",
        Month::December => "December",
    }
}

/// Maps the `Month` enum to a shortened string representation, e.g. "Jan".
pub fn month_abbrev_string(month: Month) -> (r: &'static str)
    ensures
        r@ == spec_month_abbrev(month),
{
    match month {
        Month::January => "Jan",
        Month::February => "Feb",
        Month::March => "Mar",
        Month::April => "Apr",
        Month::May => "May",
        Month::June => "Jun",
        Month::July => "Jul",
        Month::August => "Aug",
        Month::September => "Sep",
        Month::October => "Oct",
        Month::November => "Nov",
        Month::December => "Dec",
    }
}

/// Converts a `Month` enum to an integer in the range 1-12.
pub fn index_from_month(month: Month) -> (r: u64)
    ensures
        r == spec_month_index(month),
        1 <= r <= 12,
{
    match month {
        Month::January => 1,
        Month::February => 2,
        Month::March => 3,
        Month::April => 4,
        Month::May => 5,
        Month::June => 6,
        Month::July => 7,
        Month::August => 8,
        Month::September => 9,
        Month::October => 10,
        Month::November => 11,
        Month::December => 12,
    }
}

/// Converts an integer in the range 1-12 into the corresponding `Month` enum.
/// Values outside the 1-12 range are converted to `None`.
pub fn month_from_index(index: u64) -> (r: Option<Month>)
    ensures
        r == spec_month_from_index(index as int),
{
    if index == 1 {
        Some(Month::January)
    } else if index == 2 {
        Some(Month::February)
    } else if index == 3 {
        Some(Month::March)
    } else if index == 4 {
        Some(Month::April)
    } else if index == 5 {
        Some(Month::May)
    } else if index == 6 {
        Some(Month::June)
    } else if index == 7 {
        Some(Month::July)
    } else if index == 8 {
        Some(Month::August)
    } else if index == 9 {
        Some(Month::September)
    } else if index == 10 {
        Some(Month::October)
    } else if index == 11 {
        Some(Month::November)
    } else if index == 12 {
        Some(Month::December)
    } else {
        None
    }
}

/// Law: converting a month to its index and back yields the same month.
pub proof fn lemma_month_index_round_trip(m: Month)
    ensures
        spec_month_from_index(spec_month_index(m)) == Some(m),
{
}

/// Law: an index outside the range 1..=12 corresponds to no month.
pub proof fn lemma_month_from_index_absent(n: int)
    requires
        n < 1 || n > 12,
    ensures
        spec_month_from_index(n) is None,
{
}

/// Law: a month's abbreviation is the first three characters of its name.
pub proof fn lemma_month_abbrev_is_name_prefix(m: Month)
    ensures
        spec_month_abbrev(m) == spec_month_name(m).subrange(0, 3),
{
    reveal_strlit("January");
    reveal_strlit("Jan");
    reveal_strlit("February");
    reveal_strlit("Feb");
    reveal_strlit("March");
    reveal_strlit("Mar");
    reveal_strlit("April");
    reveal_strlit("Apr");
    reveal_strlit("May");
    reveal_strlit("June");
    reveal_strlit("Jun");
    reveal_strlit("July");
    reveal_strlit("Jul");
    reveal_strlit("August");
    reveal_strlit("Aug");
    reveal_strlit("September");
    reveal_strlit("Sep");
    reveal_strlit("October");
    reveal_strlit("Oct");
    reveal_strlit("November");
    reveal_strlit("Nov");
    reveal_strlit("December");
    reveal_strlit("Dec");
    assert(spec_month_abbrev(m) =~= spec_month_name(m).subrange(0, 3));
}

} // verus!
