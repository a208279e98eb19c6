use vstd::prelude::*;

verus! {

/// Enum with the seven days of the week.
#[derive(Debug, Clone, Copy, PartialEq, Eq, Structural)]
pub enum Day {
    Sunday,
    Monday,
    Tuesday,
    Wednesday,
    Thursday,
    Friday,
    Saturday,
}

/// Full English name of a weekday, as a sequence of characters.
pub open spec fn spec_day_name(d: Day) -> Seq<char> {
    match d {
        Day::Sunday => "Sunday"@,
        Day::Monday => "Monday"@,
        Day::Tuesday => "Tuesday"@,
        Day::Wednesday => "Wednesday"@,
        Day::Thursday => "Thursday"@,
        Day::Friday => "Friday"@,
        Day::Saturday => "Saturday"@,
    }
}

/// Three-letter abbreviation of a weekday, as a sequence of characters.
pub open spec fn spec_day_abbrev(d: Day) -> Seq<char> {
    match d {
        Day::Sunday => "Sun"@,
        Day::Monday => "Mon"@,
        Day::Tuesday => "Tue"@,
        Day::Wednesday => "Wed"@,
        Day::Thursday => "Thu"@,
        Day::Friday => "Fri"@,
        Day::Saturday => "Sat"@,
    }
}

/// The weekday following `d`; Saturday wraps to Sunday.
pub open spec fn spec_next_day(d: Day) -> Day {
    match d {
        Day::Sunday => Day::Monday,
        Day::Monday => Day::Tuesday,
        Day::Tuesday => Day::Wednesday,
        Day::Wednesday => Day::Thursday,
        Day::Thursday => Day::Friday,
        Day::Friday => Day::Saturday,
        Day::Saturday => Day::Sunday,
    }
}

/// Maps the `Day` enum to a string representation, e.g. "Monday".
pub fn day_string(day: Day) -> (r: &'static str)
    ensures
        r@ == spec_day_name(day),
{
    match day {
        Day::Sunday => "Sunday",
        Day::Monday => "Monday",
        Day::Tuesday => "Tuesday",
        Day::Wednesday => "Wednesday",
        Day::Thursday => "Thursday",
        Day::Friday => "Friday",
        Day::Saturday => "Saturday",
    }
}

/// Maps the `Day` enum to a shortened string representation, e.g. "Mon".
pub fn day_abbrev_string(day: Day) -> (r: &'static str)
    ensures
        r@ == spec_day_abbrev(day),
{
    match day {
        Day::Sunday => "Sun",
        Day::Monday => "Mon",
        Day::Tuesday => "Tue",
        Day::Wednesday => "Wed",
        Day::Thursday => "Thu",
        Day::Friday => "Fri",
        Day::Saturday => "Sat",
    }
}

/// Law: a weekday's abbreviation is the first three characters of its name.
pub proof fn lemma_day_abbrev_is_name_prefix(d: Day)
    ensures
        spec_day_abbrev(d) == spec_day_name(d).subrange(0, 3),
{
    reveal_strlit("Sunday");
    reveal_strlit("Sun");
    reveal_strlit("Monday");
    reveal_strlit("Mon");
    reveal_strlit("Tuesday");
    reveal_strlit("Tue");
    reveal_strlit("Wednesday");
    reveal_strlit("Wed");
    reveal_strlit("Thursday");
    reveal_strlit("Thu");
    reveal_strlit("Friday");
    reveal_strlit("Fri");
    reveal_strlit("Saturday");
    reveal_strlit("Sat");
    assert(spec_day_abbrev(d) =~= spec_day_name(d).subrange(0, 3));
}

} // verus!
