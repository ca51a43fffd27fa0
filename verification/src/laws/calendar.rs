//! Laws of instants, dates and their texts.
use vstd::prelude::*;

verus! {

/// Rounding down gives a multiple of the span that is at most one span below.
/// It fails for a span that is not positive and for what exceeds 64 bits.
pub proof fn rounding_down(stamp: int, span: int)
    ensures
        crate::time::truncated(stamp, span) is Some <==> 0 < span <= 0x7fff_ffff_ffff_ffff
            && -0x8000_0000_0000_0000 <= stamp <= 0x7fff_ffff_ffff_ffff,
        crate::time::truncated(stamp, span) matches Some(t) ==> t <= stamp < t + span && t % span
            == 0 && t == (stamp / span) * span,
{
    if 0 < span {
        vstd::arithmetic::div_mod::lemma_fundamental_div_mod(stamp, span);
        vstd::arithmetic::div_mod::lemma_mod_multiples_basic(stamp / span, span);
        vstd::arithmetic::div_mod::lemma_mod_bound(stamp, span);
        assert(stamp - stamp % span == (stamp / span) * span) by (nonlinear_arith)
            requires
                stamp == span * (stamp / span) + stamp % span,
        ;
    }
}

/// A difference counts its whole seconds, and as many when it is turned round.
pub proof fn seconds_between(diff: int)
    ensures
        diff >= 0 ==> crate::time::whole_seconds(diff) * 1_000_000_000 <= diff < (
        crate::time::whole_seconds(diff) + 1) * 1_000_000_000,
        crate::time::whole_seconds(-diff) == -crate::time::whole_seconds(diff),
{
}

/// January, March, May, July, August, October and December have 31 days,
/// April, June, September and November 30, and February 28, or 29 in every
/// fourth year but those of full centuries not divisible by four.
pub proof fn month_lengths(year: int, month: int, century: int)
    requires
        year == 100 * century + year % 100,
    ensures
        month == 1 || month == 3 || month == 5 || month == 7 || month == 8 || month == 10 || month
            == 12 ==> crate::time::month_days(year, month) == 31,
        month == 4 || month == 6 || month == 9 || month == 11 ==> crate::time::month_days(
            year,
            month,
        ) == 30,
        year % 4 != 0 ==> crate::time::month_days(year, 2) == 28,
        year % 4 == 0 && year % 100 != 0 ==> crate::time::month_days(year, 2) == 29,
        year % 100 == 0 ==> crate::time::month_days(year, 2) == (if century % 4 == 0 {
            29int
        } else {
            28
        }),
{
}

/// A day has the one date that falls on it.
pub proof fn the_date_of_a_day(day: int, date: (int, int, int))
    requires
        crate::time::date_on(day, date),
    ensures
        crate::time::date_of_day(day) == date,
{
    let d = crate::time::date_of_day(day);
    assert(crate::time::date_on(day, d));
    crate::time::date_is_unique(d, date);
}

/// Days are counted from the first of January 1970.
pub proof fn counting_starts_in_1970()
    ensures
        crate::time::date_on(0, (1970, 1, 1)),
        crate::time::calendar_date(0) == (1970int, 1int, 1int),
{
    the_date_of_a_day(0, (1970, 1, 1));
}

proof fn lemma_time_of_day(local: int, hour: int, minute: int)
    requires
        0 <= hour < 24,
        0 <= minute < 60,
        0 <= local - 86_400 * (local / 86_400) - 3600 * hour - 60 * minute < 60,
    ensures
        local % 86_400 / 3600 == hour,
        local % 3600 / 60 == minute,
{
    let rest = local % 86_400;
    assert(local == 86_400 * (local / 86_400) + rest);
    assert(3600 * hour + 60 * minute <= rest < 3600 * hour + 60 * minute + 60);
    assert(rest / 3600 == hour);
    assert(local % 3600 == rest % 3600);
    assert(60 * minute <= rest - 3600 * hour < 60 * minute + 60);
}

/// Hours and minutes of local time are those since its midnight.
pub proof fn printed_time_of_day(secs: int, offset: int, hour: int, minute: int)
    requires
        0 <= hour < 24,
        0 <= minute < 60,
        0 <= secs + offset - 86_400 * ((secs + offset) / 86_400) - 3600 * hour - 60 * minute < 60,
    ensures
        crate::time::clock_text(secs + offset) == crate::text::dec2_text(hour as nat) + ":"@
            + crate::text::dec2_text(minute as nat),
        crate::time::calendar_text(secs, offset, "%H:%M"@) == crate::text::dec2_text(hour as nat)
            + ":"@ + crate::text::dec2_text(minute as nat),
{
    lemma_time_of_day(secs + offset, hour, minute);
}

/// A second of local time is printed as the month and day of its date, as its
/// month and year, or as month, day and time of day.
pub proof fn printed_dates(secs: int, offset: int, date: (int, int, int))
    requires
        crate::time::date_on((secs + offset) / 86_400, date),
    ensures
        crate::time::calendar_text(secs, offset, "%b %d"@) == crate::time::month_name(date.1)
            + " "@ + crate::text::dec2_text(date.2 as nat),
        crate::time::calendar_text(secs, offset, "%b %Y"@) == crate::time::month_name(date.1)
            + " "@ + crate::time::year_text(date.0),
        crate::time::calendar_text(secs, offset, "%m-%d %H:%M"@) == crate::text::dec2_text(
            date.1 as nat,
        ) + "-"@ + crate::text::dec2_text(date.2 as nat) + " "@ + crate::time::clock_text(
            secs + offset,
        ),
        1000 <= date.0 < 10_000 ==> crate::time::year_text(date.0) == crate::text::dec_text(
            date.0 as nat,
        ),
{
    reveal_strlit("%H:%M");
    reveal_strlit("%b %d");
    reveal_strlit("%b %Y");
    reveal_strlit("%m-%d %H:%M");
    assert("%b %d"@[1] == 'b');
    assert("%b %Y"@[1] == 'b');
    assert("%H:%M"@[1] == 'H');
    assert("%b %d"@[4] == 'd');
    assert("%b %Y"@[4] == 'Y');
    assert("%m-%d %H:%M"@[1] == 'm');
    the_date_of_a_day((secs + offset) / 86_400, date);
}

/// The months by their English abbreviations.
pub proof fn month_names(month: int)
    ensures
        month == 1 ==> crate::time::month_name(month) == "Jan"@,
        month == 2 ==> crate::time::month_name(month) == "Feb"@,
        month == 3 ==> crate::time::month_name(month) == "Mar"@,
        month == 4 ==> crate::time::month_name(month) == "Apr"@,
        month == 5 ==> crate::time::month_name(month) == "May"@,
        month == 6 ==> crate::time::month_name(month) == "Jun"@,
        month == 7 ==> crate::time::month_name(month) == "Jul"@,
        month == 8 ==> crate::time::month_name(month) == "Aug"@,
        month == 9 ==> crate::time::month_name(month) == "Sep"@,
        month == 10 ==> crate::time::month_name(month) == "Oct"@,
        month == 11 ==> crate::time::month_name(month) == "Nov"@,
        month == 12 ==> crate::time::month_name(month) == "Dec"@,
{
}

/// A year of up to four digits is padded to four; a longer one carries a plus
/// sign, and one before the year zero a minus sign.
pub proof fn printed_years(year: int)
    ensures
        0 <= year < 10_000 ==> crate::time::year_text(year).len() == 4 && crate::text::dec_value(
            crate::time::year_text(year),
        ) == year,
        year >= 10_000 ==> crate::time::year_text(year) == "+"@ + crate::text::dec_text(
            year as nat,
        ),
        -10_000 < year < 0 ==> crate::time::year_text(year) == "-"@ + crate::time::year_text(-year),
{
    if 0 <= year < 10_000 {
        let n = year as nat;
        crate::laws::texts::printed_number(n);
        crate::laws::texts::padded_number(n);
        reveal_strlit("00");
        reveal_strlit("0");
        if n < 100 {
            lemma_leading_zeros(crate::text::dec2_text(n));
            assert("00"@ =~= seq!['0', '0']);
        } else if n < 1000 {
            lemma_leading_zeros(crate::text::dec_text(n));
            assert("0"@ =~= seq!['0']);
            lemma_length(n);
        } else {
            lemma_length(n);
        }
    }
}

proof fn lemma_length(n: nat)
    requires
        100 <= n < 10_000,
    ensures
        n < 1000 ==> crate::text::dec_text(n).len() == 3,
        n >= 1000 ==> crate::text::dec_text(n).len() == 4,
{
    reveal_with_fuel(crate::text::dec_text, 4);
}

proof fn lemma_leading_zeros(s: Seq<char>)
    ensures
        crate::text::dec_value(seq!['0'] + s) == crate::text::dec_value(s),
        crate::text::dec_value(seq!['0', '0'] + s) == crate::text::dec_value(s),
    decreases s.len(),
{
    let a = seq!['0'] + s;
    let b = seq!['0', '0'] + s;
    if s.len() == 0 {
        assert(a =~= seq!['0'] && b =~= seq!['0', '0']);
        assert(seq!['0'].drop_last() =~= Seq::empty());
        assert(seq!['0', '0'].drop_last() =~= seq!['0']);
        reveal_with_fuel(crate::text::dec_value, 3);
    } else {
        lemma_leading_zeros(s.drop_last());
        assert(a.drop_last() =~= seq!['0'] + s.drop_last());
        assert(b.drop_last() =~= seq!['0', '0'] + s.drop_last());
    }
}

} // verus!
