//! Reading an age back: the duration that an age text spells out.
//!
//! Nothing here runs. The reading is the yardstick for the age texts: it
//! shows that a text stands for exactly the duration it was written from, and
//! so that an older object never shows a shorter age.

use crate::age::{
    age_at, age_seconds, age_text, component, decimal, digit, duration_text,
    lemma_age_seconds_monotonic, magnitude, signed, SECONDS_PER_DAY, SECONDS_PER_HOUR,
    SECONDS_PER_MINUTE, SECONDS_PER_WEEK,
};
use vstd::prelude::*;

verus! {

/// The value of a decimal digit; nothing for any other character.
pub open spec fn digit_value(c: char) -> Option<nat> {
    if c == '0' {
        Some(0)
    } else if c == '1' {
        Some(1)
    } else if c == '2' {
        Some(2)
    } else if c == '3' {
        Some(3)
    } else if c == '4' {
        Some(4)
    } else if c == '5' {
        Some(5)
    } else if c == '6' {
        Some(6)
    } else if c == '7' {
        Some(7)
    } else if c == '8' {
        Some(8)
    } else if c == '9' {
        Some(9)
    } else {
        None
    }
}

/// The number of seconds in the unit that a letter stands for; nothing for
/// any other character.
pub open spec fn unit_seconds(c: char) -> Option<nat> {
    if c == 'w' {
        Some(SECONDS_PER_WEEK as nat)
    } else if c == 'd' {
        Some(SECONDS_PER_DAY as nat)
    } else if c == 'h' {
        Some(SECONDS_PER_HOUR as nat)
    } else if c == 'm' {
        Some(SECONDS_PER_MINUTE as nat)
    } else {
        None
    }
}

/// The seconds that `text` spells out when read from the left in the
/// middle of a part: `count` is the number that the digits of the part read
/// so far, `negative` whether the part began with a minus sign.
pub open spec fn spelled_from(text: Seq<char>, count: nat, negative: bool) -> int
    decreases text.len(),
{
    if text.len() == 0 {
        0
    } else {
        let c = text[0];
        let rest = text.subrange(1, text.len() as int);
        if c == '-' {
            spelled_from(rest, count, true)
        } else if digit_value(c) is Some {
            spelled_from(rest, count * 10 + digit_value(c).unwrap(), negative)
        } else if unit_seconds(c) is Some {
            signed(negative, count * unit_seconds(c).unwrap()) + spelled_from(rest, 0, false)
        } else {
            spelled_from(rest, count, negative)
        }
    }
}

/// The duration, in seconds, that an age text spells out: the sum of its
/// parts, each a count times its unit, taken negative after a minus sign.
pub open spec fn spelled_seconds(text: Seq<char>) -> int {
    spelled_from(text, 0, false)
}

/// The number read when the digits of `n` follow digits that read `count`.
spec fn appended(count: nat, n: nat) -> nat
    decreases n,
{
    if n < 10 {
        count * 10 + n
    } else {
        appended(count, n / 10) * 10 + n % 10
    }
}

/// Digits that follow nothing read as their own number.
proof fn lemma_appended_to_nothing(n: nat)
    ensures
        appended(0, n) == n,
    decreases n,
{
    if n >= 10 {
        lemma_appended_to_nothing(n / 10);
    }
}

/// Reading one digit moves the count one place up and adds the digit.
proof fn lemma_read_digit(value: nat, rest: Seq<char>, count: nat, negative: bool)
    requires
        value < 10,
    ensures
        spelled_from(seq![digit(value)] + rest, count, negative) == spelled_from(
            rest,
            count * 10 + value,
            negative,
        ),
{
    let text = seq![digit(value)] + rest;
    assert(text[0] == digit(value));
    assert(text.subrange(1, text.len() as int) =~= rest);
    assert(digit_value(digit(value)) == Some(value));
}

/// Reading a number in decimal appends its digits to the count.
proof fn lemma_read_decimal(n: nat, rest: Seq<char>, count: nat, negative: bool)
    ensures
        spelled_from(decimal(n) + rest, count, negative) == spelled_from(
            rest,
            appended(count, n),
            negative,
        ),
    decreases n,
{
    if n < 10 {
        lemma_read_digit(n, rest, count, negative);
    } else {
        let last = seq![digit(n % 10)] + rest;
        assert(decimal(n) + rest =~= decimal(n / 10) + last);
        lemma_read_decimal(n / 10, last, count, negative);
        lemma_read_digit(n % 10, rest, appended(count, n / 10), negative);
    }
}

/// A part reads as its count times its unit, negative after a minus sign,
/// and leaves what follows to be read afresh.
proof fn lemma_read_component(negative: bool, count: nat, unit: char, rest: Seq<char>)
    requires
        unit_seconds(unit) is Some,
    ensures
        spelled_from(component(negative, count, unit) + rest, 0, false) == signed(
            negative,
            count * unit_seconds(unit).unwrap(),
        ) + spelled_from(rest, 0, false),
{
    let text = component(negative, count, unit) + rest;
    if count == 0 {
        assert(text =~= rest);
    } else {
        let tail = seq![unit] + rest;
        assert(tail[0] == unit);
        assert(tail.subrange(1, tail.len() as int) =~= rest);
        lemma_appended_to_nothing(count);
        if negative {
            let unsigned = decimal(count) + tail;
            assert(text =~= seq!['-'] + unsigned);
            assert(text[0] == '-');
            assert(text.subrange(1, text.len() as int) =~= unsigned);
            lemma_read_decimal(count, tail, 0, true);
        } else {
            assert(text =~= decimal(count) + tail);
            lemma_read_decimal(count, tail, 0, false);
        }
    }
}

/// Weeks, days, hours and minutes, as a duration is split into them, add up
/// to the duration without its odd seconds.
proof fn lemma_parts_add_up(seconds: nat)
    ensures
        (seconds / 604_800) * 604_800 + (seconds / 86_400 % 7) * 86_400 + (seconds / 3_600 % 24)
            * 3_600 + (seconds / 60 % 60) * 60 == seconds - seconds % 60,
{
    let minutes = seconds / 60;
    let hours = seconds / 3_600;
    let days = seconds / 86_400;
    let weeks = seconds / 604_800;
    assert(hours == minutes / 60);
    assert(days == hours / 24);
    assert(weeks == days / 7);
}

/// The four parts of a duration read as their counts times their units.
proof fn lemma_read_parts(negative: bool, weeks: nat, days: nat, hours: nat, minutes: nat)
    ensures
        spelled_seconds(
            component(negative, weeks, 'w') + component(negative, days, 'd') + component(
                negative,
                hours,
                'h',
            ) + component(negative, minutes, 'm'),
        ) == signed(negative, weeks * 604_800 + days * 86_400 + hours * 3_600 + minutes * 60),
{
    let nothing = Seq::<char>::empty();
    let after_hours = component(negative, minutes, 'm') + nothing;
    let after_days = component(negative, hours, 'h') + after_hours;
    let after_weeks = component(negative, days, 'd') + after_days;
    let text = component(negative, weeks, 'w') + after_weeks;
    assert(text =~= component(negative, weeks, 'w') + component(negative, days, 'd') + component(
        negative,
        hours,
        'h',
    ) + component(negative, minutes, 'm'));
    assert(spelled_from(nothing, 0, false) == 0);
    lemma_read_component(negative, minutes, 'm', nothing);
    assert(spelled_from(after_hours, 0, false) == signed(negative, minutes * 60));
    lemma_read_component(negative, hours, 'h', after_hours);
    assert(spelled_from(after_days, 0, false) == signed(negative, hours * 3_600 + minutes * 60));
    lemma_read_component(negative, days, 'd', after_days);
    assert(spelled_from(after_weeks, 0, false) == signed(
        negative,
        days * 86_400 + hours * 3_600 + minutes * 60,
    ));
    lemma_read_component(negative, weeks, 'w', after_weeks);
}

/// `0m` reads as no time at all.
proof fn lemma_read_zero_minutes()
    ensures
        spelled_seconds(seq!['0', 'm']) == 0,
{
    let nothing = Seq::<char>::empty();
    assert(seq!['0', 'm'] =~= decimal(0) + (seq!['m'] + nothing));
    lemma_read_decimal(0, seq!['m'] + nothing, 0, false);
    let tail = seq!['m'] + nothing;
    assert(tail[0] == 'm');
    assert(tail.subrange(1, tail.len() as int) =~= nothing);
    assert(spelled_from(nothing, 0, false) == 0);
}

/// A duration of whole minutes reads back from its text.
pub proof fn lemma_duration_text_reads_back(duration: int)
    requires
        duration % 60 == 0,
    ensures
        spelled_seconds(duration_text(duration)) == duration,
{
    let negative = duration < 0;
    let seconds = magnitude(duration);
    assert(seconds % 60 == 0);
    if seconds < 60 {
        lemma_read_zero_minutes();
    } else {
        lemma_read_parts(
            negative,
            seconds / 604_800,
            seconds / 86_400 % 7,
            seconds / 3_600 % 24,
            seconds / 60 % 60,
        );
        lemma_parts_add_up(seconds);
    }
}

/// An age text spells out the duration that `age_seconds` gives: the elapsed
/// time cut down to whole minutes, or to whole hours from one day on.
pub proof fn lemma_age_text_reads_back(elapsed: int)
    ensures
        spelled_seconds(age_text(elapsed)) == age_seconds(elapsed),
{
    lemma_duration_text_reads_back(age_seconds(elapsed));
}

/// An object that was created earlier shows an age that is at least as
/// long. `earlier` and `later` are two creation times and `now` is the
/// reference instant, all in seconds since the Unix epoch.
pub proof fn lemma_age_monotonic(earlier: int, later: int, now: int)
    requires
        earlier <= later,
    ensures
        spelled_seconds(age_at(Some(earlier), now)) >= spelled_seconds(age_at(Some(later), now)),
{
    lemma_age_text_reads_back(now - earlier);
    lemma_age_text_reads_back(now - later);
    lemma_age_seconds_monotonic(now - later, now - earlier);
}

} // verus!
