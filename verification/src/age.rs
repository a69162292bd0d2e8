//! The age of an object: the time between its creation and a reference
//! instant, written the way cluster tools write it (`3w2d`, `5h12m`, `0m`).

use crate::raw::{epoch_seconds, time_seconds};
use k8s_openapi::apimachinery::pkg::apis::meta::v1::Time;
use vstd::prelude::*;
use vstd::string::StringExecFns;

verus! {

/// The seconds in a minute, the unit `m` of an age.
pub const SECONDS_PER_MINUTE: u128 = 60;

/// The seconds in an hour, the unit `h` of an age.
pub const SECONDS_PER_HOUR: u128 = 3_600;

/// The seconds in a day, the unit `d` of an age.
pub const SECONDS_PER_DAY: u128 = 86_400;

/// The seconds in a week, the unit `w` of an age.
pub const SECONDS_PER_WEEK: u128 = 604_800;

/// The decimal digit for a value below ten.
pub open spec fn digit(value: nat) -> char {
    if value == 0 {
        '0'
    } else if value == 1 {
        '1'
    } else if value == 2 {
        '2'
    } else if value == 3 {
        '3'
    } else if value == 4 {
        '4'
    } else if value == 5 {
        '5'
    } else if value == 6 {
        '6'
    } else if value == 7 {
        '7'
    } else if value == 8 {
        '8'
    } else {
        '9'
    }
}

/// A natural number in decimal, without leading zeros.
pub open spec fn decimal(n: nat) -> Seq<char>
    decreases n,
{
    if n < 10 {
        seq![digit(n)]
    } else {
        decimal(n / 10).push(digit(n % 10))
    }
}

/// One part of an age: nothing for a count of zero, else the count, with a
/// minus sign in front when the age is negative, followed by the unit.
pub open spec fn component(negative: bool, count: nat, unit: char) -> Seq<char> {
    if count == 0 {
        Seq::empty()
    } else if negative {
        seq!['-'] + decimal(count) + seq![unit]
    } else {
        decimal(count) + seq![unit]
    }
}

/// The size of a signed number of seconds.
pub open spec fn magnitude(elapsed: int) -> nat {
    if elapsed < 0 {
        (-elapsed) as nat
    } else {
        elapsed as nat
    }
}

/// An amount with its sign.
pub open spec fn signed(negative: bool, amount: nat) -> int {
    if negative {
        -(amount as int)
    } else {
        amount as int
    }
}

/// What an age keeps of a duration: whole minutes below one day, whole hours
/// from one day on.
pub open spec fn shown_seconds(seconds: nat) -> nat {
    if seconds < SECONDS_PER_DAY {
        (seconds - seconds % (SECONDS_PER_MINUTE as nat)) as nat
    } else {
        (seconds - seconds % (SECONDS_PER_HOUR as nat)) as nat
    }
}

/// The duration, in seconds, that the age for `elapsed` seconds spells out:
/// `elapsed` cut down towards zero to what `shown_seconds` keeps.
pub open spec fn age_seconds(elapsed: int) -> int {
    signed(elapsed < 0, shown_seconds(magnitude(elapsed)))
}

/// A duration in weeks, days, hours and minutes, largest unit first; odd
/// seconds are not written.
///
/// Parts that are zero are left out, and `0m` stands for less than a minute.
/// A negative duration has a minus sign in front of each part.
pub open spec fn duration_text(duration: int) -> Seq<char> {
    let negative = duration < 0;
    let seconds = magnitude(duration);
    if seconds < SECONDS_PER_MINUTE {
        seq!['0', 'm']
    } else {
        component(negative, seconds / (SECONDS_PER_WEEK as nat), 'w')
            + component(negative, seconds / (SECONDS_PER_DAY as nat) % 7, 'd')
            + component(negative, seconds / (SECONDS_PER_HOUR as nat) % 24, 'h')
            + component(negative, seconds / (SECONDS_PER_MINUTE as nat) % 60, 'm')
    }
}

/// The age text for a signed number of elapsed seconds. It is negative
/// where the creation time lies after the reference instant.
pub open spec fn age_text(elapsed: int) -> Seq<char> {
    duration_text(age_seconds(elapsed))
}

/// The age, at the reference instant `now`, of an object created at
/// `created`, both in seconds since the Unix epoch: empty where the creation
/// time is not known.
pub open spec fn age_at(created: Option<int>, now: int) -> Seq<char> {
    match created {
        Some(at) => age_text(now - at),
        None => Seq::empty(),
    }
}

/// The creation time that an optional timestamp holds, in seconds since the
/// Unix epoch.
pub open spec fn created_seconds(timestamp: Option<&Time>) -> Option<int> {
    match timestamp {
        Some(time) => Some(epoch_seconds(*time)),
        None => None,
    }
}

/// The decimal digit for a value below ten, as text.
fn digit_text(value: u128) -> (res: &'static str)
    requires
        value < 10,
    ensures
        res@ == seq![digit(value as nat)],
{
    proof {
        reveal_strlit("0");
        reveal_strlit("1");
        reveal_strlit("2");
        reveal_strlit("3");
        reveal_strlit("4");
        reveal_strlit("5");
        reveal_strlit("6");
        reveal_strlit("7");
        reveal_strlit("8");
        reveal_strlit("9");
    }
    let res = if value == 0 {
        "0"
    } else if value == 1 {
        "1"
    } else if value == 2 {
        "2"
    } else if value == 3 {
        "3"
    } else if value == 4 {
        "4"
    } else if value == 5 {
        "5"
    } else if value == 6 {
        "6"
    } else if value == 7 {
        "7"
    } else if value == 8 {
        "8"
    } else {
        "9"
    };
    assert(res@ =~= seq![digit(value as nat)]);
    res
}

/// Appends `n` in decimal to `out`.
fn push_decimal(out: &mut String, n: u128)
    ensures
        final(out)@ == old(out)@ + decimal(n as nat),
    decreases n,
{
    if n >= 10 {
        push_decimal(out, n / 10);
    }
    out.append(digit_text(n % 10));
    assert(out@ =~= old(out)@ + decimal(n as nat));
}

/// Appends one part of an age to `out`: nothing for a count of zero.
fn push_component(out: &mut String, negative: bool, count: u128, unit: &str)
    requires
        unit@.len() == 1,
    ensures
        final(out)@ == old(out)@ + component(negative, count as nat, unit@[0]),
{
    if count != 0 {
        if negative {
            proof {
                reveal_strlit("-");
            }
            out.append("-");
        }
        push_decimal(out, count);
        out.append(unit);
        assert(unit@ =~= seq![unit@[0]]);
    }
    assert(out@ =~= old(out)@ + component(negative, count as nat, unit@[0]));
}

/// Writes the age for a signed number of elapsed seconds: the time from the
/// creation of an object to the reference instant.
pub fn seconds_to_age(elapsed: i128) -> (res: String)
    ensures
        res@ == age_text(elapsed as int),
{
    let negative = elapsed < 0;
    let seconds: u128 = if negative {
        ((-(elapsed + 1)) as u128) + 1
    } else {
        elapsed as u128
    };
    assert(seconds == magnitude(elapsed as int));
    let shown: u128 = if seconds < SECONDS_PER_DAY {
        seconds - seconds % SECONDS_PER_MINUTE
    } else {
        seconds - seconds % SECONDS_PER_HOUR
    };
    assert(magnitude(age_seconds(elapsed as int)) == shown);
    assert(shown != 0 ==> (age_seconds(elapsed as int) < 0 <==> negative));
    if shown == 0 {
        proof {
            reveal_strlit("0m");
        }
        let res = String::from_str("0m");
        assert(res@ =~= seq!['0', 'm']);
        return res;
    }
    proof {
        reveal_strlit("w");
        reveal_strlit("d");
        reveal_strlit("h");
        reveal_strlit("m");
    }
    let mut out = String::new();
    push_component(&mut out, negative, shown / SECONDS_PER_WEEK, "w");
    push_component(&mut out, negative, shown / SECONDS_PER_DAY % 7, "d");
    push_component(&mut out, negative, shown / SECONDS_PER_HOUR % 24, "h");
    push_component(&mut out, negative, shown / SECONDS_PER_MINUTE % 60, "m");
    assert(out@ =~= age_text(elapsed as int));
    out
}

/// Writes the age of an object with the creation timestamp `timestamp`, seen
/// at the reference instant `against`. Without a timestamp the age is empty.
pub fn to_age(timestamp: Option<&Time>, against: &Time) -> (res: String)
    ensures
        res@ == age_at(created_seconds(timestamp), epoch_seconds(*against)),
{
    match timestamp {
        Some(time) => {
            let now: i64 = time_seconds(against);
            let created: i64 = time_seconds(time);
            seconds_to_age(now as i128 - created as i128)
        },
        None => String::new(),
    }
}

/// The duration that an age spells out grows with the elapsed time.
pub proof fn lemma_age_seconds_monotonic(shorter: int, longer: int)
    requires
        shorter <= longer,
    ensures
        age_seconds(shorter) <= age_seconds(longer),
{
    lemma_shown_seconds_monotonic(magnitude(shorter), magnitude(longer));
    lemma_shown_seconds_monotonic(magnitude(longer), magnitude(shorter));
}

/// What an age keeps of a duration grows with the duration, and is never
/// more than the duration itself.
pub proof fn lemma_shown_seconds_monotonic(shorter: nat, longer: nat)
    ensures
        shown_seconds(shorter) <= shorter,
        shorter <= longer ==> shown_seconds(shorter) <= shown_seconds(longer),
{
}

} // verus!
