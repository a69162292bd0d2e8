use k8s_openapi::apimachinery::pkg::apis::meta::v1::Time;
use k8s_openapi::chrono::{DateTime, Utc};
use rbac_views::age::{seconds_to_age, to_age};

const MINUTE: i128 = 60;
const HOUR: i128 = 60 * MINUTE;
const DAY: i128 = 24 * HOUR;
const WEEK: i128 = 7 * DAY;

fn get_time(text: &str) -> Time {
    Time(DateTime::parse_from_rfc3339(text).unwrap().with_timezone(&Utc))
}

/// The duration that an age text spells out, in seconds.
fn spelled_seconds(text: &str) -> i128 {
    let mut total: i128 = 0;
    let mut count: i128 = 0;
    let mut negative = false;
    for c in text.chars() {
        match c {
            '-' => negative = true,
            '0'..='9' => count = count * 10 + i128::from(c.to_digit(10).unwrap()),
            _ => {
                let unit = match c {
                    'w' => WEEK,
                    'd' => DAY,
                    'h' => HOUR,
                    'm' => MINUTE,
                    _ => panic!("unit {c} in {text}"),
                };
                total += if negative { -count * unit } else { count * unit };
                count = 0;
                negative = false;
            }
        }
    }
    total
}

#[test]
fn under_a_minute_is_zero_minutes() {
    assert_eq!(seconds_to_age(0), "0m");
    assert_eq!(seconds_to_age(1), "0m");
    assert_eq!(seconds_to_age(59), "0m");
    assert_eq!(seconds_to_age(-1), "0m");
    assert_eq!(seconds_to_age(-59), "0m");
}

#[test]
fn minutes_below_an_hour() {
    assert_eq!(seconds_to_age(60), "1m");
    assert_eq!(seconds_to_age(119), "1m");
    assert_eq!(seconds_to_age(120), "2m");
    assert_eq!(seconds_to_age(10 * MINUTE), "10m");
    assert_eq!(seconds_to_age(HOUR - 1), "59m");
}

#[test]
fn hours_and_minutes_below_a_day() {
    assert_eq!(seconds_to_age(HOUR), "1h");
    assert_eq!(seconds_to_age(HOUR + 59), "1h");
    assert_eq!(seconds_to_age(HOUR + MINUTE), "1h1m");
    assert_eq!(seconds_to_age(6 * HOUR + 52 * MINUTE + 30), "6h52m");
    assert_eq!(seconds_to_age(DAY - 1), "23h59m");
}

#[test]
fn minutes_are_dropped_from_a_day_on() {
    assert_eq!(seconds_to_age(DAY), "1d");
    assert_eq!(seconds_to_age(DAY + 59 * MINUTE + 59), "1d");
    assert_eq!(seconds_to_age(DAY + HOUR), "1d1h");
    assert_eq!(seconds_to_age(DAY + HOUR + 30 * MINUTE), "1d1h");
    assert_eq!(seconds_to_age(6 * DAY + 23 * HOUR + 59 * MINUTE + 59), "6d23h");
}

#[test]
fn weeks_days_and_hours() {
    assert_eq!(seconds_to_age(WEEK), "1w");
    assert_eq!(seconds_to_age(WEEK + 5 * MINUTE), "1w");
    assert_eq!(seconds_to_age(WEEK + 3 * HOUR), "1w3h");
    assert_eq!(seconds_to_age(WEEK + DAY), "1w1d");
    assert_eq!(seconds_to_age(8 * DAY + 3 * HOUR + 125), "1w1d3h");
    assert_eq!(seconds_to_age(10 * WEEK), "10w");
    assert_eq!(seconds_to_age(52 * WEEK + 6 * DAY + 23 * HOUR), "52w6d23h");
    assert_eq!(seconds_to_age(1234 * WEEK + 2 * DAY), "1234w2d");
    assert_eq!(seconds_to_age(9_007_000 * WEEK), "9007000w");
}

#[test]
fn negative_durations_carry_a_sign_on_each_part() {
    assert_eq!(seconds_to_age(-60), "-1m");
    assert_eq!(seconds_to_age(-125), "-2m");
    assert_eq!(seconds_to_age(-(HOUR + 5 * MINUTE)), "-1h-5m");
    assert_eq!(seconds_to_age(-(DAY + HOUR)), "-1d-1h");
    assert_eq!(seconds_to_age(-(DAY + 5 * MINUTE)), "-1d");
    assert_eq!(seconds_to_age(-(3 * WEEK + 2 * DAY + HOUR)), "-3w-2d-1h");
}

#[test]
fn the_widest_durations() {
    assert_eq!(seconds_to_age(i128::MAX), "281318094346013941355303081540813w4d16h");
    assert_eq!(seconds_to_age(i128::MIN), "-281318094346013941355303081540813w-4d-16h");
    assert_eq!(seconds_to_age(i128::from(i64::MAX) - i128::from(i64::MIN)), "30500568904943w7h");
}

#[test]
fn no_timestamp_gives_an_empty_age() {
    assert_eq!(to_age(None, &get_time("2022-06-27T16:33:06Z")), "");
    assert_eq!(to_age(None, &Time(Utc::now())), "");
}

#[test]
fn age_between_two_instants() {
    let created = get_time("2022-06-27T16:33:06Z");
    assert_eq!(to_age(Some(&created), &get_time("2022-06-27T16:33:06Z")), "0m");
    assert_eq!(to_age(Some(&created), &get_time("2022-06-27T16:34:05Z")), "0m");
    assert_eq!(to_age(Some(&created), &get_time("2022-06-27T16:34:06Z")), "1m");
    assert_eq!(to_age(Some(&created), &get_time("2022-06-27T18:40:06Z")), "2h7m");
    assert_eq!(to_age(Some(&created), &get_time("2022-06-28T16:33:05Z")), "23h59m");
    assert_eq!(to_age(Some(&created), &get_time("2022-06-29T19:40:06Z")), "2d3h");
    assert_eq!(to_age(Some(&created), &get_time("2022-07-04T16:33:06Z")), "1w");
    assert_eq!(to_age(Some(&created), &get_time("2023-06-27T16:33:06Z")), "52w1d");
}

#[test]
fn age_counts_from_the_creation_time_not_from_the_epoch() {
    let created = get_time("2022-06-27T16:33:06Z");
    let seen = get_time("2022-06-27T17:33:06Z");
    assert_eq!(to_age(Some(&created), &seen), "1h");
    assert_eq!(to_age(Some(&seen), &seen), "0m");
    assert_eq!(to_age(Some(&get_time("1970-01-01T00:00:00Z")), &get_time("1970-01-01T00:02:00Z")), "2m");
    assert_eq!(to_age(Some(&get_time("1969-12-31T23:00:00Z")), &get_time("1970-01-01T01:00:00Z")), "2h");
}

#[test]
fn age_ignores_fractions_of_a_second() {
    let created = get_time("2022-06-27T16:33:06.900Z");
    assert_eq!(to_age(Some(&created), &get_time("2022-06-27T16:34:06.100Z")), "1m");
    assert_eq!(to_age(Some(&created), &get_time("2022-06-27T16:34:05.999Z")), "0m");
}

#[test]
fn age_reads_instants_in_any_offset() {
    let created = get_time("2022-06-27T18:33:06+02:00");
    assert_eq!(to_age(Some(&created), &get_time("2022-06-27T17:33:06Z")), "1h");
}

#[test]
fn creation_after_the_reference_instant_is_negative() {
    let created = get_time("2022-06-27T16:33:06Z");
    assert_eq!(to_age(Some(&created), &get_time("2022-06-27T16:32:07Z")), "0m");
    assert_eq!(to_age(Some(&created), &get_time("2022-06-27T16:30:06Z")), "-3m");
    assert_eq!(to_age(Some(&created), &get_time("2022-06-25T15:33:06Z")), "-2d-1h");
}

#[test]
fn age_of_a_just_created_object() {
    assert_eq!(to_age(Some(&Time(Utc::now())), &Time(Utc::now())), "0m");
}

#[test]
fn age_is_the_same_on_each_call() {
    let created = get_time("2021-12-14T11:04:22Z");
    let seen = get_time("2022-06-27T16:33:06Z");
    let first = to_age(Some(&created), &seen);
    let second = to_age(Some(&created), &seen);
    assert_eq!(first, "27w6d5h");
    assert_eq!(first.as_bytes(), second.as_bytes());
}

#[test]
fn earlier_creation_shows_no_shorter_age() {
    let seen = get_time("2022-06-27T16:33:06Z");
    let created = [
        "2021-12-14T11:04:22Z",
        "2022-03-02T16:50:53Z",
        "2022-06-20T16:33:06Z",
        "2022-06-26T16:33:05Z",
        "2022-06-26T16:33:07Z",
        "2022-06-27T15:33:06Z",
        "2022-06-27T16:32:06Z",
        "2022-06-27T16:32:07Z",
        "2022-06-27T16:33:06Z",
    ];
    let ages: Vec<String> =
        created.iter().map(|at| to_age(Some(&get_time(at)), &seen)).collect();
    assert_eq!(ages, vec!["27w6d5h", "16w4d23h", "1w", "1d", "23h59m", "1h", "1m", "0m", "0m"]);
    for pair in ages.windows(2) {
        assert!(spelled_seconds(&pair[0]) >= spelled_seconds(&pair[1]));
    }
}

#[test]
fn shown_duration_never_shrinks_as_time_passes() {
    let mut last = spelled_seconds(&seconds_to_age(-3 * DAY));
    let mut elapsed = -3 * DAY;
    while elapsed <= 3 * WEEK {
        let shown = spelled_seconds(&seconds_to_age(elapsed));
        assert!(shown >= last);
        assert!(shown.abs() <= elapsed.abs());
        assert!(elapsed.abs() - shown.abs() < HOUR);
        last = shown;
        elapsed += 37 * MINUTE + 11;
    }
}
