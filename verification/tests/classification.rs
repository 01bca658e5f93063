use copilot_usage::github_client::{Assignee, GitHubApiSeat};
use copilot_usage::processor::{
    activity_threshold, classify_at, process_usage_data, seat_status, ACTIVITY_WINDOW_DAYS,
    ACTIVITY_WINDOW_SECS, SECONDS_PER_DAY,
};
use copilot_usage::types::{CopilotSeat, SeatStatus, Timestamp};

const THIRTY_DAYS: i64 = 2_592_000;

fn raw(login: &str, created: Timestamp, last: Option<Timestamp>) -> GitHubApiSeat {
    GitHubApiSeat {
        assignee: Assignee { login: login.to_string() },
        created_at: created,
        last_activity_at: last,
    }
}

fn at(secs: i64, nanos: u32) -> Timestamp {
    Timestamp::new(secs, nanos)
}

#[test]
fn window_is_thirty_days_of_seconds() {
    assert_eq!(ACTIVITY_WINDOW_DAYS, 30);
    assert_eq!(SECONDS_PER_DAY, 86_400);
    assert_eq!(ACTIVITY_WINDOW_SECS, THIRTY_DAYS);
}

#[test]
fn threshold_is_thirty_days_before_now() {
    assert_eq!(activity_threshold(at(10_000_000, 5)), Some(at(7_408_000, 5)));
    assert_eq!(activity_threshold(at(0, 0)), Some(at(-2_592_000, 0)));
    assert_eq!(
        activity_threshold(at(1_700_000_000, 999_999_999)),
        Some(at(1_697_408_000, 999_999_999))
    );
}

#[test]
fn threshold_before_the_earliest_instant_is_none() {
    assert_eq!(activity_threshold(at(i64::MIN, 0)), None);
    assert_eq!(activity_threshold(at(i64::MIN + THIRTY_DAYS - 1, 7)), None);
    assert_eq!(activity_threshold(at(i64::MIN + THIRTY_DAYS, 7)), Some(at(i64::MIN, 7)));
}

#[test]
fn classification_keeps_count_and_order() {
    let now = at(1_700_000_000, 0);
    let raws = vec![
        raw("alice", at(1_600_000_000, 1), Some(at(1_699_999_000, 0))),
        raw("bob", at(1_600_000_001, 2), None),
        raw("carol", at(1_600_000_002, 3), Some(at(1_000_000_000, 0))),
        raw("dave", at(1_600_000_003, 4), Some(at(1_700_000_500, 9))),
    ];
    let seats = classify_at(raws.clone(), now);
    assert_eq!(seats.len(), raws.len());
    for (seat, raw) in seats.iter().zip(raws.iter()) {
        assert_eq!(seat.username, raw.assignee.login);
        assert_eq!(seat.created_at, raw.created_at);
        assert_eq!(seat.last_activity_at, raw.last_activity_at);
    }
    assert_eq!(
        seats,
        vec![
            CopilotSeat {
                username: "alice".to_string(),
                created_at: at(1_600_000_000, 1),
                last_activity_at: Some(at(1_699_999_000, 0)),
                status: SeatStatus::Active,
            },
            CopilotSeat {
                username: "bob".to_string(),
                created_at: at(1_600_000_001, 2),
                last_activity_at: None,
                status: SeatStatus::Inactive,
            },
            CopilotSeat {
                username: "carol".to_string(),
                created_at: at(1_600_000_002, 3),
                last_activity_at: Some(at(1_000_000_000, 0)),
                status: SeatStatus::Inactive,
            },
            CopilotSeat {
                username: "dave".to_string(),
                created_at: at(1_600_000_003, 4),
                last_activity_at: Some(at(1_700_000_500, 9)),
                status: SeatStatus::Active,
            },
        ]
    );
}

#[test]
fn classification_of_nothing_is_nothing() {
    assert_eq!(classify_at(Vec::new(), at(1_700_000_000, 0)), Vec::<CopilotSeat>::new());
    assert_eq!(process_usage_data(Vec::new()), Vec::<CopilotSeat>::new());
}

#[test]
fn duplicate_seats_are_all_kept() {
    let now = at(1_700_000_000, 0);
    let seat = raw("twin", at(5, 5), Some(at(1_699_999_999, 0)));
    let seats = classify_at(vec![seat.clone(), seat.clone(), seat], now);
    assert_eq!(seats.len(), 3);
    assert!(seats.iter().all(|s| s.username == "twin" && s.status == SeatStatus::Active));
}

#[test]
fn seat_without_activity_is_inactive_whenever_created() {
    let now = at(1_700_000_000, 0);
    for created in [at(i64::MIN, 0), at(0, 0), at(1_699_999_999, 0), now, at(i64::MAX, 999_999_999)] {
        let seats = classify_at(vec![raw("idle", created, None)], now);
        assert_eq!(seats[0].status, SeatStatus::Inactive);
        assert_eq!(seats[0].created_at, created);
        assert_eq!(seats[0].last_activity_at, None);
    }
    assert_eq!(seat_status(None, at(i64::MIN, 0)), SeatStatus::Inactive);
    assert_eq!(seat_status(None, at(i64::MAX, 0)), SeatStatus::Inactive);
}

#[test]
fn activity_exactly_thirty_days_ago_is_inactive() {
    let now = at(1_700_000_000, 123_456_789);
    let edge = at(1_700_000_000 - THIRTY_DAYS, 123_456_789);
    assert_eq!(seat_status(Some(edge), now), SeatStatus::Inactive);
    let seats = classify_at(vec![raw("edge", at(0, 0), Some(edge))], now);
    assert_eq!(seats[0].status, SeatStatus::Inactive);
}

#[test]
fn activity_one_microsecond_inside_the_window_is_active() {
    let now = at(1_700_000_000, 123_456_789);
    let inside = at(1_700_000_000 - THIRTY_DAYS, 123_457_789);
    assert_eq!(seat_status(Some(inside), now), SeatStatus::Active);
    let seats = classify_at(vec![raw("inside", at(0, 0), Some(inside))], now);
    assert_eq!(seats[0].status, SeatStatus::Active);
}

#[test]
fn one_microsecond_inside_the_window_across_a_second() {
    let now = at(1_700_000_000, 999_999_500);
    let edge = at(1_700_000_000 - THIRTY_DAYS, 999_999_500);
    let inside = at(1_700_000_000 - THIRTY_DAYS + 1, 500);
    assert_eq!(seat_status(Some(edge), now), SeatStatus::Inactive);
    assert_eq!(seat_status(Some(inside), now), SeatStatus::Active);
}

#[test]
fn one_nanosecond_decides() {
    let now = at(1_700_000_000, 500);
    assert_eq!(seat_status(Some(at(1_700_000_000 - THIRTY_DAYS, 499)), now), SeatStatus::Inactive);
    assert_eq!(seat_status(Some(at(1_700_000_000 - THIRTY_DAYS, 500)), now), SeatStatus::Inactive);
    assert_eq!(seat_status(Some(at(1_700_000_000 - THIRTY_DAYS, 501)), now), SeatStatus::Active);
    assert_eq!(
        seat_status(Some(at(1_700_000_000 - THIRTY_DAYS - 1, 999_999_999)), now),
        SeatStatus::Inactive
    );
    assert_eq!(seat_status(Some(at(1_700_000_000 - THIRTY_DAYS + 1, 0)), now), SeatStatus::Active);
}

#[test]
fn activity_after_now_is_active() {
    let now = at(1_700_000_000, 0);
    assert_eq!(seat_status(Some(now), now), SeatStatus::Active);
    assert_eq!(seat_status(Some(at(1_800_000_000, 0)), now), SeatStatus::Active);
    assert_eq!(seat_status(Some(at(i64::MAX, 0)), now), SeatStatus::Active);
}

#[test]
fn every_activity_is_recent_when_the_window_starts_before_time() {
    let now = at(i64::MIN + 10, 0);
    assert_eq!(seat_status(Some(at(i64::MIN, 0)), now), SeatStatus::Active);
    assert_eq!(seat_status(None, now), SeatStatus::Inactive);
}

#[test]
fn all_seats_share_one_threshold() {
    let now = at(2_000_000_000, 250);
    let edge = at(2_000_000_000 - THIRTY_DAYS, 250);
    let inside = at(2_000_000_000 - THIRTY_DAYS, 251);
    let mut raws = Vec::new();
    for i in 0..50 {
        raws.push(raw("edge", at(i, 0), Some(edge)));
        raws.push(raw("inside", at(i, 0), Some(inside)));
    }
    let seats = classify_at(raws, now);
    assert_eq!(seats.len(), 100);
    for pair in seats.chunks(2) {
        assert_eq!(pair[0].status, SeatStatus::Inactive);
        assert_eq!(pair[1].status, SeatStatus::Active);
    }
}

#[test]
fn later_than_compares_seconds_then_nanoseconds() {
    assert!(at(2, 0).after(&at(1, 999_999_999)));
    assert!(!at(1, 999_999_999).after(&at(2, 0)));
    assert!(at(1, 2).after(&at(1, 1)));
    assert!(!at(1, 1).after(&at(1, 1)));
    assert!(!at(1, 1).after(&at(1, 2)));
    assert!(at(-1, 0).after(&at(-2, 500)));
    assert!(at(59, 1_000_000_000).after(&at(59, 999_999_999)));
    assert!(at(60, 0).after(&at(59, 1_999_999_999)));
}

#[test]
fn timestamp_holds_what_it_is_given() {
    let t = Timestamp::new(-5, 17);
    assert_eq!(t.secs, -5);
    assert_eq!(t.nanos, 17);
    assert_eq!(t, Timestamp { secs: -5, nanos: 17 });
}

#[test]
fn the_clock_decides_the_status() {
    let now = chrono::Utc::now();
    let yesterday = now - chrono::Duration::days(1);
    let last_month = now - chrono::Duration::days(29);
    let too_long_ago = now - chrono::Duration::days(31);
    let stamp = |t: chrono::DateTime<chrono::Utc>| at(t.timestamp(), t.timestamp_subsec_nanos());
    let raws = vec![
        raw("yesterday", stamp(too_long_ago), Some(stamp(yesterday))),
        raw("last-month", stamp(too_long_ago), Some(stamp(last_month))),
        raw("too-long-ago", stamp(yesterday), Some(stamp(too_long_ago))),
        raw("never", stamp(yesterday), None),
        raw("epoch", stamp(yesterday), Some(at(0, 0))),
        raw("tomorrow", stamp(yesterday), Some(stamp(now + chrono::Duration::days(1)))),
    ];
    let seats = process_usage_data(raws.clone());
    assert_eq!(seats.len(), 6);
    let statuses: Vec<SeatStatus> = seats.iter().map(|s| s.status).collect();
    assert_eq!(
        statuses,
        vec![
            SeatStatus::Active,
            SeatStatus::Active,
            SeatStatus::Inactive,
            SeatStatus::Inactive,
            SeatStatus::Inactive,
            SeatStatus::Active,
        ]
    );
    for (seat, raw) in seats.iter().zip(raws.iter()) {
        assert_eq!(seat.username, raw.assignee.login);
        assert_eq!(seat.created_at, raw.created_at);
        assert_eq!(seat.last_activity_at, raw.last_activity_at);
    }
}

#[test]
fn threshold_agrees_with_the_calendar() {
    let moments = [
        (0i64, 0u32),
        (1, 1),
        (2_591_999, 999_999_999),
        (2_592_000, 0),
        (951_782_400, 123),
        (1_483_228_799, 999_999_999),
        (1_700_000_000, 123_456_789),
        (4_102_444_800, 5),
        (-1, 999_999_999),
        (-2_208_988_800, 0),
    ];
    for (secs, nanos) in moments {
        let now = chrono::DateTime::from_timestamp(secs, nanos).unwrap();
        let start = now - chrono::Duration::days(30);
        assert_eq!(
            activity_threshold(at(secs, nanos)),
            Some(at(start.timestamp(), start.timestamp_subsec_nanos()))
        );
    }
}

#[test]
fn status_agrees_with_the_calendar() {
    let nows = [(1_700_000_000i64, 0u32), (1_700_000_000, 999_999_999), (1_485_820_799, 250)];
    let offsets = [-2_592_001i64, -2_592_000, -2_591_999, -86_400, -1, 0, 1, 86_400];
    let fractions = [0u32, 1, 249, 250, 251, 999_999_998, 999_999_999];
    for (secs, nanos) in nows {
        let now = chrono::DateTime::from_timestamp(secs, nanos).unwrap();
        let start = now - chrono::Duration::days(30);
        for offset in offsets {
            for fraction in fractions {
                let last = chrono::DateTime::from_timestamp(secs + offset, fraction).unwrap();
                let expected =
                    if last > start { SeatStatus::Active } else { SeatStatus::Inactive };
                assert_eq!(seat_status(Some(at(secs + offset, fraction)), at(secs, nanos)), expected);
            }
        }
    }
}

#[test]
fn activity_within_a_leap_second_sorts_as_the_calendar_sorts_it() {
    let leap = chrono::DateTime::from_timestamp(1_483_228_799, 1_500_000_000).unwrap();
    assert_eq!(leap.timestamp(), 1_483_228_799);
    assert_eq!(leap.timestamp_subsec_nanos(), 1_500_000_000);
    let last = Some(at(1_483_228_799, 1_500_000_000));
    for (secs, nanos) in [
        (1_483_228_799 + THIRTY_DAYS, 999_999_999u32),
        (1_483_228_800 + THIRTY_DAYS, 0),
        (1_483_228_800 + THIRTY_DAYS, 1),
    ] {
        let now = chrono::DateTime::from_timestamp(secs, nanos).unwrap();
        let expected = if leap > now - chrono::Duration::days(30) {
            SeatStatus::Active
        } else {
            SeatStatus::Inactive
        };
        assert_eq!(seat_status(last, at(secs, nanos)), expected);
    }
    assert_eq!(
        seat_status(last, at(1_483_228_799 + THIRTY_DAYS, 999_999_999)),
        SeatStatus::Active
    );
    assert_eq!(seat_status(last, at(1_483_228_800 + THIRTY_DAYS, 0)), SeatStatus::Inactive);
}
