//! Classification of seats as active or inactive.
//!
//! A seat is active if its account used it within the thirty days before
//! the moment of classification. All seats of one list are judged against
//! the same moment.

use crate::calendar::current_time;
use crate::github_client::raw_seats;
use crate::github_client::GitHubApiSeat;
use crate::github_client::RawSeat;
use crate::types::classified_seats;
use crate::types::ClassifiedSeat;
use crate::types::CopilotSeat;
use crate::types::SeatStatus;
use crate::types::Timestamp;
use vstd::prelude::*;

verus! {

/// Length of the activity window in days.
pub const ACTIVITY_WINDOW_DAYS: i64 = 30;

/// Seconds in one day.
pub const SECONDS_PER_DAY: i64 = 86_400;

/// Length of the activity window in seconds.
pub const ACTIVITY_WINDOW_SECS: i64 = ACTIVITY_WINDOW_DAYS * SECONDS_PER_DAY;

/// The instant at which the activity window that ends at `now` begins: the
/// same point within its second, thirty days earlier. `None` if that
/// instant is earlier than any that a [`Timestamp`] can hold.
pub open spec fn window_start(now: Timestamp) -> Option<Timestamp> {
    if now.secs - ACTIVITY_WINDOW_SECS >= i64::MIN {
        Some(Timestamp { secs: (now.secs - ACTIVITY_WINDOW_SECS) as i64, nanos: now.nanos })
    } else {
        None
    }
}

/// `last` lies within the activity window that ends at `now`: strictly
/// after its start.
pub open spec fn is_recent(last: Timestamp, now: Timestamp) -> bool {
    match window_start(now) {
        Some(start) => last.is_after(start),
        None => true,
    }
}

/// The status at `now` of a seat last used at `last_activity_at`.
pub open spec fn status_at(last_activity_at: Option<Timestamp>, now: Timestamp) -> SeatStatus {
    match last_activity_at {
        Some(last) => if is_recent(last, now) {
            SeatStatus::Active
        } else {
            SeatStatus::Inactive
        },
        None => SeatStatus::Inactive,
    }
}

/// The seat `raw` as classified at `now`.
pub open spec fn classify_seat(raw: RawSeat, now: Timestamp) -> ClassifiedSeat {
    ClassifiedSeat {
        username: raw.login,
        created_at: raw.created_at,
        last_activity_at: raw.last_activity_at,
        status: status_at(raw.last_activity_at, now),
    }
}

/// The seats `raws` as classified at `now`: one for each, in the same order.
pub open spec fn classify(raws: Seq<RawSeat>, now: Timestamp) -> Seq<ClassifiedSeat> {
    raws.map_values(|raw: RawSeat| classify_seat(raw, now))
}

/// Computes the start of the activity window that ends at `now`.
pub fn activity_threshold(now: Timestamp) -> (start: Option<Timestamp>)
    ensures
        start == window_start(now),
{
    match now.secs.checked_sub(ACTIVITY_WINDOW_SECS) {
        Some(secs) => Some(Timestamp { secs, nanos: now.nanos }),
        None => None,
    }
}

/// Judges one seat against the start of the activity window.
fn status_after(last_activity_at: Option<Timestamp>, start: Option<Timestamp>) -> (status:
    SeatStatus)
    ensures
        forall|now: Timestamp| start == window_start(now) ==> status == status_at(
            last_activity_at,
            now,
        ),
{
    match last_activity_at {
        Some(last) => {
            let recent = match start {
                Some(start) => last.after(&start),
                None => true,
            };
            if recent {
                SeatStatus::Active
            } else {
                SeatStatus::Inactive
            }
        },
        None => SeatStatus::Inactive,
    }
}

/// Says whether a seat last used at `last_activity_at` counts as active at
/// `now`. A seat that was never used is inactive; so is one last used
/// exactly thirty days before `now`.
pub fn seat_status(last_activity_at: Option<Timestamp>, now: Timestamp) -> (status: SeatStatus)
    ensures
        status == status_at(last_activity_at, now),
{
    status_after(last_activity_at, activity_threshold(now))
}

/// Classifies every seat of `api_response` as of `now`, keeping their
/// number and order.
pub fn classify_at(api_response: Vec<GitHubApiSeat>, now: Timestamp) -> (seats: Vec<CopilotSeat>)
    ensures
        classified_seats(seats@) == classify(raw_seats(api_response@), now),
{
    let start = activity_threshold(now);
    let ghost all = api_response@;
    let mut seats: Vec<CopilotSeat> = Vec::new();
    for seat in it: api_response
        invariant
            it.seq() == all,
            start == window_start(now),
            seats@.len() == it.index(),
            forall|i: int|
                0 <= i < seats@.len() ==> (#[trigger] seats@[i])@ == classify_seat(all[i]@, now),
    {
        let status = status_after(seat.last_activity_at, start);
        seats.push(
            CopilotSeat {
                username: seat.assignee.login,
                created_at: seat.created_at,
                last_activity_at: seat.last_activity_at,
                status,
            },
        );
    }
    assert(classified_seats(seats@) =~= classify(raw_seats(all), now));
    seats
}

/// Classifies every seat of `api_response` as of the moment of the call,
/// which is read from the system clock once, before any seat is judged.
///
/// Whatever the clock says, the result has one seat for each seat of
/// `api_response`, in the same order and with the same login, creation time
/// and last activity, and every seat that was never used is inactive.
pub fn process_usage_data(api_response: Vec<GitHubApiSeat>) -> (seats: Vec<CopilotSeat>)
    ensures
        exists|now: Timestamp| #[trigger]
            now.is_plain() && classified_seats(seats@) == classify(raw_seats(api_response@), now),
        seats@.len() == api_response@.len(),
        forall|i: int|
            0 <= i < seats@.len() ==> {
                &&& (#[trigger] seats@[i])@.username == api_response@[i]@.login
                &&& seats@[i].created_at == api_response@[i].created_at
                &&& seats@[i].last_activity_at == api_response@[i].last_activity_at
                &&& api_response@[i].last_activity_at is None ==> seats@[i].status
                    == SeatStatus::Inactive
            },
{
    let now = current_time();
    let seats = classify_at(api_response, now);
    proof {
        lemma_classify_keeps_seats(raw_seats(api_response@), now);
        assert forall|i: int| 0 <= i < seats@.len() implies {
            &&& (#[trigger] seats@[i])@.username == api_response@[i]@.login
            &&& seats@[i].created_at == api_response@[i].created_at
            &&& seats@[i].last_activity_at == api_response@[i].last_activity_at
            &&& api_response@[i].last_activity_at is None ==> seats@[i].status
                == SeatStatus::Inactive
        } by {
            assert(classified_seats(seats@)[i] == seats@[i]@);
            assert(classify(raw_seats(api_response@), now)[i] == classify_seat(
                api_response@[i]@,
                now,
            ));
        }
    }
    seats
}

/// Length of the activity window in nanoseconds.
pub open spec fn window_nanos() -> int {
    ACTIVITY_WINDOW_SECS * 1_000_000_000
}

/// Classification neither drops nor adds nor reorders seats: the result has
/// one seat for each seat given, at the same place, with the same login,
/// creation time and last activity, and with the status that its last
/// activity earns it.
pub proof fn lemma_classify_keeps_seats(raws: Seq<RawSeat>, now: Timestamp)
    ensures
        classify(raws, now).len() == raws.len(),
        forall|i: int|
            0 <= i < raws.len() ==> {
                &&& (#[trigger] classify(raws, now)[i]).username == raws[i].login
                &&& classify(raws, now)[i].created_at == raws[i].created_at
                &&& classify(raws, now)[i].last_activity_at == raws[i].last_activity_at
                &&& classify(raws, now)[i].status == status_at(raws[i].last_activity_at, now)
            },
{
}

/// A seat that was never used is inactive at every moment, whenever it was
/// created.
pub proof fn lemma_unused_seat_is_inactive(raw: RawSeat, now: Timestamp)
    requires
        raw.last_activity_at is None,
    ensures
        classify_seat(raw, now).status == SeatStatus::Inactive,
{
}

/// Outside leap seconds, a seat is active exactly if fewer nanoseconds than
/// the window is long have passed since its last activity.
pub proof fn lemma_active_iff_used_within_window(raw: RawSeat, last: Timestamp, now: Timestamp)
    requires
        raw.last_activity_at == Some(last),
        last.is_plain(),
        now.is_plain(),
    ensures
        classify_seat(raw, now).status == SeatStatus::Active <==> now.nanos_since_epoch()
            - last.nanos_since_epoch() < window_nanos(),
{
}

/// The window is open at its start: a seat last used exactly thirty days
/// before the moment of classification is inactive, and one last used a
/// microsecond later than that is active.
pub proof fn lemma_window_boundary(raw: RawSeat, last: Timestamp, now: Timestamp)
    requires
        raw.last_activity_at == Some(last),
        last.is_plain(),
        now.is_plain(),
    ensures
        last.nanos_since_epoch() == now.nanos_since_epoch() - window_nanos() ==> classify_seat(
            raw,
            now,
        ).status == SeatStatus::Inactive,
        last.nanos_since_epoch() == now.nanos_since_epoch() - window_nanos() + 1_000
            ==> classify_seat(raw, now).status == SeatStatus::Active,
{
    lemma_active_iff_used_within_window(raw, last, now);
}

} // verus!
