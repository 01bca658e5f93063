//! The rows and the counts of a listing of seats.
//!
//! Laying the rows out as a table and printing them is left to the caller.

use crate::calendar::calendar_text;
use crate::calendar::show_instant;
use crate::types::classified_seats;
use crate::types::ClassifiedSeat;
use crate::types::CopilotSeat;
use crate::types::SeatStatus;
use crate::types::Timestamp;
use vstd::prelude::*;
use vstd::string::StringExecFns;

verus! {

/// How many seats a listing holds, and how many of them are active.
#[derive(Clone, Copy, Debug, PartialEq, Eq, Structural)]
pub struct UsageSummary {
    /// Number of assigned seats.
    pub total_seats: usize,
    /// Number of seats whose status is active.
    pub active_seats: usize,
}

/// Number of seats among `seats` whose status is active.
pub open spec fn count_active(seats: Seq<ClassifiedSeat>) -> nat
    decreases seats.len(),
{
    if seats.len() == 0 {
        0
    } else {
        count_active(seats.drop_last()) + if seats.last().status == SeatStatus::Active {
            1nat
        } else {
            0nat
        }
    }
}

/// There are never more active seats than seats.
pub proof fn lemma_active_within_total(seats: Seq<ClassifiedSeat>)
    ensures
        count_active(seats) <= seats.len(),
    decreases seats.len(),
{
    if seats.len() > 0 {
        lemma_active_within_total(seats.drop_last());
    }
}

/// A listing without an active seat counts none, and one whose seats are
/// all active counts them all.
pub proof fn lemma_uniform_listing(seats: Seq<ClassifiedSeat>, status: SeatStatus)
    requires
        forall|i: int| 0 <= i < seats.len() ==> (#[trigger] seats[i]).status == status,
    ensures
        status == SeatStatus::Inactive ==> count_active(seats) == 0,
        status == SeatStatus::Active ==> count_active(seats) == seats.len(),
    decreases seats.len(),
{
    if seats.len() > 0 {
        let front = seats.drop_last();
        assert forall|i: int| 0 <= i < front.len() implies (#[trigger] front[i]).status
            == status by {
            assert(front[i] == seats[i]);
        }
        lemma_uniform_listing(front, status);
    }
}

/// Counts the seats of a listing and the active ones among them.
pub fn summarize(seats: &[CopilotSeat]) -> (summary: UsageSummary)
    ensures
        summary.total_seats == seats@.len(),
        summary.active_seats == count_active(classified_seats(seats@)),
{
    let ghost listing = classified_seats(seats@);
    let mut active_seats: usize = 0;
    let mut at: usize = 0;
    while at < seats.len()
        invariant
            at <= seats@.len(),
            listing == classified_seats(seats@),
            active_seats == count_active(listing.take(at as int)),
        decreases seats@.len() - at,
    {
        proof {
            lemma_active_within_total(listing.take(at as int));
            assert(listing.take(at + 1).drop_last() =~= listing.take(at as int));
            assert(listing.take(at + 1).last() == seats@[at as int]@);
        }
        if seats[at].status == SeatStatus::Active {
            active_seats = active_seats + 1;
        }
        at = at + 1;
    }
    proof {
        assert(listing.take(at as int) =~= listing);
    }
    UsageSummary { total_seats: seats.len(), active_seats }
}

/// The pattern under which dates and times are written.
pub const TIME_PATTERN: &'static str = "%Y-%m-%d %H:%M:%S";

/// What is written where there is no date to write.
pub const NOT_AVAILABLE: &'static str = "N/A";

/// Title of the column of logins.
pub const USERNAME_TITLE: &'static str = "Username";

/// Title of the column of statuses.
pub const STATUS_TITLE: &'static str = "Status";

/// Title of the column of last activities.
pub const LAST_ACTIVITY_TITLE: &'static str = "Last Activity";

/// Title of the column of assignment dates.
pub const SEAT_CREATED_TITLE: &'static str = "Seat Created";

/// One line of a listing: a cell for each column.
#[derive(Clone, Debug, PartialEq, Eq)]
pub struct SeatRow {
    pub username: String,
    pub status: String,
    pub last_activity: String,
    pub seat_created: String,
}

/// What a [`SeatRow`] says, with every cell as a sequence of characters.
pub struct Row {
    pub username: Seq<char>,
    pub status: Seq<char>,
    pub last_activity: Seq<char>,
    pub seat_created: Seq<char>,
}

impl View for SeatRow {
    type V = Row;

    open spec fn view(&self) -> Row {
        Row {
            username: self.username@,
            status: self.status@,
            last_activity: self.last_activity@,
            seat_created: self.seat_created@,
        }
    }
}

/// The rows of a listing, in order, each by its view.
pub open spec fn rows_of(rows: Seq<SeatRow>) -> Seq<Row> {
    rows.map_values(|row: SeatRow| row@)
}

/// A text that may be missing, as a sequence of characters.
pub open spec fn text_of(text: Option<String>) -> Option<Seq<char>> {
    match text {
        Some(text) => Some(text@),
        None => None,
    }
}

/// The cell for a date: its text, or the placeholder where there is none.
pub open spec fn date_cell(text: Option<Seq<char>>) -> Seq<char> {
    match text {
        Some(text) => text,
        None => NOT_AVAILABLE@,
    }
}

/// The row for `seat`, given the texts of its two dates.
pub open spec fn row_with(
    seat: ClassifiedSeat,
    last_activity: Option<Seq<char>>,
    seat_created: Option<Seq<char>>,
) -> Row {
    Row {
        username: seat.username,
        status: seat.status.spec_label(),
        last_activity: date_cell(last_activity),
        seat_created: date_cell(seat_created),
    }
}

/// The text of `instant` as a listing writes it, if the calendar reaches it.
pub open spec fn shown(instant: Timestamp) -> Option<Seq<char>> {
    calendar_text(instant.secs as int, instant.nanos as int, TIME_PATTERN@)
}

/// The row for `seat`: its login, the word for its status, and its two
/// dates. A seat that was never used has the placeholder in place of its
/// last activity, and so has every date that the calendar does not reach.
pub open spec fn row_for(seat: ClassifiedSeat) -> Row {
    row_with(
        seat,
        match seat.last_activity_at {
            Some(last) => shown(last),
            None => None,
        },
        shown(seat.created_at),
    )
}

/// The titles of the columns, as a row.
pub open spec fn titles() -> Row {
    Row {
        username: USERNAME_TITLE@,
        status: STATUS_TITLE@,
        last_activity: LAST_ACTIVITY_TITLE@,
        seat_created: SEAT_CREATED_TITLE@,
    }
}

/// The row that heads a listing.
pub fn header_row() -> (row: SeatRow)
    ensures
        row@ == titles(),
{
    SeatRow {
        username: String::from_str(USERNAME_TITLE),
        status: String::from_str(STATUS_TITLE),
        last_activity: String::from_str(LAST_ACTIVITY_TITLE),
        seat_created: String::from_str(SEAT_CREATED_TITLE),
    }
}

/// Fills the cell for a date.
fn cell(text: Option<String>) -> (cell: String)
    ensures
        cell@ == date_cell(text_of(text)),
{
    match text {
        Some(text) => text,
        None => String::from_str(NOT_AVAILABLE),
    }
}

/// Makes the row for `seat` from the texts of its two dates; a text that is
/// missing leaves the placeholder in its cell.
pub fn seat_row_with(
    seat: &CopilotSeat,
    last_activity: Option<String>,
    seat_created: Option<String>,
) -> (row: SeatRow)
    ensures
        row@ == row_with(seat@, text_of(last_activity), text_of(seat_created)),
{
    SeatRow {
        username: seat.username.clone(),
        status: seat.status.label(),
        last_activity: cell(last_activity),
        seat_created: cell(seat_created),
    }
}

/// Makes the row for `seat`, writing its dates under [`TIME_PATTERN`].
pub fn seat_row(seat: &CopilotSeat) -> (row: SeatRow)
    ensures
        row@ == row_for(seat@),
{
    let last_activity = match seat.last_activity_at {
        Some(last) => show_instant(last, TIME_PATTERN),
        None => None,
    };
    let seat_created = show_instant(seat.created_at, TIME_PATTERN);
    seat_row_with(seat, last_activity, seat_created)
}

/// Makes the rows of a listing: one for each seat, in the same order.
pub fn usage_rows(seats: &[CopilotSeat]) -> (rows: Vec<SeatRow>)
    ensures
        rows_of(rows@) == classified_seats(seats@).map_values(|seat: ClassifiedSeat| row_for(seat)),
{
    let mut rows: Vec<SeatRow> = Vec::new();
    let mut at: usize = 0;
    while at < seats.len()
        invariant
            at <= seats@.len(),
            rows@.len() == at,
            forall|i: int| 0 <= i < at ==> (#[trigger] rows@[i])@ == row_for(seats@[i]@),
        decreases seats@.len() - at,
    {
        rows.push(seat_row(&seats[at]));
        at = at + 1;
    }
    assert(rows_of(rows@) =~= classified_seats(seats@).map_values(
        |seat: ClassifiedSeat| row_for(seat),
    ));
    rows
}

/// What there is to show of a list of seats.
#[derive(Clone, Debug, PartialEq, Eq)]
pub enum UsageDisplay {
    /// The list is empty: there is nothing to tabulate.
    NoSeats,
    /// A table with a row for each seat under `header`, and the counts that
    /// follow it.
    Table { header: SeatRow, rows: Vec<SeatRow>, summary: UsageSummary },
}

/// What a [`UsageDisplay`] says, with every row by its view.
pub enum Listing {
    NoSeats,
    Table { header: Row, rows: Seq<Row>, summary: UsageSummary },
}

impl View for UsageDisplay {
    type V = Listing;

    open spec fn view(&self) -> Listing {
        match *self {
            UsageDisplay::NoSeats => Listing::NoSeats,
            UsageDisplay::Table { header, rows, summary } => Listing::Table {
                header: header@,
                rows: rows_of(rows@),
                summary,
            },
        }
    }
}

/// The listing of `seats`: nothing for an empty list; otherwise the
/// titles, a row for each seat in order, the number of seats and the number
/// of active ones.
pub open spec fn listing_of(seats: Seq<ClassifiedSeat>) -> Listing {
    if seats.len() == 0 {
        Listing::NoSeats
    } else {
        Listing::Table {
            header: titles(),
            rows: seats.map_values(|seat: ClassifiedSeat| row_for(seat)),
            summary: UsageSummary {
                total_seats: seats.len() as usize,
                active_seats: count_active(seats) as usize,
            },
        }
    }
}

/// Works out what to show of `seats`; drawing the table and printing it is
/// left to the caller.
pub fn display_usage_table(seats: &[CopilotSeat]) -> (display: UsageDisplay)
    ensures
        display@ == listing_of(classified_seats(seats@)),
{
    if seats.len() == 0 {
        return UsageDisplay::NoSeats;
    }
    UsageDisplay::Table {
        header: header_row(),
        rows: usage_rows(seats),
        summary: summarize(seats),
    }
}

} // verus!
