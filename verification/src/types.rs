//! Instants, seat statuses and classified seats.

use vstd::prelude::*;
use vstd::string::StringExecFns;

verus! {

/// Nanoseconds in one second.
pub const NANOS_PER_SECOND: u32 = 1_000_000_000;

/// An instant on the UTC time line.
///
/// `secs` counts whole non-leap seconds since 1970-01-01T00:00:00Z and
/// `nanos` counts nanoseconds since the start of that second. While a leap
/// second is in progress `nanos` runs into a second billion, so that the
/// inserted second sorts after everything in the second before it and
/// before everything in the second after it.
#[derive(Clone, Copy, Debug, PartialEq, Eq, Structural)]
pub struct Timestamp {
    pub secs: i64,
    pub nanos: u32,
}

impl Timestamp {
    /// `self` is strictly later than `other`.
    pub open spec fn is_after(self, other: Timestamp) -> bool {
        self.secs > other.secs || (self.secs == other.secs && self.nanos > other.nanos)
    }

    /// `self` does not lie within a leap second.
    pub open spec fn is_plain(self) -> bool {
        self.nanos < NANOS_PER_SECOND
    }

    /// Nanoseconds from the epoch to `self`; meaningful for plain instants.
    pub open spec fn nanos_since_epoch(self) -> int {
        self.secs * 1_000_000_000 + self.nanos
    }

    /// The instant `secs` seconds and `nanos` nanoseconds after the epoch.
    pub fn new(secs: i64, nanos: u32) -> (t: Timestamp)
        ensures
            t == (Timestamp { secs, nanos }),
    {
        Timestamp { secs, nanos }
    }

    /// Whether `self` is strictly later than `other`.
    pub fn after(&self, other: &Timestamp) -> (later: bool)
        ensures
            later == self.is_after(*other),
    {
        self.secs > other.secs || (self.secs == other.secs && self.nanos > other.nanos)
    }
}

/// "Later than" orders instants strictly: no instant is later than itself,
/// and of two different instants exactly one is the later.
pub proof fn lemma_later_is_strict(a: Timestamp, b: Timestamp)
    ensures
        !a.is_after(a),
        a.is_after(b) ==> !b.is_after(a),
        a == b || a.is_after(b) || b.is_after(a),
{
}

/// What is later than something later is later still.
pub proof fn lemma_later_is_transitive(a: Timestamp, b: Timestamp, c: Timestamp)
    requires
        a.is_after(b),
        b.is_after(c),
    ensures
        a.is_after(c),
{
}

/// Outside leap seconds an instant is later than another exactly if more
/// nanoseconds separate it from the epoch.
pub proof fn lemma_later_by_nanos(a: Timestamp, b: Timestamp)
    requires
        a.is_plain(),
        b.is_plain(),
    ensures
        a.is_after(b) <==> a.nanos_since_epoch() > b.nanos_since_epoch(),
{
}

/// Whether a seat has been used lately.
#[derive(Clone, Copy, Debug, PartialEq, Eq, Structural)]
pub enum SeatStatus {
    /// The seat was used within the activity window.
    Active,
    /// The seat was not used within the activity window, or never.
    Inactive,
}

/// The word shown for the active status.
pub const ACTIVE_LABEL: &'static str = "Active";

/// The word shown for the inactive status.
pub const INACTIVE_LABEL: &'static str = "Inactive";

impl SeatStatus {
    /// The word shown for the status.
    pub open spec fn spec_label(self) -> Seq<char> {
        match self {
            SeatStatus::Active => ACTIVE_LABEL@,
            SeatStatus::Inactive => INACTIVE_LABEL@,
        }
    }

    /// The word shown for the status: `Active` or `Inactive`.
    pub fn label(&self) -> (word: String)
        ensures
            word@ == self.spec_label(),
    {
        match self {
            SeatStatus::Active => String::from_str(ACTIVE_LABEL),
            SeatStatus::Inactive => String::from_str(INACTIVE_LABEL),
        }
    }
}

/// One seat with its activity status.
#[derive(Clone, Debug, PartialEq, Eq)]
pub struct CopilotSeat {
    /// The login of the account the seat is assigned to.
    pub username: String,
    /// When the seat was assigned.
    pub created_at: Timestamp,
    /// When the account last used the seat; `None` if it never did.
    pub last_activity_at: Option<Timestamp>,
    /// Whether the seat counted as active when it was classified.
    pub status: SeatStatus,
}

/// What a [`CopilotSeat`] says, with the login as a sequence of characters.
pub struct ClassifiedSeat {
    pub username: Seq<char>,
    pub created_at: Timestamp,
    pub last_activity_at: Option<Timestamp>,
    pub status: SeatStatus,
}

impl View for CopilotSeat {
    type V = ClassifiedSeat;

    open spec fn view(&self) -> ClassifiedSeat {
        ClassifiedSeat {
            username: self.username@,
            created_at: self.created_at,
            last_activity_at: self.last_activity_at,
            status: self.status,
        }
    }
}

/// The seats of a list, in order, each by its view.
pub open spec fn classified_seats(seats: Seq<CopilotSeat>) -> Seq<ClassifiedSeat> {
    seats.map_values(|seat: CopilotSeat| seat@)
}

} // verus!
