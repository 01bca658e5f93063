//! The paginated fetch of seat assignments, as a machine that is fed the
//! API's replies one at a time.
//!
//! The caller owns the connection. It asks a [`Paginator`] for the next
//! [`PageRequest`], performs it, reports what came back as a [`PageReply`]
//! and receives the [`FetchStep`] that follows: another request, the
//! finished seat list, or the error that ended the fetch.

use crate::error::AppError;
use crate::error::FetchError;
use crate::types::Timestamp;
use vstd::prelude::*;
use vstd::string::StringExecFns;

verus! {

/// Seats asked for in each request.
pub const PER_PAGE: u32 = 100;

/// Number of the first page.
pub const FIRST_PAGE: u128 = 1;

/// The status with which the API answers for an organization it does not
/// know or may not show.
pub const NOT_FOUND: u16 = 404;

/// What precedes the organization's name in the address of its seat list.
pub const SEATS_URL_PREFIX: &'static str = "https://api.github.com/orgs/";

/// What follows the organization's name in the address of its seat list.
pub const SEATS_URL_SUFFIX: &'static str = "/copilot/billing/seats";

/// The method of every request.
pub const METHOD: &'static str = "GET";

/// What precedes the access token in the `Authorization` header.
pub const BEARER: &'static str = "Bearer ";

/// The format asked for in the `Accept` header.
pub const ACCEPT: &'static str = "application/vnd.github.v3+json";

/// The name under which the tool presents itself to the API.
pub const USER_AGENT: &'static str = "GithubCopilotUsages-Rust-CLI";

/// The text that stands in for the body of a failed request when the body
/// could not be read.
pub const UNKNOWN_API_ERROR: &'static str = "Unknown API error";

/// The reason given when a successful reply carries no decoded seat list.
pub const MISSING_SEAT_LIST: &'static str = "the response carries no seat list";

/// Who holds a seat.
#[derive(Clone, Debug, PartialEq, Eq)]
pub struct Assignee {
    /// The account's login. The API sends no empty login; nothing here
    /// relies on that.
    pub login: String,
}

/// One seat as the API reports it.
#[derive(Clone, Debug, PartialEq, Eq)]
pub struct GitHubApiSeat {
    /// The account the seat is assigned to.
    pub assignee: Assignee,
    /// When the seat was assigned.
    pub created_at: Timestamp,
    /// When the account last used the seat; `None` if it never did.
    pub last_activity_at: Option<Timestamp>,
}

/// What a [`GitHubApiSeat`] says, with the login as a sequence of characters.
pub struct RawSeat {
    pub login: Seq<char>,
    pub created_at: Timestamp,
    pub last_activity_at: Option<Timestamp>,
}

impl View for GitHubApiSeat {
    type V = RawSeat;

    open spec fn view(&self) -> RawSeat {
        RawSeat {
            login: self.assignee.login@,
            created_at: self.created_at,
            last_activity_at: self.last_activity_at,
        }
    }
}

/// The seats of a list, in order, each by its view.
pub open spec fn raw_seats(seats: Seq<GitHubApiSeat>) -> Seq<RawSeat> {
    seats.map_values(|seat: GitHubApiSeat| seat@)
}

/// One request for a page of an organization's seat list.
///
/// Each field goes out under its own name: `authorization`, `accept` and
/// `user_agent` are the values of the headers `Authorization`, `Accept` and
/// `User-Agent`, and `per_page` and `page` are the values of the query
/// parameters `per_page` and `page`.
#[derive(Clone, Debug, PartialEq, Eq)]
pub struct PageRequest {
    /// The HTTP method.
    pub method: String,
    /// The address, without the query.
    pub url: String,
    /// The word `Bearer`, a space and the access token.
    pub authorization: String,
    /// The format asked for.
    pub accept: String,
    /// The name under which the tool presents itself.
    pub user_agent: String,
    /// Number of seats asked for.
    pub per_page: u32,
    /// Number of the page asked for; the first page is page 1.
    pub page: u128,
}

/// What a [`PageRequest`] says, with every text as a sequence of characters.
pub struct Request {
    pub method: Seq<char>,
    pub url: Seq<char>,
    pub authorization: Seq<char>,
    pub accept: Seq<char>,
    pub user_agent: Seq<char>,
    pub per_page: nat,
    pub page: nat,
}

impl View for PageRequest {
    type V = Request;

    open spec fn view(&self) -> Request {
        Request {
            method: self.method@,
            url: self.url@,
            authorization: self.authorization@,
            accept: self.accept@,
            user_agent: self.user_agent@,
            per_page: self.per_page as nat,
            page: self.page as nat,
        }
    }
}

/// What the caller is to do with the body of an answer.
#[derive(Clone, Copy, Debug, PartialEq, Eq, Structural)]
pub enum BodyPlan {
    /// Leave it unread.
    Skip,
    /// Read it as text; report [`ReplyBody::Text`], or
    /// [`ReplyBody::Unread`] if reading fails.
    ReadText,
    /// Decode it as a page of seats; report [`ReplyBody::Seats`], or
    /// [`ReplyBody::Undecodable`] if decoding fails.
    DecodeSeats,
}

/// What was made of the body of an answer.
#[derive(Clone, Debug, PartialEq, Eq)]
pub enum ReplyBody {
    /// The body was not read, or could not be read.
    Unread,
    /// The body as text.
    Text(String),
    /// The seats that the body lists, in its order.
    Seats(Vec<GitHubApiSeat>),
    /// The body is no page of seats; the text says why.
    Undecodable(String),
}

/// What came back for one [`PageRequest`].
#[derive(Clone, Debug, PartialEq, Eq)]
pub enum PageReply {
    /// No answer arrived; the text says why.
    Unreachable(String),
    /// The API answered with `status`.
    Answered { status: u16, body: ReplyBody },
}

/// The status announces success.
pub open spec fn is_success(status: u16) -> bool {
    200 <= status < 300
}

/// What the body of an answer with `status` is needed for.
pub open spec fn planned_body(status: u16) -> BodyPlan {
    if status == NOT_FOUND {
        BodyPlan::Skip
    } else if is_success(status) {
        BodyPlan::DecodeSeats
    } else {
        BodyPlan::ReadText
    }
}

/// Says what to do with the body of an answer, given its status: nothing
/// for "not found", decode the seats on success, read the text otherwise.
pub fn body_plan(status: u16) -> (plan: BodyPlan)
    ensures
        plan == planned_body(status),
{
    if status == NOT_FOUND {
        BodyPlan::Skip
    } else if 200 <= status && status < 300 {
        BodyPlan::DecodeSeats
    } else {
        BodyPlan::ReadText
    }
}

/// A fetch that waits for the reply to its next request.
pub struct Pending {
    /// The organization whose seats are fetched.
    pub org: Seq<char>,
    /// The access token; never empty.
    pub token: Seq<char>,
    /// Number of the page asked for next.
    pub page: nat,
    /// The seats of the pages received so far, in order.
    pub seats: Seq<RawSeat>,
}

/// Where a fetch stands.
pub enum Step {
    /// Another page is to be requested.
    Continue(Pending),
    /// The fetch is complete with these seats.
    Finished(Seq<RawSeat>),
    /// The fetch failed; no seats are handed out.
    Failed(FetchError),
}

/// The fetch for `org` before its first request.
pub open spec fn first_page(org: Seq<char>, token: Seq<char>) -> Pending {
    Pending { org, token, page: FIRST_PAGE as nat, seats: Seq::empty() }
}

/// The address of the seat list of `org`.
pub open spec fn seats_url(org: Seq<char>) -> Seq<char> {
    SEATS_URL_PREFIX@ + org + SEATS_URL_SUFFIX@
}

/// The request that a pending fetch makes next.
pub open spec fn request_for(pending: Pending) -> Request {
    Request {
        method: METHOD@,
        url: seats_url(pending.org),
        authorization: BEARER@ + pending.token,
        accept: ACCEPT@,
        user_agent: USER_AGENT@,
        per_page: PER_PAGE as nat,
        page: pending.page,
    }
}

/// The text reported for a failed request: the body where it was read as
/// text, a placeholder otherwise.
pub open spec fn failure_text(body: ReplyBody) -> Seq<char> {
    match body {
        ReplyBody::Text(text) => text@,
        _ => UNKNOWN_API_ERROR@,
    }
}

/// Where a pending fetch stands after `reply`.
///
/// * No answer: the fetch fails with a transport error.
/// * "Not found": the fetch fails, naming the organization.
/// * Any other status but success: the fetch fails with the status and the
///   text of the answer.
/// * Success with an empty seat list: the fetch is complete.
/// * Success with seats: they are added and the next page is due.
/// * Success with anything else: the fetch fails as malformed.
pub open spec fn next_step(pending: Pending, reply: PageReply) -> Step {
    match reply {
        PageReply::Unreachable(detail) => Step::Failed(FetchError::TransportError(detail@)),
        PageReply::Answered { status, body } => {
            if status == NOT_FOUND {
                Step::Failed(FetchError::OrganizationNotFound(pending.org))
            } else if !is_success(status) {
                Step::Failed(FetchError::RequestFailed { status, body: failure_text(body) })
            } else {
                match body {
                    ReplyBody::Seats(seats) => {
                        if seats@.len() == 0 {
                            Step::Finished(pending.seats)
                        } else {
                            Step::Continue(
                                Pending {
                                    org: pending.org,
                                    token: pending.token,
                                    page: pending.page + 1,
                                    seats: pending.seats + raw_seats(seats@),
                                },
                            )
                        }
                    },
                    ReplyBody::Undecodable(detail) => Step::Failed(
                        FetchError::MalformedResponse(detail@),
                    ),
                    _ => Step::Failed(FetchError::MalformedResponse(MISSING_SEAT_LIST@)),
                }
            }
        },
    }
}

/// A fetch in progress: it knows which page to ask for next and keeps the
/// seats of the pages received so far.
#[derive(Debug, PartialEq, Eq)]
pub struct Paginator {
    org_name: String,
    token: String,
    page: u128,
    seats: Vec<GitHubApiSeat>,
}

/// Where a fetch stands after a reply.
#[derive(Debug, PartialEq, Eq)]
pub enum FetchStep {
    /// Another page is to be requested.
    Continue(Paginator),
    /// The fetch is complete with these seats.
    Finished(Vec<GitHubApiSeat>),
    /// The fetch failed.
    Failed(AppError),
}

impl View for FetchStep {
    type V = Step;

    open spec fn view(&self) -> Step {
        match *self {
            FetchStep::Continue(paginator) => Step::Continue(paginator@),
            FetchStep::Finished(seats) => Step::Finished(raw_seats(seats@)),
            FetchStep::Failed(error) => Step::Failed(error@),
        }
    }
}

impl View for Paginator {
    type V = Pending;

    closed spec fn view(&self) -> Pending {
        Pending {
            org: self.org_name@,
            token: self.token@,
            page: self.page as nat,
            seats: raw_seats(self.seats@),
        }
    }
}

impl Paginator {
    /// The token is present, pages count from the first, and every page
    /// received so far has brought at least one seat.
    #[verifier::type_invariant]
    spec fn well_formed(self) -> bool {
        &&& self.token@.len() > 0
        &&& FIRST_PAGE <= self.page <= self.seats@.len() + 1
    }

    /// Begins a fetch of the seats of `org_name`. Without a token no fetch
    /// begins and no request is made.
    pub fn start(org_name: &str, token: &str) -> (begun: Result<Paginator, AppError>)
        ensures
            match begun {
                Ok(paginator) => token@.len() > 0 && paginator@ == first_page(org_name@, token@),
                Err(error) => token@.len() == 0 && error@ == FetchError::MissingCredential,
            },
    {
        if token.is_empty() {
            return Err(AppError::MissingCredential);
        }
        let paginator = Paginator {
            org_name: String::from_str(org_name),
            token: String::from_str(token),
            page: FIRST_PAGE,
            seats: Vec::new(),
        };
        assert(raw_seats(paginator.seats@) =~= Seq::<RawSeat>::empty());
        Ok(paginator)
    }

    /// Number of the page that is asked for next.
    pub fn page(&self) -> (page: u128)
        ensures
            page == self@.page,
            page >= FIRST_PAGE,
    {
        proof {
            use_type_invariant(self);
        }
        self.page
    }

    /// The request to make next.
    pub fn request(&self) -> (request: PageRequest)
        ensures
            request@ == request_for(self@),
            self@.token.len() > 0,
            request@.page >= FIRST_PAGE,
    {
        proof {
            use_type_invariant(self);
        }
        let mut url = String::from_str(SEATS_URL_PREFIX);
        url.append(self.org_name.as_str());
        url.append(SEATS_URL_SUFFIX);
        let mut authorization = String::from_str(BEARER);
        authorization.append(self.token.as_str());
        PageRequest {
            method: String::from_str(METHOD),
            url,
            authorization,
            accept: String::from_str(ACCEPT),
            user_agent: String::from_str(USER_AGENT),
            per_page: PER_PAGE,
            page: self.page,
        }
    }

    /// Takes the reply to the request made last and says where the fetch
    /// stands now.
    pub fn advance(self, reply: PageReply) -> (step: FetchStep)
        ensures
            step@ == next_step(self@, reply),
    {
        proof {
            use_type_invariant(&self);
            assert(self.seats@.len() == self.seats.len());
        }
        match reply {
            PageReply::Unreachable(detail) => FetchStep::Failed(AppError::TransportError(detail)),
            PageReply::Answered { status, body } => {
                if status == NOT_FOUND {
                    FetchStep::Failed(AppError::OrganizationNotFound(self.org_name))
                } else if !(200 <= status && status < 300) {
                    let text = match body {
                        ReplyBody::Text(text) => text,
                        _ => String::from_str(UNKNOWN_API_ERROR),
                    };
                    FetchStep::Failed(AppError::RequestFailed { status, body: text })
                } else {
                    match body {
                        ReplyBody::Seats(mut page_seats) => {
                            if page_seats.is_empty() {
                                FetchStep::Finished(self.seats)
                            } else {
                                let ghost before = self.seats@;
                                let ghost added = page_seats@;
                                let mut seats = self.seats;
                                seats.append(&mut page_seats);
                                assert(raw_seats(seats@) =~= raw_seats(before) + raw_seats(added));
                                FetchStep::Continue(
                                    Paginator {
                                        org_name: self.org_name,
                                        token: self.token,
                                        page: self.page + 1,
                                        seats,
                                    },
                                )
                            }
                        },
                        ReplyBody::Undecodable(detail) => FetchStep::Failed(
                            AppError::MalformedResponse(detail),
                        ),
                        _ => FetchStep::Failed(
                            AppError::MalformedResponse(String::from_str(MISSING_SEAT_LIST)),
                        ),
                    }
                }
            },
        }
    }
}

/// Where a fetch stands after a run of replies, and how many requests it
/// took to get there.
pub struct Run {
    pub state: Step,
    pub requests: nat,
}

/// The same standing after `earlier` more requests.
pub open spec fn after_requests(run: Run, earlier: nat) -> Run {
    Run { state: run.state, requests: run.requests + earlier }
}

/// Where a pending fetch stands once it has been fed `replies` in order.
///
/// Each reply answers one request. Replies after the one that ends the
/// fetch are never asked for; if the replies run out first, the fetch is
/// left waiting for its next page.
pub open spec fn fetch_more(pending: Pending, replies: Seq<PageReply>) -> Run
    decreases replies.len(),
{
    if replies.len() == 0 {
        Run { state: Step::Continue(pending), requests: 0 }
    } else {
        match next_step(pending, replies.first()) {
            Step::Continue(next) => after_requests(fetch_more(next, replies.drop_first()), 1),
            ended => Run { state: ended, requests: 1 },
        }
    }
}

/// Where a fetch for `org` with `token` stands once it has been fed
/// `replies` in order. Without a token it fails before its first request.
pub open spec fn fetch(org: Seq<char>, token: Seq<char>, replies: Seq<PageReply>) -> Run {
    if token.len() == 0 {
        Run { state: Step::Failed(FetchError::MissingCredential), requests: 0 }
    } else {
        fetch_more(first_page(org, token), replies)
    }
}

/// Where a fetch stands after a run of replies, and how many requests it
/// took to get there.
#[derive(Debug, PartialEq, Eq)]
pub struct FetchRun {
    pub state: FetchStep,
    pub requests: usize,
}

impl View for FetchRun {
    type V = Run;

    open spec fn view(&self) -> Run {
        Run { state: self.state@, requests: self.requests as nat }
    }
}

/// Fetches the seats of `org_name`, taking `replies` in order as what comes
/// back for the first, second, third request and so on.
///
/// The fetch stops at the first reply that completes or fails it, and
/// `requests` counts the replies used up to and including that one.
pub fn get_copilot_usage(org_name: &str, token: &str, replies: Vec<PageReply>) -> (run: FetchRun)
    ensures
        run@ == fetch(org_name@, token@, replies@),
{
    let mut paginator = match Paginator::start(org_name, token) {
        Ok(paginator) => paginator,
        Err(error) => {
            return FetchRun { state: FetchStep::Failed(error), requests: 0 };
        },
    };
    let ghost all = replies@;
    let ghost whole = fetch(org_name@, token@, all);
    let mut requests: usize = 0;
    proof {
        assert(all.len() == replies.len());
        assert(all.skip(0) =~= all);
    }
    for reply in it: replies
        invariant
            it.seq() == all,
            requests == it.index(),
            all.len() <= usize::MAX,
            whole == fetch(org_name@, token@, all),
            whole == after_requests(
                fetch_more(paginator@, all.skip(requests as int)),
                requests as nat,
            ),
    {
        proof {
            assert(all.skip(requests as int).first() == reply);
            assert(all.skip(requests as int).drop_first() =~= all.skip(requests + 1));
        }
        requests = requests + 1;
        match paginator.advance(reply) {
            FetchStep::Continue(next) => {
                paginator = next;
            },
            ended => {
                return FetchRun { state: ended, requests };
            },
        }
    }
    FetchRun { state: FetchStep::Continue(paginator), requests }
}

} // verus!
