//! What holds of every fetch, whatever the API replies.

use crate::error::FetchError;
use crate::github_client::after_requests;
use crate::github_client::failure_text;
use crate::github_client::fetch;
use crate::github_client::fetch_more;
use crate::github_client::first_page;
use crate::github_client::is_success;
use crate::github_client::next_step;
use crate::github_client::raw_seats;
use crate::github_client::PageReply;
use crate::github_client::Pending;
use crate::github_client::RawSeat;
use crate::github_client::ReplyBody;
use crate::github_client::Run;
use crate::github_client::Step;
use crate::github_client::NOT_FOUND;
use vstd::prelude::*;

verus! {

/// `reply` is a successful answer that lists at least one seat.
pub open spec fn is_full_page(reply: PageReply) -> bool {
    match reply {
        PageReply::Answered { status, body: ReplyBody::Seats(seats) } => is_success(status)
            && seats@.len() > 0,
        _ => false,
    }
}

/// `reply` is a successful answer that lists no seat.
pub open spec fn is_empty_page(reply: PageReply) -> bool {
    match reply {
        PageReply::Answered { status, body: ReplyBody::Seats(seats) } => is_success(status)
            && seats@.len() == 0,
        _ => false,
    }
}

/// The seats that `reply` lists; none unless it carries a seat list.
pub open spec fn page_seats(reply: PageReply) -> Seq<RawSeat> {
    match reply {
        PageReply::Answered { status, body: ReplyBody::Seats(seats) } => raw_seats(seats@),
        _ => Seq::empty(),
    }
}

/// The seats that `replies` list, page after page.
pub open spec fn gathered(replies: Seq<PageReply>) -> Seq<RawSeat>
    decreases replies.len(),
{
    if replies.len() == 0 {
        Seq::empty()
    } else {
        page_seats(replies.first()) + gathered(replies.drop_first())
    }
}

/// The first `pages` of `replies` are full pages.
pub open spec fn begins_with_pages(replies: Seq<PageReply>, pages: int) -> bool {
    &&& 0 <= pages <= replies.len()
    &&& forall|i: int| 0 <= i < pages ==> is_full_page(#[trigger] replies[i])
}

/// The fetch that has taken `pages` more full pages, the first `pages` of
/// `replies`, than `pending` has.
pub open spec fn after_pages(pending: Pending, replies: Seq<PageReply>, pages: int) -> Pending {
    Pending {
        org: pending.org,
        token: pending.token,
        page: (pending.page + pages) as nat,
        seats: pending.seats + gathered(replies.take(pages)),
    }
}

/// Full pages are gathered in order: after `pages` full pages a fetch has
/// made as many requests, asks for the page that many further on, holds the
/// seats of those pages behind the ones it had, and goes on from there with
/// the remaining replies.
pub proof fn lemma_full_pages_are_gathered(pending: Pending, replies: Seq<PageReply>, pages: int)
    requires
        begins_with_pages(replies, pages),
    ensures
        fetch_more(pending, replies) == after_requests(
            fetch_more(after_pages(pending, replies, pages), replies.skip(pages)),
            pages as nat,
        ),
    decreases pages,
{
    if pages == 0 {
        assert(replies.skip(0) =~= replies);
        assert(replies.take(0) =~= Seq::<PageReply>::empty());
        assert(pending.seats + gathered(replies.take(0)) =~= pending.seats);
    } else {
        let head = replies.first();
        let rest = replies.drop_first();
        assert(is_full_page(head));
        let next = next_step(pending, head)->Continue_0;
        assert(next_step(pending, head) == Step::Continue(next));
        assert forall|i: int| 0 <= i < pages - 1 implies is_full_page(#[trigger] rest[i]) by {
            assert(rest[i] == replies[i + 1]);
        }
        lemma_full_pages_are_gathered(next, rest, pages - 1);
        assert(rest.skip(pages - 1) =~= replies.skip(pages));
        assert(replies.take(pages).first() == head);
        assert(replies.take(pages).drop_first() =~= rest.take(pages - 1));
        assert(next.seats + gathered(rest.take(pages - 1)) =~= pending.seats + gathered(
            replies.take(pages),
        ));
        assert(after_pages(next, rest, pages - 1) == after_pages(pending, replies, pages));
    }
}

/// A fetch ends with the first reply that is no full page: that reply alone
/// decides how, and it is the last one asked for.
pub proof fn lemma_fetch_ends_after_full_pages(
    org: Seq<char>,
    token: Seq<char>,
    replies: Seq<PageReply>,
    pages: int,
)
    requires
        token.len() > 0,
        begins_with_pages(replies, pages),
        pages < replies.len(),
        !is_full_page(replies[pages]),
    ensures
        fetch(org, token, replies) == (Run {
            state: next_step(after_pages(first_page(org, token), replies, pages), replies[pages]),
            requests: (pages + 1) as nat,
        }),
        !(fetch(org, token, replies).state is Continue),
{
    lemma_full_pages_are_gathered(first_page(org, token), replies, pages);
    assert(replies.skip(pages).first() == replies[pages]);
}

/// Without a token a fetch fails at once and makes no request.
pub proof fn lemma_no_token_no_request(org: Seq<char>, token: Seq<char>, replies: Seq<PageReply>)
    requires
        token.len() == 0,
    ensures
        fetch(org, token, replies) == (Run {
            state: Step::Failed(FetchError::MissingCredential),
            requests: 0,
        }),
{
}

/// If the first answer is "not found", the fetch fails naming the
/// organization, and that request was its only one.
pub proof fn lemma_not_found_on_first_page(
    org: Seq<char>,
    token: Seq<char>,
    replies: Seq<PageReply>,
)
    requires
        token.len() > 0,
        replies.len() > 0,
        replies[0] matches PageReply::Answered { status, .. } && status == NOT_FOUND,
    ensures
        fetch(org, token, replies) == (Run {
            state: Step::Failed(FetchError::OrganizationNotFound(org)),
            requests: 1,
        }),
{
    lemma_fetch_ends_after_full_pages(org, token, replies, 0);
}

/// An empty page completes the fetch: it hands out the seats of the full
/// pages before it, in order, and has made one request for each of them and
/// one for the empty page.
pub proof fn lemma_empty_page_completes_fetch(
    org: Seq<char>,
    token: Seq<char>,
    replies: Seq<PageReply>,
    pages: int,
)
    requires
        token.len() > 0,
        begins_with_pages(replies, pages),
        pages < replies.len(),
        is_empty_page(replies[pages]),
    ensures
        fetch(org, token, replies) == (Run {
            state: Step::Finished(gathered(replies.take(pages))),
            requests: (pages + 1) as nat,
        }),
{
    lemma_fetch_ends_after_full_pages(org, token, replies, pages);
    assert(Seq::<RawSeat>::empty() + gathered(replies.take(pages)) =~= gathered(
        replies.take(pages),
    ));
}

/// A failed request ends the fetch with its status and text, and nothing
/// of the full pages received before it is handed out.
pub proof fn lemma_failure_discards_earlier_pages(
    org: Seq<char>,
    token: Seq<char>,
    replies: Seq<PageReply>,
    pages: int,
)
    requires
        token.len() > 0,
        begins_with_pages(replies, pages),
        pages < replies.len(),
        replies[pages] matches PageReply::Answered { status, .. } && status != NOT_FOUND
            && !is_success(status),
    ensures
        fetch(org, token, replies) == (Run {
            state: Step::Failed(
                FetchError::RequestFailed {
                    status: replies[pages]->status,
                    body: failure_text(replies[pages]->body),
                },
            ),
            requests: (pages + 1) as nat,
        }),
{
    lemma_fetch_ends_after_full_pages(org, token, replies, pages);
}

/// Pages of equal size add up: `replies` that list `per_page` seats each
/// list `replies.len() * per_page` seats together.
pub proof fn lemma_gathered_len(replies: Seq<PageReply>, per_page: nat)
    requires
        forall|i: int| 0 <= i < replies.len() ==> page_seats(#[trigger] replies[i]).len() == per_page,
    ensures
        gathered(replies).len() == replies.len() * per_page,
    decreases replies.len(),
{
    if replies.len() > 0 {
        let rest = replies.drop_first();
        assert forall|i: int| 0 <= i < rest.len() implies page_seats(#[trigger] rest[i]).len()
            == per_page by {
            assert(rest[i] == replies[i + 1]);
        }
        lemma_gathered_len(rest, per_page);
        assert(replies.len() * per_page == rest.len() * per_page + per_page) by (nonlinear_arith)
            requires
                replies.len() == rest.len() + 1,
        ;
    }
}

/// Full pages of equal size followed by an empty page: the fetch hands out
/// as many seats as the full pages list together and has made one request
/// more than there are full pages.
pub proof fn lemma_equal_pages_then_empty(
    org: Seq<char>,
    token: Seq<char>,
    replies: Seq<PageReply>,
    pages: int,
    per_page: nat,
)
    requires
        token.len() > 0,
        per_page > 0,
        0 <= pages < replies.len(),
        forall|i: int|
            0 <= i < pages ==> is_full_page(#[trigger] replies[i]) && page_seats(replies[i]).len()
                == per_page,
        is_empty_page(replies[pages]),
    ensures
        fetch(org, token, replies).requests == pages + 1,
        fetch(org, token, replies).state matches Step::Finished(seats) && seats.len() == pages
            * per_page,
{
    lemma_empty_page_completes_fetch(org, token, replies, pages);
    let full = replies.take(pages);
    assert forall|i: int| 0 <= i < full.len() implies page_seats(#[trigger] full[i]).len()
        == per_page by {
        assert(full[i] == replies[i]);
    }
    lemma_gathered_len(full, per_page);
}

/// A fetch never makes more requests than it is given replies, and while it
/// waits for a page it has used them all and asks for the page after them.
pub proof fn lemma_one_request_per_reply(pending: Pending, replies: Seq<PageReply>)
    ensures
        fetch_more(pending, replies).requests <= replies.len(),
        replies.len() > 0 ==> fetch_more(pending, replies).requests >= 1,
        fetch_more(pending, replies).state matches Step::Continue(waiting) ==> {
            &&& fetch_more(pending, replies).requests == replies.len()
            &&& waiting.page == pending.page + replies.len()
            &&& waiting.org == pending.org
            &&& waiting.token == pending.token
        },
    decreases replies.len(),
{
    if replies.len() > 0 {
        match next_step(pending, replies.first()) {
            Step::Continue(next) => {
                lemma_one_request_per_reply(next, replies.drop_first());
            },
            _ => {},
        }
    }
}

/// Feeding a fetch one reply at a time comes to the same as feeding it all
/// of them at once: while it waits after `replies`, one more reply takes it
/// where that reply takes the waiting fetch, at the cost of one more
/// request.
pub proof fn lemma_reply_by_reply(pending: Pending, replies: Seq<PageReply>, reply: PageReply)
    requires
        fetch_more(pending, replies).state is Continue,
    ensures
        fetch_more(pending, replies.push(reply)) == (Run {
            state: next_step(fetch_more(pending, replies).state->Continue_0, reply),
            requests: replies.len() + 1,
        }),
    decreases replies.len(),
{
    let longer = replies.push(reply);
    if replies.len() == 0 {
        assert(longer.first() == reply);
        assert(longer.drop_first() =~= Seq::<PageReply>::empty());
        if let Step::Continue(next) = next_step(pending, reply) {
            assert(fetch_more(next, longer.drop_first()).requests == 0);
        }
    } else {
        assert(longer.first() == replies.first());
        assert(longer.drop_first() =~= replies.drop_first().push(reply));
        let next = next_step(pending, replies.first())->Continue_0;
        lemma_reply_by_reply(next, replies.drop_first(), reply);
    }
}

/// Once a fetch has ended, replies that come later change nothing: they
/// are never asked for.
pub proof fn lemma_later_replies_are_ignored(
    pending: Pending,
    replies: Seq<PageReply>,
    later: Seq<PageReply>,
)
    requires
        !(fetch_more(pending, replies).state is Continue),
    ensures
        fetch_more(pending, replies + later) == fetch_more(pending, replies),
    decreases replies.len(),
{
    let all = replies + later;
    assert(replies.len() > 0);
    assert(all.first() == replies.first());
    assert(all.drop_first() =~= replies.drop_first() + later);
    match next_step(pending, replies.first()) {
        Step::Continue(next) => {
            lemma_later_replies_are_ignored(next, replies.drop_first(), later);
        },
        _ => {},
    }
}

} // verus!
