//! The resolution itself: from a message to image bytes, one outside operation at a
//! time.
//!
//! `resolve` opens a resolution and `advance` carries it on with the outcome of the
//! operation it waited for. Both are functions of their arguments alone, so that a
//! resolution run twice on the same message with the same outcomes ends the same way.

use vstd::prelude::*;
use crate::candidate::{Query, QueryView, RawResultView};
use crate::chain::candidate;
use crate::config::{content_types, suffixes, ImageResolver};
use crate::error::{Measure, ResolutionError, ResolutionErrorView};
use crate::message::{EmojiInfo, MemberInfo, MessageInfo, MessageView};
use crate::pattern::share_host;
use crate::sanitize::{delivered, head_fault, is_success, sanitized};
use crate::step::{Event, EventView, Host, Pending, PendingView, Step, StepView};
use crate::text::trim_brackets;
use crate::unfurl::unfurled;

verus! {

/// What a query denotes once both lookups are known: the member where one was found,
/// else the emoji where one was found, else the text itself.
pub open spec fn classified(
    text: Seq<char>,
    member: Option<MemberInfo>,
    emoji: Option<EmojiInfo>,
) -> QueryView {
    match member {
        Some(m) => QueryView::Member(m),
        None => match emoji {
            Some(e) => QueryView::Emoji(e),
            None => QueryView::String(text),
        },
    }
}

/// The step that the fallback chain takes for a message: the first step for its
/// candidate, or the end where it has none.
pub open spec fn chained(config: ImageResolver, message: MessageView) -> StepView {
    match candidate(config, message) {
        Some(found) => sanitized(config, found, suffixes(config.allow_gifs)),
        None => StepView::Done(Err(ResolutionErrorView::NoImageFound)),
    }
}

/// The first step of a resolution: the text of a query is first looked up as a member
/// where the policy asks for lookups; otherwise the fallback chain starts at once.
pub open spec fn started(config: ImageResolver, message: MessageView, query: Option<Seq<char>>) -> StepView {
    match query {
        Some(text) => if config.run_conversions {
            StepView::Wait(PendingView::MemberLookup { text })
        } else {
            chained(config, message)
        },
        None => chained(config, message),
    }
}

/// The step that follows when `event` is reported while `pending` is awaited. An event
/// of another kind than the awaited one changes nothing: the same operation stays
/// pending.
pub open spec fn advanced(
    config: ImageResolver,
    message: MessageView,
    pending: PendingView,
    event: EventView,
) -> StepView {
    match (pending, event) {
        (PendingView::MemberLookup { .. }, EventView::Member(Some(_))) => chained(
            config,
            message,
        ),
        (PendingView::MemberLookup { text }, EventView::Member(None)) => StepView::Wait(
            PendingView::EmojiLookup { text },
        ),
        (PendingView::EmojiLookup { .. }, EventView::Emoji(_)) => chained(config, message),
        (PendingView::Download { .. }, EventView::Downloaded(bytes)) => StepView::Done(
            delivered(config, bytes),
        ),
        (PendingView::Response { url, share_page: Some(host) }, EventView::Head(head)) => {
            if is_success(head.status) {
                StepView::Wait(PendingView::PageText { url, host })
            } else {
                StepView::Done(Err(ResolutionErrorView::UpstreamError { status: head.status }))
            }
        },
        (PendingView::Response { url, share_page: None }, EventView::Head(head)) => {
            match head_fault(config, head, content_types(config.allow_gifs)) {
                Some(fault) => StepView::Done(Err(fault)),
                None => StepView::Wait(PendingView::MediaBody { url, limit: config.max_size }),
            }
        },
        (PendingView::PageText { host, .. }, EventView::Text(page)) => match unfurled(host, page) {
            Ok(direct) => StepView::Wait(PendingView::Response { url: direct, share_page: None }),
            Err(fault) => StepView::Done(Err(fault)),
        },
        (PendingView::MediaBody { .. }, EventView::Body(bytes)) => StepView::Done(
            delivered(config, bytes),
        ),
        _ => StepView::Wait(pending),
    }
}

/// Where a resolution that stands at `step` gets to when `events` are reported in turn.
/// Events that come after the end are not looked at.
pub open spec fn run(
    config: ImageResolver,
    message: MessageView,
    step: StepView,
    events: Seq<EventView>,
) -> StepView
    decreases events.len(),
{
    if events.len() == 0 {
        step
    } else {
        match step {
            StepView::Wait(pending) => run(
                config,
                message,
                advanced(config, message, pending, events[0]),
                events.drop_first(),
            ),
            StepView::Done(_) => step,
        }
    }
}

/// A step that hands out no more bytes than the ceiling allows.
pub open spec fn fits(config: ImageResolver, step: StepView) -> bool {
    step matches StepView::Done(Ok(bytes)) ==> bytes.len() <= config.max_size
}

/// However a resolution is opened and whatever is reported to it, it never ends with more
/// bytes than the size ceiling allows.
pub proof fn result_fits(
    config: ImageResolver,
    message: MessageView,
    query: Option<Seq<char>>,
    events: Seq<EventView>,
)
    ensures
        fits(config, run(config, message, started(config, message, query), events)),
{
    run_fits(config, message, started(config, message, query), events);
}

/// A resolution that stands at a step that fits stays within the ceiling whatever is
/// reported to it.
pub proof fn run_fits(
    config: ImageResolver,
    message: MessageView,
    step: StepView,
    events: Seq<EventView>,
)
    requires
        fits(config, step),
    ensures
        fits(config, run(config, message, step, events)),
    decreases events.len(),
{
    if events.len() > 0 {
        match step {
            StepView::Wait(pending) => {
                run_fits(
                    config,
                    message,
                    advanced(config, message, pending, events[0]),
                    events.drop_first(),
                );
            },
            StepView::Done(_) => {},
        }
    }
}

/// A body that is longer than the limit named with the request for it is refused as too
/// large, so that the reading of a body may stop there.
pub proof fn body_over_the_limit_is_refused(
    config: ImageResolver,
    message: MessageView,
    url: Seq<char>,
    bytes: Seq<u8>,
)
    requires
        bytes.len() > config.max_size,
    ensures
        advanced(
            config,
            message,
            PendingView::MediaBody { url, limit: config.max_size },
            EventView::Body(bytes),
        ) == StepView::Done(
            Err(
                ResolutionErrorView::TooLarge {
                    measure: Measure::FileSize,
                    actual: bytes.len() as u64,
                    limit: config.max_size as u64,
                },
            ),
        ),
{
}

/// The text at position `at` of `events` is a share page of `host` that holds `url` as
/// its media URL.
pub open spec fn page_reported(events: Seq<EventView>, at: int, host: Host, url: Seq<char>) -> bool {
    &&& 0 <= at < events.len()
    &&& events[at] matches EventView::Text(page) && unfurled(host, page) == Ok::<
        Seq<char>,
        ResolutionErrorView,
    >(url)
}

/// The body at position `at` of `events` is `bytes`.
pub open spec fn body_reported(events: Seq<EventView>, at: int, bytes: Seq<u8>) -> bool {
    &&& 0 <= at < events.len()
    &&& events[at] == EventView::Body(bytes)
}

/// Some text in `events` is a share page of `host` that holds `url` as its media URL.
pub open spec fn read_from_page(events: Seq<EventView>, host: Host, url: Seq<char>) -> bool {
    exists|at: int| page_reported(events, at, host, url)
}

/// `bytes` is a body in `events` that was reported after a share page of `host` that
/// holds a media URL.
pub open spec fn body_after_page(events: Seq<EventView>, host: Host, bytes: Seq<u8>) -> bool {
    exists|at: int, url: Seq<char>, then: int|
        page_reported(events, at, host, url) && at < then && body_reported(events, then, bytes)
}

/// Where a resolution may stand once it has asked for the share page `share` of `host`
/// and has been told `events`: it still works on the share page, or it fetches media
/// from a URL that a reported page held, or it has ended, with bytes only if they are a
/// body that was reported after such a page.
pub open spec fn unfurling(
    step: StepView,
    share: Seq<char>,
    host: Host,
    events: Seq<EventView>,
) -> bool {
    match step {
        StepView::Wait(pending) => match pending {
            PendingView::Response { url, share_page } => match share_page {
                Some(h) => url == share && h == host,
                None => read_from_page(events, host, url),
            },
            PendingView::PageText { url, host: h } => url == share && h == host,
            PendingView::MediaBody { url, .. } => read_from_page(events, host, url),
            _ => false,
        },
        StepView::Done(result) => match result {
            Ok(bytes) => body_after_page(events, host, bytes),
            Err(_) => true,
        },
    }
}

/// A URL that matches the share-page pattern of an indirect host is first requested as
/// that host's share page.
pub proof fn share_page_is_requested_first(
    config: ImageResolver,
    url: Seq<char>,
    host: Host,
    suffixes: Seq<Seq<char>>,
)
    requires
        share_host(trim_brackets(url)) == Some(host),
    ensures
        sanitized(config, RawResultView::Url(url), suffixes) == StepView::Wait(
            PendingView::Response { url: trim_brackets(url), share_page: Some(host) },
        ),
        unfurling(
            sanitized(config, RawResultView::Url(url), suffixes),
            trim_brackets(url),
            host,
            Seq::empty(),
        ),
{
}

/// Once a share page has been asked for, no media is fetched but from a URL read out of
/// a reported page, and no bytes are handed out but a body reported after that page:
/// never bytes of the share URL itself.
pub proof fn media_comes_from_unfurled_url(
    config: ImageResolver,
    message: MessageView,
    share: Seq<char>,
    host: Host,
    step: StepView,
    seen: Seq<EventView>,
    events: Seq<EventView>,
)
    requires
        unfurling(step, share, host, seen),
    ensures
        unfurling(run(config, message, step, events), share, host, seen + events),
    decreases events.len(),
{
    if events.len() == 0 {
        assert(seen + events =~= seen);
    } else {
        let all = seen + events;
        match step {
            StepView::Wait(pending) => {
                let event = events[0];
                let next = advanced(config, message, pending, event);
                let told = seen.push(event);
                assert(told[seen.len() as int] == event);
                match pending {
                    PendingView::Response { url, share_page: None } => {
                        let at = choose|at: int| page_reported(seen, at, host, url);
                        assert(page_reported(told, at, host, url));
                        assert(unfurling(next, share, host, told));
                    },
                    PendingView::Response { share_page: Some(_), .. } => {
                        assert(unfurling(next, share, host, told));
                    },
                    PendingView::MediaBody { url, .. } => {
                        let at = choose|at: int| page_reported(seen, at, host, url);
                        assert(page_reported(told, at, host, url));
                        match next {
                            StepView::Done(Ok(bytes)) => {
                                assert(body_reported(told, seen.len() as int, bytes));
                            },
                            _ => {},
                        }
                        assert(unfurling(next, share, host, told));
                    },
                    PendingView::PageText { .. } => {
                        match next {
                            StepView::Wait(PendingView::Response { url: direct, .. }) => {
                                assert(page_reported(told, seen.len() as int, host, direct));
                            },
                            _ => {},
                        }
                        assert(unfurling(next, share, host, told));
                    },
                    _ => {},
                }
                media_comes_from_unfurled_url(
                    config,
                    message,
                    share,
                    host,
                    next,
                    told,
                    events.drop_first(),
                );
                assert(told + events.drop_first() =~= all);
            },
            StepView::Done(Ok(bytes)) => {
                let (at, url, then) = choose|at: int, url: Seq<char>, then: int|
                    page_reported(seen, at, host, url) && at < then && body_reported(
                        seen,
                        then,
                        bytes,
                    );
                assert(page_reported(all, at, host, url));
                assert(body_reported(all, then, bytes));
            },
            StepView::Done(Err(_)) => {},
        }
    }
}

/// A URL that matches the share-page pattern of an indirect host is unfurled before
/// any media is fetched: whatever is reported, media is requested only from a URL read
/// out of a reported share page, and the bytes handed out are a body reported after
/// that page, not the answer to the share URL.
pub proof fn shared_link_is_unfurled(
    config: ImageResolver,
    message: MessageView,
    url: Seq<char>,
    host: Host,
    suffixes: Seq<Seq<char>>,
    events: Seq<EventView>,
)
    requires
        share_host(trim_brackets(url)) == Some(host),
    ensures
        unfurling(
            run(config, message, sanitized(config, RawResultView::Url(url), suffixes), events),
            trim_brackets(url),
            host,
            events,
        ),
{
    share_page_is_requested_first(config, url, host, suffixes);
    media_comes_from_unfurled_url(
        config,
        message,
        trim_brackets(url),
        host,
        sanitized(config, RawResultView::Url(url), suffixes),
        Seq::empty(),
        events,
    );
    assert(Seq::<EventView>::empty() + events =~= events);
}

/// A resolution is a function of the policy, the message, the query and what is
/// reported: run again on the same values, it stands at the same step, with the same
/// bytes where it has ended.
pub proof fn resolution_is_repeatable(
    config: ImageResolver,
    message: MessageView,
    query: Option<Seq<char>>,
    events: Seq<EventView>,
    again_config: ImageResolver,
    again_message: MessageView,
    again_query: Option<Seq<char>>,
    again_events: Seq<EventView>,
)
    requires
        again_config == config,
        again_message == message,
        again_query == query,
        again_events =~= events,
    ensures
        run(again_config, again_message, started(again_config, again_message, again_query), again_events)
            == run(config, message, started(config, message, query), events),
{
}

impl ImageResolver {
    /// What a query denotes once the lookups are known.
    pub fn classify(text: String, member: Option<MemberInfo>, emoji: Option<EmojiInfo>) -> (r: Query)
        ensures
            r@ == classified(text@, member, emoji),
    {
        match member {
            Some(m) => Query::Member(m),
            None => match emoji {
                Some(e) => Query::Emoji(e),
                None => Query::String(text),
            },
        }
    }

    /// Walks the fallback chain for a message and takes the first step for the candidate it
    /// finds. What the query denotes does not override the chain: the step is the same for
    /// every query.
    pub fn chain(&self, message: &MessageInfo, query: Option<Query>) -> (r: Step)
        ensures
            r@ == chained(*self, message@),
    {
        match query {
            // No kind of query chooses the image by itself: each leaves it to the chain.
            Some(Query::String(_)) | Some(Query::Emoji(_)) | Some(Query::Member(_)) | None => {},
        }
        match self.candidate(message) {
            Some(found) => {
                let list = self.allowed_suffixes();
                self.sanitize(found, &list)
            },
            None => Step::Done(Err(ResolutionError::NoImageFound)),
        }
    }

    /// Opens a resolution for a message and the text of a query, if one was given.
    pub fn resolve(&self, message: &MessageInfo, query: Option<String>) -> (r: Step)
        ensures
            r@ == started(*self, message@, query.deep_view()),
    {
        match query {
            Some(text) => {
                if self.run_conversions {
                    Step::Wait(Pending::MemberLookup { text })
                } else {
                    self.chain(message, Some(Query::String(text)))
                }
            },
            None => self.chain(message, None),
        }
    }

    /// Carries a resolution on: `event` is the outcome of the operation that `pending`
    /// asked for.
    pub fn advance(&self, message: &MessageInfo, pending: Pending, event: Event) -> (r: Step)
        ensures
            r@ == advanced(*self, message@, pending@, event@),
    {
        match (pending, event) {
            (Pending::MemberLookup { text }, Event::Member(Some(member))) => {
                let query = Self::classify(text, Some(member), None);
                self.chain(message, Some(query))
            },
            (Pending::MemberLookup { text }, Event::Member(None)) => Step::Wait(
                Pending::EmojiLookup { text },
            ),
            (Pending::EmojiLookup { text }, Event::Emoji(emoji)) => {
                let query = Self::classify(text, None, emoji);
                self.chain(message, Some(query))
            },
            (Pending::Download { .. }, Event::Downloaded(bytes)) => Step::Done(
                self.deliver(bytes),
            ),
            (Pending::Response { url, share_page: Some(host) }, Event::Head(head)) => {
                if head.status >= 200 && head.status < 300 {
                    Step::Wait(Pending::PageText { url, host })
                } else {
                    Step::Done(Err(ResolutionError::UpstreamError { status: head.status }))
                }
            },
            (Pending::Response { url, share_page: None }, Event::Head(head)) => {
                let list = self.allowed_content_types();
                match self.check_head(&head, &list) {
                    Err(fault) => Step::Done(Err(fault)),
                    Ok(_) => Step::Wait(Pending::MediaBody { url, limit: self.max_size }),
                }
            },
            (Pending::PageText { host, .. }, Event::Text(page)) => {
                match Self::unfurl(host, page.as_str()) {
                    Ok(direct) => Step::Wait(Pending::Response { url: direct, share_page: None }),
                    Err(fault) => Step::Done(Err(fault)),
                }
            },
            (Pending::MediaBody { .. }, Event::Body(bytes)) => Step::Done(
                self.deliver(bytes),
            ),
            (pending, _) => Step::Wait(pending),
        }
    }
}

} // verus!
