//! The vocabulary of a resolution in progress: what it waits for, what it is told,
//! and how it ends.
//!
//! A resolution never performs a lookup or a transfer itself. It names the one thing it
//! needs next as a `Pending`, the caller performs it and reports the outcome as an
//! `Event`, and the resolution answers with the next `Step`.

use vstd::prelude::*;
use crate::error::{ResolutionError, ResolutionErrorView};
use crate::message::{EmojiInfo, MemberInfo};

verus! {

/// A host whose public links lead to a share page instead of the media itself.
#[derive(Debug, Clone, Copy, PartialEq, Eq)]
pub enum Host {
    Tenor,
    Giphy,
}

/// The one outside operation that a resolution waits for.
#[derive(Debug, Clone, PartialEq, Eq)]
pub enum Pending {
    /// Look `text` up as a member of the guild the message was sent in.
    MemberLookup { text: String },
    /// Look `text` up as a custom emoji.
    EmojiLookup { text: String },
    /// Download the attachment with this identifier.
    Download { attachment: u64 },
    /// Send a GET request to `url` and report the status and headers of the response.
    /// `share_page` names the host when `url` is a share page to read the media URL from.
    Response { url: String, share_page: Option<Host> },
    /// Read the body of the response from `url`, a share page of `host`, as text.
    PageText { url: String, host: Host },
    /// Read the body of the response from `url` as bytes. The reading may stop as soon as
    /// more than `limit` bytes have come: a body of that size is refused whatever follows.
    MediaBody { url: String, limit: usize },
}

/// Status and headers of an HTTP response, before its body is read.
#[derive(Debug, Clone, PartialEq, Eq)]
pub struct ResponseHead {
    pub status: u16,
    /// Value of the `Content-Type` header, if present.
    pub content_type: Option<String>,
    /// Value of the `Content-Length` header, if present.
    pub content_length: Option<String>,
}

/// The outcome of an outside operation.
#[derive(Debug, Clone, PartialEq, Eq)]
pub enum Event {
    /// The member that a lookup found, if any.
    Member(Option<MemberInfo>),
    /// The emoji that a lookup found, if any.
    Emoji(Option<EmojiInfo>),
    /// The bytes of a downloaded attachment.
    Downloaded(Vec<u8>),
    /// Status and headers of a response.
    Head(ResponseHead),
    /// A response body read as text.
    Text(String),
    /// A response body read as bytes.
    Body(Vec<u8>),
}

/// Where a resolution stands after a call.
#[derive(Debug, PartialEq, Eq)]
pub enum Step {
    /// The resolution goes on once the caller has performed the pending operation.
    Wait(Pending),
    /// The resolution is over, with the image bytes or the reason for failure.
    Done(Result<Vec<u8>, ResolutionError>),
}

/// `Pending` with its texts as character sequences.
pub enum PendingView {
    MemberLookup { text: Seq<char> },
    EmojiLookup { text: Seq<char> },
    Download { attachment: u64 },
    Response { url: Seq<char>, share_page: Option<Host> },
    PageText { url: Seq<char>, host: Host },
    MediaBody { url: Seq<char>, limit: usize },
}

/// `ResponseHead` with its header values as character sequences.
pub struct ResponseHeadView {
    pub status: u16,
    pub content_type: Option<Seq<char>>,
    pub content_length: Option<Seq<char>>,
}

/// `Event` with its texts and payloads as sequences.
pub enum EventView {
    Member(Option<MemberInfo>),
    Emoji(Option<EmojiInfo>),
    Downloaded(Seq<u8>),
    Head(ResponseHeadView),
    Text(Seq<char>),
    Body(Seq<u8>),
}

/// `Step` with its texts and payloads as sequences.
pub enum StepView {
    Wait(PendingView),
    Done(Result<Seq<u8>, ResolutionErrorView>),
}

impl View for Pending {
    type V = PendingView;

    open spec fn view(&self) -> PendingView {
        match self {
            Pending::MemberLookup { text } => PendingView::MemberLookup { text: text@ },
            Pending::EmojiLookup { text } => PendingView::EmojiLookup { text: text@ },
            Pending::Download { attachment } => PendingView::Download { attachment: *attachment },
            Pending::Response { url, share_page } => PendingView::Response {
                url: url@,
                share_page: *share_page,
            },
            Pending::PageText { url, host } => PendingView::PageText { url: url@, host: *host },
            Pending::MediaBody { url, limit } => PendingView::MediaBody {
                url: url@,
                limit: *limit,
            },
        }
    }
}

impl View for ResponseHead {
    type V = ResponseHeadView;

    open spec fn view(&self) -> ResponseHeadView {
        ResponseHeadView {
            status: self.status,
            content_type: self.content_type.deep_view(),
            content_length: self.content_length.deep_view(),
        }
    }
}

impl View for Event {
    type V = EventView;

    open spec fn view(&self) -> EventView {
        match self {
            Event::Member(m) => EventView::Member(*m),
            Event::Emoji(e) => EventView::Emoji(*e),
            Event::Downloaded(bytes) => EventView::Downloaded(bytes@),
            Event::Head(head) => EventView::Head(head@),
            Event::Text(text) => EventView::Text(text@),
            Event::Body(bytes) => EventView::Body(bytes@),
        }
    }
}

impl View for Step {
    type V = StepView;

    open spec fn view(&self) -> StepView {
        match self {
            Step::Wait(pending) => StepView::Wait(pending@),
            Step::Done(Ok(bytes)) => StepView::Done(Ok(bytes@)),
            Step::Done(Err(e)) => StepView::Done(Err(e@)),
        }
    }
}

} // verus!
