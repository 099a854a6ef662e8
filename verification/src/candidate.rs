//! The places that image bytes may come from, before any of them is trusted.

use vstd::prelude::*;
use crate::message::{AttachmentInfo, AttachmentView, EmojiInfo, MemberInfo};

verus! {

/// What the text of a query denotes.
#[derive(Debug, Clone, PartialEq, Eq)]
pub enum Query {
    /// Text that names neither a member nor an emoji.
    String(String),
    Emoji(EmojiInfo),
    Member(MemberInfo),
}

/// A source of bytes that has not been validated yet.
#[derive(Debug, Clone, PartialEq, Eq)]
pub enum RawResult<'a> {
    Attachment(&'a AttachmentInfo),
    Bytes(Vec<u8>),
    Url(String),
}

/// `Query` with its text as a character sequence.
pub enum QueryView {
    String(Seq<char>),
    Emoji(EmojiInfo),
    Member(MemberInfo),
}

/// `RawResult` as sequences.
pub enum RawResultView {
    Attachment(AttachmentView),
    Bytes(Seq<u8>),
    Url(Seq<char>),
}

impl View for Query {
    type V = QueryView;

    open spec fn view(&self) -> QueryView {
        match self {
            Query::String(text) => QueryView::String(text@),
            Query::Emoji(e) => QueryView::Emoji(*e),
            Query::Member(m) => QueryView::Member(*m),
        }
    }
}

impl<'a> View for RawResult<'a> {
    type V = RawResultView;

    open spec fn view(&self) -> RawResultView {
        match self {
            RawResult::Attachment(a) => RawResultView::Attachment(a@),
            RawResult::Bytes(bytes) => RawResultView::Bytes(bytes@),
            RawResult::Url(url) => RawResultView::Url(url@),
        }
    }
}

} // verus!
