//! Why a resolution failed.

use vstd::prelude::*;

verus! {

/// What an allow-list turned away.
#[derive(Debug, Clone, PartialEq, Eq)]
pub enum Unsupported {
    /// The file name's extension, given without its dot.
    Extension(String),
    /// The value of the `Content-Type` header.
    ContentType(String),
    /// The response had no `Content-Type` header.
    MissingContentType,
}

/// The measure that went over its ceiling.
#[derive(Debug, Clone, Copy, PartialEq, Eq)]
pub enum Measure {
    /// The size that an attachment declares, in bytes.
    AttachmentSize,
    /// The size of a payload, or the one a `Content-Length` header declares, in bytes.
    FileSize,
    /// The width of an attachment, in pixels.
    Width,
    /// The height of an attachment, in pixels.
    Height,
}

/// The failures of a resolution. Each is final: nothing is retried or recovered.
#[derive(Debug, Clone, PartialEq, Eq)]
pub enum ResolutionError {
    /// A file extension or content type is not in the allow-list.
    UnsupportedFormat(Unsupported),
    /// A byte size or a pixel dimension exceeds its ceiling.
    TooLarge { measure: Measure, actual: u64, limit: u64 },
    /// An attachment lacks its width or its height.
    InvalidMedia,
    /// A fetch was answered with a status outside the 2xx range.
    UpstreamError { status: u16 },
    /// A share page does not hold the marker that the media URL is read from.
    ParseError,
    /// The message offers no image anywhere.
    NoImageFound,
}

/// `Unsupported` with its texts as character sequences.
pub enum UnsupportedView {
    Extension(Seq<char>),
    ContentType(Seq<char>),
    MissingContentType,
}

/// `ResolutionError` with its texts as character sequences.
pub enum ResolutionErrorView {
    UnsupportedFormat(UnsupportedView),
    TooLarge { measure: Measure, actual: u64, limit: u64 },
    InvalidMedia,
    UpstreamError { status: u16 },
    ParseError,
    NoImageFound,
}

impl View for Unsupported {
    type V = UnsupportedView;

    open spec fn view(&self) -> UnsupportedView {
        match self {
            Unsupported::Extension(e) => UnsupportedView::Extension(e@),
            Unsupported::ContentType(t) => UnsupportedView::ContentType(t@),
            Unsupported::MissingContentType => UnsupportedView::MissingContentType,
        }
    }
}

impl View for ResolutionError {
    type V = ResolutionErrorView;

    open spec fn view(&self) -> ResolutionErrorView {
        match self {
            ResolutionError::UnsupportedFormat(u) => ResolutionErrorView::UnsupportedFormat(u@),
            ResolutionError::TooLarge { measure, actual, limit } => ResolutionErrorView::TooLarge {
                measure: *measure,
                actual: *actual,
                limit: *limit,
            },
            ResolutionError::InvalidMedia => ResolutionErrorView::InvalidMedia,
            ResolutionError::UpstreamError { status } => ResolutionErrorView::UpstreamError {
                status: *status,
            },
            ResolutionError::ParseError => ResolutionErrorView::ParseError,
            ResolutionError::NoImageFound => ResolutionErrorView::NoImageFound,
        }
    }
}

} // verus!
