//! The policy checks that every candidate passes before its bytes are trusted.
//!
//! The checks of a candidate run in a fixed order and stop at the first rule that is
//! broken. No byte is requested before the checks that can be made without it have passed.

use vstd::prelude::*;
use crate::candidate::{RawResult, RawResultView};
use crate::config::ImageResolver;
use crate::error::{Measure, ResolutionError, ResolutionErrorView, Unsupported, UnsupportedView};
use crate::message::{AttachmentInfo, AttachmentView};
use crate::pattern::{indirect_host, share_host};
use crate::step::{Pending, PendingView, ResponseHead, ResponseHeadView, Step, StepView};
use crate::text::{
    after_last, ends_with, has_suffix, parse_decimal, parse_u64, same_text, strip_brackets,
    text_after_last, trim_brackets,
};

verus! {

/// `name` ends with one of `suffixes`.
pub open spec fn has_allowed_suffix(name: Seq<char>, suffixes: Seq<Seq<char>>) -> bool {
    exists|i: int| 0 <= i < suffixes.len() && ends_with(name, #[trigger] suffixes[i])
}

/// The rule that an attachment breaks, by what the platform says of it; `None` where it
/// may be downloaded. The extension is checked first, then the declared size, then that
/// both dimensions are known, then the width, then the height.
pub open spec fn attachment_fault(
    config: ImageResolver,
    attachment: AttachmentView,
    suffixes: Seq<Seq<char>>,
) -> Option<ResolutionErrorView> {
    if !has_allowed_suffix(attachment.filename, suffixes) {
        Some(
            ResolutionErrorView::UnsupportedFormat(
                UnsupportedView::Extension(after_last(attachment.filename, '.')),
            ),
        )
    } else if attachment.size > config.max_size {
        Some(
            ResolutionErrorView::TooLarge {
                measure: Measure::AttachmentSize,
                actual: attachment.size,
                limit: config.max_size as u64,
            },
        )
    } else if attachment.width is None || attachment.height is None {
        Some(ResolutionErrorView::InvalidMedia)
    } else if attachment.width->0 > config.max_width {
        Some(
            ResolutionErrorView::TooLarge {
                measure: Measure::Width,
                actual: attachment.width->0,
                limit: config.max_width as u64,
            },
        )
    } else if attachment.height->0 > config.max_height {
        Some(
            ResolutionErrorView::TooLarge {
                measure: Measure::Height,
                actual: attachment.height->0,
                limit: config.max_height as u64,
            },
        )
    } else {
        None
    }
}

/// What becomes of bytes in hand: they are the result unless they exceed the size
/// ceiling.
pub open spec fn delivered(config: ImageResolver, bytes: Seq<u8>) -> Result<
    Seq<u8>,
    ResolutionErrorView,
> {
    if bytes.len() > config.max_size {
        Err(
            ResolutionErrorView::TooLarge {
                measure: Measure::FileSize,
                actual: bytes.len() as u64,
                limit: config.max_size as u64,
            },
        )
    } else {
        Ok(bytes)
    }
}

/// A status in the 2xx range.
pub open spec fn is_success(status: u16) -> bool {
    200 <= status < 300
}

/// The size that a `Content-Length` value declares; 0 where it writes no number.
pub open spec fn declared_length(value: Seq<char>) -> u64 {
    match parse_decimal(value) {
        Some(n) => n,
        None => 0,
    }
}

/// The rule that the response to a media request breaks; `None` where its body may be
/// read. The status is checked first, then the content type, then the declared length.
pub open spec fn head_fault(config: ImageResolver, head: ResponseHeadView, types: Seq<Seq<char>>) -> Option<
    ResolutionErrorView,
> {
    if !is_success(head.status) {
        Some(ResolutionErrorView::UpstreamError { status: head.status })
    } else if head.content_type is None {
        Some(ResolutionErrorView::UnsupportedFormat(UnsupportedView::MissingContentType))
    } else if !types.contains(head.content_type->0) {
        Some(
            ResolutionErrorView::UnsupportedFormat(
                UnsupportedView::ContentType(head.content_type->0),
            ),
        )
    } else if head.content_length is Some && declared_length(head.content_length->0)
        > config.max_size {
        Some(
            ResolutionErrorView::TooLarge {
                measure: Measure::FileSize,
                actual: declared_length(head.content_length->0),
                limit: config.max_size as u64,
            },
        )
    } else {
        None
    }
}

/// The first step for a candidate: an attachment is checked and then asked for, bytes in
/// hand are delivered, and a URL is freed of its angle brackets and requested, as a share
/// page where it is one.
pub open spec fn sanitized(
    config: ImageResolver,
    candidate: RawResultView,
    suffixes: Seq<Seq<char>>,
) -> StepView {
    match candidate {
        RawResultView::Attachment(attachment) => match attachment_fault(
            config,
            attachment,
            suffixes,
        ) {
            Some(fault) => StepView::Done(Err(fault)),
            None => StepView::Wait(PendingView::Download { attachment: attachment.id }),
        },
        RawResultView::Bytes(bytes) => StepView::Done(delivered(config, bytes)),
        RawResultView::Url(url) => StepView::Wait(
            PendingView::Response {
                url: trim_brackets(url),
                share_page: share_host(trim_brackets(url)),
            },
        ),
    }
}

/// Bytes in hand that exceed the size ceiling are refused as too large, and none of them
/// is handed out.
pub proof fn oversized_bytes_are_refused(
    config: ImageResolver,
    bytes: Seq<u8>,
    suffixes: Seq<Seq<char>>,
)
    requires
        bytes.len() > config.max_size,
    ensures
        sanitized(config, RawResultView::Bytes(bytes), suffixes) == StepView::Done(
            Err(
                ResolutionErrorView::TooLarge {
                    measure: Measure::FileSize,
                    actual: bytes.len() as u64,
                    limit: config.max_size as u64,
                },
            ),
        ),
{
}

/// An attachment with an accepted extension whose declared size exceeds the ceiling is
/// refused as too large, whatever its dimensions, and no download is asked for.
pub proof fn oversized_attachment_is_refused(
    config: ImageResolver,
    attachment: AttachmentView,
    suffixes: Seq<Seq<char>>,
)
    requires
        has_allowed_suffix(attachment.filename, suffixes),
        attachment.size > config.max_size,
    ensures
        sanitized(config, RawResultView::Attachment(attachment), suffixes) == StepView::Done(
            Err(
                ResolutionErrorView::TooLarge {
                    measure: Measure::AttachmentSize,
                    actual: attachment.size,
                    limit: config.max_size as u64,
                },
            ),
        ),
{
}

/// A successful response of an accepted content type that declares a length above the
/// ceiling is refused as too large, so that its body is never asked for.
pub proof fn oversized_response_is_refused(
    config: ImageResolver,
    head: ResponseHeadView,
    types: Seq<Seq<char>>,
)
    requires
        is_success(head.status),
        head.content_type matches Some(t) && types.contains(t),
        head.content_length matches Some(l) && declared_length(l) > config.max_size,
    ensures
        head_fault(config, head, types) == Some(
            ResolutionErrorView::TooLarge {
                measure: Measure::FileSize,
                actual: declared_length(head.content_length->0),
                limit: config.max_size as u64,
            },
        ),
{
}

/// An attachment with an accepted extension and a declared size within the ceiling that
/// lacks its width or its height is refused as invalid media, whatever its size and
/// whatever the dimension it does have.
pub proof fn missing_dimensions_are_invalid(
    config: ImageResolver,
    attachment: AttachmentView,
    suffixes: Seq<Seq<char>>,
)
    requires
        has_allowed_suffix(attachment.filename, suffixes),
        attachment.size <= config.max_size,
        attachment.width is None || attachment.height is None,
    ensures
        sanitized(config, RawResultView::Attachment(attachment), suffixes) == StepView::Done(
            Err(ResolutionErrorView::InvalidMedia),
        ),
{
}

/// Whatever the candidate, its first step hands out no more bytes than the ceiling
/// allows.
pub proof fn sanitized_bytes_fit(
    config: ImageResolver,
    candidate: RawResultView,
    suffixes: Seq<Seq<char>>,
)
    ensures
        sanitized(config, candidate, suffixes) matches StepView::Done(Ok(bytes)) ==> bytes.len()
            <= config.max_size,
{
}

/// Whether `text` is one of `list`.
pub fn is_listed(list: &Vec<&str>, text: &str) -> (r: bool)
    ensures
        r == list.deep_view().contains(text@),
{
    let mut i: usize = 0;
    while i < list.len()
        invariant
            i <= list.len(),
            forall|j: int| 0 <= j < i ==> list.deep_view()[j] != text@,
        decreases list.len() - i,
    {
        if same_text(list[i], text) {
            assert(list.deep_view()[i as int] == text@);
            return true;
        }
        i += 1;
    }
    false
}

/// Whether `name` ends with one of `suffixes`.
pub fn ends_with_any(name: &str, suffixes: &Vec<&str>) -> (r: bool)
    ensures
        r == has_allowed_suffix(name@, suffixes.deep_view()),
{
    let mut i: usize = 0;
    while i < suffixes.len()
        invariant
            i <= suffixes.len(),
            forall|j: int| 0 <= j < i ==> !ends_with(name@, #[trigger] suffixes.deep_view()[j]),
        decreases suffixes.len() - i,
    {
        if has_suffix(name, suffixes[i]) {
            assert(ends_with(name@, suffixes.deep_view()[i as int]));
            return true;
        }
        i += 1;
    }
    false
}

impl ImageResolver {
    /// Checks an attachment against the policy, by what the platform says of it.
    pub fn check_attachment(&self, attachment: &AttachmentInfo, suffixes: &Vec<&str>) -> (r: Result<
        (),
        ResolutionError,
    >)
        ensures
            match r {
                Ok(_) => attachment_fault(*self, attachment@, suffixes.deep_view()) is None,
                Err(e) => attachment_fault(*self, attachment@, suffixes.deep_view()) == Some(e@),
            },
    {
        if !ends_with_any(attachment.filename.as_str(), suffixes) {
            let extension = text_after_last(attachment.filename.as_str(), '.');
            return Err(ResolutionError::UnsupportedFormat(Unsupported::Extension(extension)));
        }
        if attachment.size > self.max_size as u64 {
            return Err(
                ResolutionError::TooLarge {
                    measure: Measure::AttachmentSize,
                    actual: attachment.size,
                    limit: self.max_size as u64,
                },
            );
        }
        match (attachment.width, attachment.height) {
            (Some(width), Some(height)) => {
                if width > self.max_width as u64 {
                    Err(
                        ResolutionError::TooLarge {
                            measure: Measure::Width,
                            actual: width,
                            limit: self.max_width as u64,
                        },
                    )
                } else if height > self.max_height as u64 {
                    Err(
                        ResolutionError::TooLarge {
                            measure: Measure::Height,
                            actual: height,
                            limit: self.max_height as u64,
                        },
                    )
                } else {
                    Ok(())
                }
            },
            _ => Err(ResolutionError::InvalidMedia),
        }
    }

    /// Hands bytes out as the result, unless they exceed the size ceiling.
    pub fn deliver(&self, bytes: Vec<u8>) -> (r: Result<Vec<u8>, ResolutionError>)
        ensures
            match r {
                Ok(out) => delivered(*self, bytes@) == Ok::<Seq<u8>, ResolutionErrorView>(out@),
                Err(e) => delivered(*self, bytes@) == Err::<Seq<u8>, ResolutionErrorView>(e@),
            },
    {
        if bytes.len() > self.max_size {
            Err(
                ResolutionError::TooLarge {
                    measure: Measure::FileSize,
                    actual: bytes.len() as u64,
                    limit: self.max_size as u64,
                },
            )
        } else {
            Ok(bytes)
        }
    }

    /// Checks status and headers of the response to a media request, before any of its
    /// body is read.
    pub fn check_head(&self, head: &ResponseHead, types: &Vec<&str>) -> (r: Result<
        (),
        ResolutionError,
    >)
        ensures
            match r {
                Ok(_) => head_fault(*self, head@, types.deep_view()) is None,
                Err(e) => head_fault(*self, head@, types.deep_view()) == Some(e@),
            },
    {
        if head.status < 200 || head.status >= 300 {
            return Err(ResolutionError::UpstreamError { status: head.status });
        }
        match &head.content_type {
            None => {
                return Err(ResolutionError::UnsupportedFormat(Unsupported::MissingContentType));
            },
            Some(content_type) => {
                if !is_listed(types, content_type.as_str()) {
                    return Err(
                        ResolutionError::UnsupportedFormat(
                            Unsupported::ContentType(content_type.clone()),
                        ),
                    );
                }
            },
        }
        match &head.content_length {
            None => Ok(()),
            Some(value) => {
                let declared: u64 = match parse_u64(value.as_str()) {
                    Some(n) => n,
                    None => 0,
                };
                if declared > self.max_size as u64 {
                    Err(
                        ResolutionError::TooLarge {
                            measure: Measure::FileSize,
                            actual: declared,
                            limit: self.max_size as u64,
                        },
                    )
                } else {
                    Ok(())
                }
            },
        }
    }

    /// Takes the first step for a candidate: checks what can be checked without its
    /// bytes, then asks for them, or ends the resolution.
    pub fn sanitize(&self, candidate: RawResult, suffixes: &Vec<&str>) -> (r: Step)
        ensures
            r@ == sanitized(*self, candidate@, suffixes.deep_view()),
    {
        match candidate {
            RawResult::Attachment(attachment) => match self.check_attachment(attachment, suffixes) {
                Err(fault) => Step::Done(Err(fault)),
                Ok(_) => Step::Wait(Pending::Download { attachment: attachment.id }),
            },
            RawResult::Bytes(bytes) => Step::Done(self.deliver(bytes)),
            RawResult::Url(url) => {
                let url = strip_brackets(url.as_str());
                let share_page = indirect_host(url.as_str());
                Step::Wait(Pending::Response { url, share_page })
            },
        }
    }
}

} // verus!
