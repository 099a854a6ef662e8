//! Reading the direct media URL out of a share page.
//!
//! Each indirect host marks the media URL in its page in its own way. Where a page does
//! not hold the marker, nothing is guessed: the extraction fails.

use vstd::prelude::*;
use crate::config::ImageResolver;
use crate::error::{ResolutionError, ResolutionErrorView};
use crate::step::Host;
use crate::text::{chars_of, find, find_from, length_up_to, replace, replace_all, slice, up_to};

verus! {

/// The double quote that closes a value in both hosts' pages.
pub open spec fn quote() -> Seq<char> {
    seq!['"']
}

/// The media URL in a Tenor page: the quoted value that follows the first `contentUrl`
/// marker and its two separator characters, read up to the closing quote, with every
/// escaped slash unescaped. The value must open before the next `content` marker.
pub open spec fn tenor_media_url(page: Seq<char>) -> Option<Seq<char>> {
    let marker = "contentUrl"@;
    match find_from(page, marker, 0) {
        None => None,
        Some(at) => {
            let field = up_to(page.skip(at + marker.len()), "content"@);
            if field.len() < 2 {
                None
            } else {
                let value = field.skip(2);
                match find_from(value, quote(), 0) {
                    None => None,
                    Some(open) => Some(
                        replace_all(up_to(value.skip(open + 1), quote()), "\\u002F"@, "/"@),
                    ),
                }
            }
        },
    }
}

/// The media URL in a Giphy page: the second `https://media` in the page with what
/// follows it, up to the next such marker or the closing quote, whichever comes first.
pub open spec fn giphy_media_url(page: Seq<char>) -> Option<Seq<char>> {
    let marker = "https://media"@;
    match find_from(page, marker, 0) {
        None => None,
        Some(first) => match find_from(page, marker, first + marker.len()) {
            None => None,
            Some(second) => Some(
                marker + up_to(up_to(page.skip(second + marker.len()), marker), quote()),
            ),
        },
    }
}

/// The media URL in a share page of `host`.
pub open spec fn media_url(host: Host, page: Seq<char>) -> Option<Seq<char>> {
    match host {
        Host::Tenor => tenor_media_url(page),
        Host::Giphy => giphy_media_url(page),
    }
}

/// The outcome of unfurling a share page of `host`.
pub open spec fn unfurled(host: Host, page: Seq<char>) -> Result<Seq<char>, ResolutionErrorView> {
    match media_url(host, page) {
        Some(url) => Ok(url),
        None => Err(ResolutionErrorView::ParseError),
    }
}

impl ImageResolver {
    /// Reads the media URL out of a Tenor page.
    pub fn scrape_tenor(page: &str) -> (r: Option<String>)
        ensures
            r.deep_view() == tenor_media_url(page@),
    {
        let hay = chars_of(page);
        let marker = chars_of("contentUrl");
        let stop = chars_of("content");
        let mark: Vec<char> = vec!['"'];
        assert(mark@ =~= quote());
        match find(&hay, &marker, 0) {
            None => None,
            Some(at) => {
                let after: usize = at + marker.len();
                let rest = slice(&hay, after, hay.len());
                let field_len = length_up_to(&rest, &stop);
                if field_len < 2 {
                    return None;
                }
                let value = slice(&rest, 2, field_len);
                assert(value@ =~= up_to(rest@, stop@).skip(2));
                match find(&value, &mark, 0) {
                    None => None,
                    Some(open) => {
                        let tail = slice(&value, open + 1, value.len());
                        let end = length_up_to(&tail, &mark);
                        let base: usize = after + 2 + open + 1;
                        assert(page@.subrange(base as int, base + end) =~= tail@.take(end as int));
                        let raw = page.substring_char(base, base + end);
                        Some(replace(raw, "\\u002F", "/"))
                    },
                }
            },
        }
    }

    /// Reads the media URL out of a Giphy page.
    pub fn scrape_giphy(page: &str) -> (r: Option<String>)
        ensures
            r.deep_view() == giphy_media_url(page@),
    {
        let hay = chars_of(page);
        let marker = chars_of("https://media");
        let mark: Vec<char> = vec!['"'];
        assert(mark@ =~= quote());
        match find(&hay, &marker, 0) {
            None => None,
            Some(first) => match find(&hay, &marker, first + marker.len()) {
                None => None,
                Some(second) => {
                    let base: usize = second + marker.len();
                    let rest = slice(&hay, base, hay.len());
                    let piece_len = length_up_to(&rest, &marker);
                    let piece = slice(&rest, 0, piece_len);
                    let end = length_up_to(&piece, &mark);
                    assert(page@.subrange(base as int, base + end) =~= piece@.take(end as int));
                    let mut url = "https://media".to_owned();
                    url.append(page.substring_char(base, base + end));
                    Some(url)
                },
            },
        }
    }

    /// Reads the direct media URL out of a share page of `host`, and fails with
    /// `ParseError` where the page does not hold the host's marker.
    pub fn unfurl(host: Host, page: &str) -> (r: Result<String, ResolutionError>)
        ensures
            match r {
                Ok(url) => unfurled(host, page@) == Ok::<Seq<char>, ResolutionErrorView>(url@),
                Err(e) => unfurled(host, page@) == Err::<Seq<char>, ResolutionErrorView>(e@),
            },
    {
        let found = match host {
            Host::Tenor => Self::scrape_tenor(page),
            Host::Giphy => Self::scrape_giphy(page),
        };
        match found {
            Some(url) => Ok(url),
            None => Err(ResolutionError::ParseError),
        }
    }
}

} // verus!
