//! Regular-expression searches, delegated to the `regex` crate, and what the
//! resolution reads from their results.

use vstd::prelude::*;
use crate::config::ImageResolver;
use crate::step::Host;
use crate::text::same_text;

verus! {

/// Any `http` or `https` URL, up to the next white space.
pub const URL_REGEX: &'static str = "https?://\\S+";

/// A share page of Tenor.
pub const TENOR_REGEX: &'static str = "https?://(www\\.)?tenor\\.com/view/\\S+/";

/// A share page of Giphy.
pub const GIPHY_REGEX: &'static str = "https?://(www\\.)?giphy\\.com/gifs/[A-Za-z0-9]+/?";

/// A custom emoji as chat text writes it: an optional `a` for animated, a name and an
/// identifier.
pub const EMOJI_REGEX: &'static str = "<(a)?:([a-zA-Z0-9_]{2,32}):([0-9]{17,25})>";

/// Whether the expression that `regex::Regex::new` compiles from `pattern` matches
/// anywhere in `haystack`; `None` where `pattern` is not accepted.
pub uninterp spec fn regex_is_match(pattern: Seq<char>, haystack: Seq<char>) -> Option<bool>;

/// The capture groups of the leftmost match of `pattern` in `haystack`, as
/// `regex::Regex::captures` reports them: group 0 is the whole match, and a group that
/// took no part in the match is `None`. The outer `None` stands for a pattern that
/// `regex::Regex::new` does not accept, the inner one for a haystack without a match.
pub uninterp spec fn regex_captures(pattern: Seq<char>, haystack: Seq<char>) -> Option<
    Option<Seq<Option<Seq<char>>>>,
>;

/// Compiles `pattern` with `regex::Regex::new` and asks `Regex::is_match` whether it
/// matches anywhere in `haystack`. A pattern that does not compile gives `None`. The
/// contract only names the answer; it claims nothing about which texts match.
#[verifier::external_body]
pub(crate) fn is_match(pattern: &str, haystack: &str) -> (r: Option<bool>)
    ensures
        r == regex_is_match(pattern@, haystack@),
{
    match regex::Regex::new(pattern) {
        Ok(re) => Some(re.is_match(haystack)),
        Err(_) => None,
    }
}

/// Compiles `pattern` with `regex::Regex::new`, runs `Regex::captures` on `haystack` and
/// copies out the text of every group of the match, in the order of `Captures::iter`.
/// A pattern that does not compile gives `None`. The contract only names the answer.
#[verifier::external_body]
pub(crate) fn captures(pattern: &str, haystack: &str) -> (r: Option<Option<Vec<Option<String>>>>)
    ensures
        r.deep_view() == regex_captures(pattern@, haystack@),
{
    match regex::Regex::new(pattern) {
        Ok(re) => Some(
            re.captures(haystack).map(
                |c| c.iter().map(|g| g.map(|m| m.as_str().to_string())).collect(),
            ),
        ),
        Err(_) => None,
    }
}

/// The host that two match results point to: Tenor where its pattern matched, else
/// Giphy where that one did.
pub open spec fn host_of(tenor: Option<bool>, giphy: Option<bool>) -> Option<Host> {
    if tenor == Some(true) {
        Some(Host::Tenor)
    } else if giphy == Some(true) {
        Some(Host::Giphy)
    } else {
        None
    }
}

/// The indirect host whose share-page pattern `url` matches, if any.
pub open spec fn share_host(url: Seq<char>) -> Option<Host> {
    host_of(regex_is_match(TENOR_REGEX@, url), regex_is_match(GIPHY_REGEX@, url))
}

/// The host that two match results point to. A pattern that was not accepted counts as
/// one that did not match.
pub fn pick_host(tenor: Option<bool>, giphy: Option<bool>) -> (r: Option<Host>)
    ensures
        r == host_of(tenor, giphy),
{
    match tenor {
        Some(true) => Some(Host::Tenor),
        _ => match giphy {
            Some(true) => Some(Host::Giphy),
            _ => None,
        },
    }
}

/// The indirect host whose share-page pattern `url` matches, if any.
pub fn indirect_host(url: &str) -> (r: Option<Host>)
    ensures
        r == share_host(url@),
{
    let tenor = is_match(TENOR_REGEX, url);
    let giphy = is_match(GIPHY_REGEX, url);
    pick_host(tenor, giphy)
}

/// The text of the whole match in a capture result.
pub open spec fn whole_match(found: Option<Option<Seq<Option<Seq<char>>>>>) -> Option<
    Seq<char>,
> {
    match found {
        Some(Some(groups)) => if groups.len() > 0 {
            groups[0]
        } else {
            None
        },
        _ => None,
    }
}

/// The first URL in `text`.
pub open spec fn first_url(text: Seq<char>) -> Option<Seq<char>> {
    whole_match(regex_captures(URL_REGEX@, text))
}

/// The text of the whole match in a capture result.
pub fn whole_match_of(found: Option<Option<Vec<Option<String>>>>) -> (r: Option<String>)
    ensures
        r.deep_view() == whole_match(found.deep_view()),
{
    match found {
        Some(Some(mut groups)) => {
            if groups.len() > 0 {
                groups.swap_remove(0)
            } else {
                None
            }
        },
        _ => None,
    }
}

/// The first URL in `text`.
pub fn find_url(text: &str) -> (r: Option<String>)
    ensures
        r.deep_view() == first_url(text@),
{
    whole_match_of(captures(URL_REGEX, text))
}

/// The image URL of an emoji, from the capture result of the emoji pattern on `emoji`:
/// the platform's own image of a custom emoji, animated or not, and otherwise a
/// rendering of the text by an emoji service.
pub open spec fn emoji_url(emoji: Seq<char>, found: Option<Option<Seq<Option<Seq<char>>>>>) -> Seq<
    char,
> {
    match found {
        Some(Some(groups)) if groups.len() > 3 && groups[3] is Some => {
            "https://cdn.discordapp.com/emojis/"@ + groups[3]->0 + "."@ + (if groups[1] == Some(
                "a"@,
            ) {
                "gif"@
            } else {
                "png"@
            }) + "?v=1"@
        },
        _ => "https://emojicdn.elk.sh/"@ + emoji + "?style=twitter"@,
    }
}

/// The image URL of an emoji, from the capture result of the emoji pattern on `emoji`.
pub fn emoji_url_of(emoji: &str, found: &Option<Option<Vec<Option<String>>>>) -> (r: String)
    ensures
        r@ == emoji_url(emoji@, found.deep_view()),
{
    match found {
        Some(Some(groups)) => {
            if groups.len() > 3 {
                match &groups[3] {
                    Some(id) => {
                        let animated = match &groups[1] {
                            Some(flag) => same_text(flag.as_str(), "a"),
                            None => false,
                        };
                        let mut url = "https://cdn.discordapp.com/emojis/".to_owned();
                        url.append(id.as_str());
                        url.append(".");
                        url.append(if animated { "gif" } else { "png" });
                        url.append("?v=1");
                        return url;
                    },
                    None => {},
                }
            }
        },
        _ => {},
    }
    let mut url = "https://emojicdn.elk.sh/".to_owned();
    url.append(emoji);
    url.append("?style=twitter");
    url
}

impl ImageResolver {
    /// The image URL of the emoji that `emoji` writes.
    pub fn url_from_emoji(emoji: String) -> (r: String)
        ensures
            r@ == emoji_url(emoji@, regex_captures(EMOJI_REGEX@, emoji@)),
    {
        let found = captures(EMOJI_REGEX, emoji.as_str());
        emoji_url_of(emoji.as_str(), &found)
    }
}

} // verus!
