//! The fixed order in which a message is searched for an image.
//!
//! The first source that exists is the candidate, whether or not it will pass the
//! policy: the message's own attachment, then what the replied-to message offers, then
//! the sender's profile picture.

use vstd::prelude::*;
use crate::candidate::{RawResult, RawResultView};
use crate::config::ImageResolver;
use crate::message::{EmbedInfo, EmbedView, MessageInfo, MessageView, ReplyInfo, ReplyView};
use crate::pattern::{find_url, first_url};
use crate::text::{decimal, decimal_text, has_prefix, same_text, starts_with};

verus! {

/// The image URL that an embed offers: the thumbnail of an `image` embed; the full image
/// of a `rich` embed, or else its thumbnail; nothing of any other kind.
pub open spec fn embed_image(embed: EmbedView) -> Option<Seq<char>> {
    if embed.kind == "image"@ {
        embed.thumbnail
    } else if embed.kind == "rich"@ {
        if embed.image is Some {
            embed.image
        } else {
            embed.thumbnail
        }
    } else {
        None
    }
}

/// What the replied-to message offers: its first attachment, else the image of its first
/// embed, else the first URL in its text.
pub open spec fn reply_candidate(reply: ReplyView) -> Option<RawResultView> {
    if reply.attachments.len() > 0 {
        Some(RawResultView::Attachment(reply.attachments[0]))
    } else if reply.embeds.len() > 0 && embed_image(reply.embeds[0]) is Some {
        Some(RawResultView::Url(embed_image(reply.embeds[0])->0))
    } else {
        match first_url(reply.content) {
            Some(url) => Some(RawResultView::Url(url)),
            None => None,
        }
    }
}

/// The URL of a profile picture, 512 pixels wide: a GIF where the hash marks the picture
/// as animated and animated images are allowed, a PNG otherwise.
pub open spec fn avatar_url(allow_gifs: bool, user_id: u64, hash: Seq<char>) -> Seq<char> {
    "https://cdn.discordapp.com/avatars/"@ + decimal(user_id as nat) + "/"@ + hash + "."@ + (
    if allow_gifs && starts_with(hash, "a_"@) {
        "gif"@
    } else {
        "png"@
    }) + "?size=512"@
}

/// The sender's profile picture, where the policy lets it stand in and one is set.
pub open spec fn avatar_candidate(config: ImageResolver, message: MessageView) -> Option<
    RawResultView,
> {
    if config.allow_user_avatars && config.fallback_to_user_avatar && message.author_avatar
        is Some {
        Some(
            RawResultView::Url(
                avatar_url(config.allow_gifs, message.author_id, message.author_avatar->0),
            ),
        )
    } else {
        None
    }
}

/// The candidate of a message: the first source that exists, in the fixed order.
pub open spec fn candidate(config: ImageResolver, message: MessageView) -> Option<RawResultView> {
    if message.attachments.len() > 0 {
        Some(RawResultView::Attachment(message.attachments[0]))
    } else if message.reply is Some && reply_candidate(message.reply->0) is Some {
        reply_candidate(message.reply->0)
    } else {
        avatar_candidate(config, message)
    }
}

/// A message with an attachment of its own has that attachment as its candidate,
/// whatever it replies to, whoever sent it and whatever the policy is.
pub proof fn own_attachment_comes_first(
    config: ImageResolver,
    other_config: ImageResolver,
    message: MessageView,
    other: MessageView,
)
    requires
        message.attachments.len() > 0,
        other.attachments == message.attachments,
    ensures
        candidate(config, message) == Some(RawResultView::Attachment(message.attachments[0])),
        candidate(other_config, other) == candidate(config, message),
{
}

/// Where the message has no attachment of its own, what the replied-to message offers
/// is the candidate, whatever the policy says of profile pictures.
pub proof fn reply_comes_before_avatar(config: ImageResolver, message: MessageView)
    requires
        message.attachments.len() == 0,
        message.reply is Some,
        reply_candidate(message.reply->0) is Some,
    ensures
        candidate(config, message) == reply_candidate(message.reply->0),
{
}

/// The image URL that an embed offers.
pub fn image_of_embed(embed: &EmbedInfo) -> (r: Option<String>)
    ensures
        r.deep_view() == embed_image(embed@),
{
    if same_text(embed.kind.as_str(), "image") {
        embed.thumbnail.clone()
    } else if same_text(embed.kind.as_str(), "rich") {
        match &embed.image {
            Some(url) => Some(url.clone()),
            None => embed.thumbnail.clone(),
        }
    } else {
        None
    }
}

/// The URL of the profile picture with the given hash.
pub fn avatar_url_of(allow_gifs: bool, user_id: u64, hash: &str) -> (r: String)
    ensures
        r@ == avatar_url(allow_gifs, user_id, hash@),
{
    let mut url = "https://cdn.discordapp.com/avatars/".to_owned();
    let id = decimal_text(user_id);
    url.append(id.as_str());
    url.append("/");
    url.append(hash);
    url.append(".");
    url.append(if allow_gifs && has_prefix(hash, "a_") { "gif" } else { "png" });
    url.append("?size=512");
    url
}

/// What the replied-to message offers.
pub fn candidate_of_reply<'a>(reply: &'a ReplyInfo) -> (r: Option<RawResult<'a>>)
    ensures
        match r {
            Some(found) => reply_candidate(reply@) == Some(found@),
            None => reply_candidate(reply@) is None,
        },
{
    if reply.attachments.len() > 0 {
        return Some(RawResult::Attachment(&reply.attachments[0]));
    }
    if reply.embeds.len() > 0 {
        match image_of_embed(&reply.embeds[0]) {
            Some(url) => {
                return Some(RawResult::Url(url));
            },
            None => {},
        }
    }
    match find_url(reply.content.as_str()) {
        Some(url) => Some(RawResult::Url(url)),
        None => None,
    }
}

impl ImageResolver {
    /// The candidate of a message: the first source that exists, in the fixed order.
    pub fn candidate<'a>(&self, message: &'a MessageInfo) -> (r: Option<RawResult<'a>>)
        ensures
            match r {
                Some(found) => candidate(*self, message@) == Some(found@),
                None => candidate(*self, message@) is None,
            },
    {
        if message.attachments.len() > 0 {
            return Some(RawResult::Attachment(&message.attachments[0]));
        }
        match &message.reply {
            Some(reply) => match candidate_of_reply(reply) {
                Some(found) => {
                    return Some(found);
                },
                None => {},
            },
            None => {},
        }
        if self.allow_user_avatars && self.fallback_to_user_avatar {
            match &message.author_avatar {
                Some(hash) => Some(
                    RawResult::Url(avatar_url_of(self.allow_gifs, message.author_id, hash.as_str())),
                ),
                None => None,
            }
        } else {
            None
        }
    }
}

} // verus!
