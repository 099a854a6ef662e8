//! What a resolution reads of a chat message, as plain values.

use vstd::prelude::*;

verus! {

/// A file attached to a message, as the platform describes it before any download.
#[derive(Debug, Clone, PartialEq, Eq)]
pub struct AttachmentInfo {
    /// The platform's identifier of the attachment.
    pub id: u64,
    pub filename: String,
    /// Declared size in bytes.
    pub size: u64,
    /// Width in pixels, where the platform knows the file to be an image.
    pub width: Option<u64>,
    /// Height in pixels, where the platform knows the file to be an image.
    pub height: Option<u64>,
}

/// A rich embed of a message.
#[derive(Debug, Clone, PartialEq, Eq)]
pub struct EmbedInfo {
    /// The embed's kind tag, such as `image` or `rich`.
    pub kind: String,
    /// URL of the thumbnail.
    pub thumbnail: Option<String>,
    /// URL of the full image.
    pub image: Option<String>,
}

/// The message that another one replies to.
#[derive(Debug, Clone, PartialEq, Eq)]
pub struct ReplyInfo {
    pub attachments: Vec<AttachmentInfo>,
    pub embeds: Vec<EmbedInfo>,
    /// The text of the message.
    pub content: String,
}

/// The message that asks for an image.
#[derive(Debug, Clone, PartialEq, Eq)]
pub struct MessageInfo {
    pub attachments: Vec<AttachmentInfo>,
    /// The message replied to, if this one is a reply.
    pub reply: Option<ReplyInfo>,
    /// Identifier of the sender.
    pub author_id: u64,
    /// Hash of the sender's profile picture, if one is set.
    pub author_avatar: Option<String>,
}

/// A member of the guild that a query named.
#[derive(Debug, Clone, Copy, PartialEq, Eq)]
pub struct MemberInfo {
    pub user_id: u64,
}

/// A custom emoji that a query named.
#[derive(Debug, Clone, Copy, PartialEq, Eq)]
pub struct EmojiInfo {
    pub id: u64,
    pub animated: bool,
}

/// `AttachmentInfo` with its file name as a character sequence.
pub struct AttachmentView {
    pub id: u64,
    pub filename: Seq<char>,
    pub size: u64,
    pub width: Option<u64>,
    pub height: Option<u64>,
}

/// `EmbedInfo` with its texts as character sequences.
pub struct EmbedView {
    pub kind: Seq<char>,
    pub thumbnail: Option<Seq<char>>,
    pub image: Option<Seq<char>>,
}

/// `ReplyInfo` as sequences.
pub struct ReplyView {
    pub attachments: Seq<AttachmentView>,
    pub embeds: Seq<EmbedView>,
    pub content: Seq<char>,
}

/// `MessageInfo` as sequences.
pub struct MessageView {
    pub attachments: Seq<AttachmentView>,
    pub reply: Option<ReplyView>,
    pub author_id: u64,
    pub author_avatar: Option<Seq<char>>,
}

impl View for AttachmentInfo {
    type V = AttachmentView;

    open spec fn view(&self) -> AttachmentView {
        AttachmentView {
            id: self.id,
            filename: self.filename@,
            size: self.size,
            width: self.width,
            height: self.height,
        }
    }
}

impl View for EmbedInfo {
    type V = EmbedView;

    open spec fn view(&self) -> EmbedView {
        EmbedView {
            kind: self.kind@,
            thumbnail: self.thumbnail.deep_view(),
            image: self.image.deep_view(),
        }
    }
}

impl View for ReplyInfo {
    type V = ReplyView;

    open spec fn view(&self) -> ReplyView {
        ReplyView {
            attachments: self.attachments@.map_values(|a: AttachmentInfo| a@),
            embeds: self.embeds@.map_values(|e: EmbedInfo| e@),
            content: self.content@,
        }
    }
}

impl View for MessageInfo {
    type V = MessageView;

    open spec fn view(&self) -> MessageView {
        MessageView {
            attachments: self.attachments@.map_values(|a: AttachmentInfo| a@),
            reply: match self.reply {
                Some(r) => Some(r@),
                None => None,
            },
            author_id: self.author_id,
            author_avatar: self.author_avatar.deep_view(),
        }
    }
}

} // verus!
