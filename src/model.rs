//! Source records received from the event platform and the outbound message
//! sent to the destination webhook.
use vstd::prelude::*;

verus! {

/// An instant, as seconds since the Unix epoch and a sub-second part in
/// nanoseconds.
#[derive(Clone, Copy, Debug, PartialEq, Eq, Structural)]
pub struct Timestamp {
    pub seconds: i64,
    pub nanos: u32,
}

/// A user of the source platform. `host` is absent for a user local to the
/// origin server and names the remote server otherwise.
#[derive(Debug)]
pub struct SourceUser {
    pub display_name: Option<String>,
    pub handle: String,
    pub host: Option<String>,
    pub avatar_url: String,
}

/// A file attached to a note.
#[derive(Debug)]
pub struct SourceAttachment {
    pub url: String,
    pub media_type: String,
}

/// A note, with its author and its attachments in their original order.
#[derive(Debug)]
pub struct SourceNote {
    pub id: String,
    pub created_at: Timestamp,
    pub text: Option<String>,
    pub author: SourceUser,
    pub attachments: Vec<SourceAttachment>,
}

/// An abuse report; either user may be unknown.
#[derive(Debug)]
pub struct SourceAbuseReport {
    pub target_user: Option<SourceUser>,
    pub reporter: Option<SourceUser>,
    pub comment: String,
}

/// The author block of an embed.
#[derive(Debug)]
pub struct EmbedAuthor {
    pub name: String,
    pub url: String,
    pub icon_url: String,
}

/// The image of an embed.
#[derive(Debug)]
pub struct EmbedImage {
    pub url: String,
}

/// A rich message attachment.
#[derive(Debug)]
pub struct Embed {
    pub title: String,
    pub description: String,
    pub url: String,
    pub timestamp: Timestamp,
    pub author: EmbedAuthor,
    pub image: Option<EmbedImage>,
}

/// A message for the destination webhook: embeds or plain content. Mentions
/// are always suppressed when it is sent.
#[derive(Debug)]
pub struct OutboundMessage {
    pub embeds: Vec<Embed>,
    pub content: Option<String>,
}

/// The mathematical form of an `Embed`.
pub struct EmbedView {
    pub title: Seq<char>,
    pub description: Seq<char>,
    pub url: Seq<char>,
    pub timestamp: Timestamp,
    pub author_name: Seq<char>,
    pub author_url: Seq<char>,
    pub author_icon_url: Seq<char>,
    pub image_url: Option<Seq<char>>,
}

impl View for Embed {
    type V = EmbedView;

    open spec fn view(&self) -> EmbedView {
        EmbedView {
            title: self.title@,
            description: self.description@,
            url: self.url@,
            timestamp: self.timestamp,
            author_name: self.author.name@,
            author_url: self.author.url@,
            author_icon_url: self.author.icon_url@,
            image_url: match self.image {
                Some(i) => Some(i.url@),
                None => None,
            },
        }
    }
}

/// The mathematical form of an `OutboundMessage`.
pub struct OutboundView {
    pub embeds: Seq<EmbedView>,
    pub content: Option<Seq<char>>,
}

impl View for OutboundMessage {
    type V = OutboundView;

    open spec fn view(&self) -> OutboundView {
        OutboundView {
            embeds: self.embeds@.map_values(|e: Embed| e@),
            content: match self.content {
                Some(c) => Some(c@),
                None => None,
            },
        }
    }
}

/// How a user is referred to: `@handle`, or `@handle@host` for a remote user.
pub open spec fn user_mention(u: SourceUser) -> Seq<char> {
    match u.host {
        None => "@"@ + u.handle@,
        Some(h) => "@"@ + u.handle@ + "@"@ + h@,
    }
}

} // verus!
