//! The decisions on the side of the chat channel: which chat events are
//! relayed, and how a relayed message is shown in the channel.

use vstd::prelude::*;
use crate::message::image_view;
use crate::message::BridgeMessage;
use crate::message::ImageAttachment;
use crate::message::ImageView;
use crate::message::MessageView;

verus! {

/// Red part of the colour of a relayed message in the channel.
pub const EMBED_RED: u8 = 89;

/// Green part of the colour of a relayed message in the channel.
pub const EMBED_GREEN: u8 = 252;

/// Blue part of the colour of a relayed message in the channel.
pub const EMBED_BLUE: u8 = 179;

/// The kind of a message in a chat channel, as far as the relay tells kinds
/// apart.
#[derive(Clone, Copy, Debug, PartialEq, Eq, Structural)]
pub enum ChatMessageKind {
    /// An ordinary message.
    Regular,
    /// An ordinary message that replies to another.
    InlineReply,
    /// Anything else: a notice of the platform itself.
    Other,
}

/// A message that appeared in some chat channel.
#[derive(Debug, PartialEq, Eq)]
pub struct ChatEvent {
    pub channel_id: u64,
    pub author_name: String,
    pub author_is_bot: bool,
    pub kind: ChatMessageKind,
    pub content: String,
    /// The first image attached to the message, if it has one.
    pub image: Option<ImageAttachment>,
}

/// The mathematical content of a [`ChatEvent`].
pub struct ChatEventView {
    pub channel_id: u64,
    pub author_name: Seq<char>,
    pub author_is_bot: bool,
    pub kind: ChatMessageKind,
    pub content: Seq<char>,
    pub image: Option<ImageView>,
}

impl View for ChatEvent {
    type V = ChatEventView;

    open spec fn view(&self) -> ChatEventView {
        ChatEventView {
            channel_id: self.channel_id,
            author_name: self.author_name@,
            author_is_bot: self.author_is_bot,
            kind: self.kind,
            content: self.content@,
            image: image_view(self.image),
        }
    }
}

/// The message that a chat event becomes for the channel `channel_id`, if it
/// is relayed: an event of another channel, of an automated account or of a
/// kind that is no ordinary message is not.
pub open spec fn accepted(channel_id: u64, event: ChatEventView) -> Option<MessageView> {
    if event.channel_id != channel_id {
        None
    } else if event.author_is_bot {
        None
    } else if event.kind != ChatMessageKind::Regular && event.kind != ChatMessageKind::InlineReply {
        None
    } else {
        Some(
            MessageView::Discord {
                author: event.author_name,
                content: event.content,
                image: event.image,
            },
        )
    }
}

/// The filter on the events of the chat platform, for one channel.
#[derive(Clone, Copy, Debug, PartialEq, Eq)]
pub struct Handler {
    channel_id: u64,
}

impl Handler {
    /// The channel whose messages are relayed.
    pub closed spec fn channel(&self) -> u64 {
        self.channel_id
    }

    /// The filter for the channel `channel_id`.
    pub fn new(channel_id: u64) -> (r: Handler)
        ensures
            r.channel() == channel_id,
    {
        Handler { channel_id }
    }

    /// The channel whose messages are relayed.
    pub fn channel_id(&self) -> (r: u64)
        ensures
            r == self.channel(),
    {
        self.channel_id
    }

    /// Decides on one chat event: the message to hand to the relay, or
    /// `None` when the event is passed over.
    pub fn message(&self, event: ChatEvent) -> (r: Option<BridgeMessage>)
        ensures
            match r {
                Some(m) => accepted(self.channel(), event@) == Some(m@),
                None => accepted(self.channel(), event@) is None,
            },
    {
        if event.channel_id != self.channel_id {
            return None;
        }
        if event.author_is_bot {
            return None;
        }
        match event.kind {
            ChatMessageKind::Regular => {},
            ChatMessageKind::InlineReply => {},
            ChatMessageKind::Other => {
                return None;
            },
        }
        Some(
            BridgeMessage::Discord {
                author: event.author_name,
                content: event.content,
                image: event.image,
            },
        )
    }
}

/// The name and picture shown above a relayed message.
#[derive(Debug, PartialEq, Eq)]
pub struct EmbedAuthor {
    pub name: String,
    pub icon_url: String,
}

/// What is posted in the chat channel for one message.
#[derive(Debug, PartialEq, Eq)]
pub enum ChatPost {
    /// A framed message: the text, the sender's key below it, a colour, and
    /// above it the sender's name and picture where a picture is known.
    Embed {
        description: String,
        footer: String,
        red: u8,
        green: u8,
        blue: u8,
        author: Option<EmbedAuthor>,
    },
    /// A plain line of text.
    Text { content: String },
}

/// The mathematical content of a [`ChatPost`].
pub enum ChatPostView {
    Embed {
        description: Seq<char>,
        footer: Seq<char>,
        red: u8,
        green: u8,
        blue: u8,
        author: Option<(Seq<char>, Seq<char>)>,
    },
    Text { content: Seq<char> },
}

impl View for ChatPost {
    type V = ChatPostView;

    open spec fn view(&self) -> ChatPostView {
        match *self {
            ChatPost::Embed { description, footer, red, green, blue, author } => ChatPostView::Embed {
                description: description@,
                footer: footer@,
                red,
                green,
                blue,
                author: match author {
                    Some(a) => Some((a.name@, a.icon_url@)),
                    None => None,
                },
            },
            ChatPost::Text { content } => ChatPostView::Text { content: content@ },
        }
    }
}

/// How a message is shown in the chat channel. A message of a subscriber is
/// framed: its text, the sender's key as the footer, the relay's colour, and
/// the sender's name with the picture, if the sender has one. A message that
/// came from the channel itself is a plain line that names its author.
pub open spec fn post_of(message: MessageView) -> ChatPostView {
    match message {
        MessageView::Nostr { content, metadata } => ChatPostView::Embed {
            description: content,
            footer: metadata.pubkey,
            red: EMBED_RED,
            green: EMBED_GREEN,
            blue: EMBED_BLUE,
            author: match metadata.avatar_url {
                Some(url) => Some((metadata.username, url)),
                None => None,
            },
        },
        MessageView::Discord { author, content, image } => ChatPostView::Text {
            content: "[Discord] "@ + author + ": "@ + content,
        },
    }
}

/// Lays out a message for the chat channel.
pub fn render_post(message: &BridgeMessage) -> (r: ChatPost)
    ensures
        r@ == post_of(message@),
{
    match message {
        BridgeMessage::Nostr { content, metadata } => ChatPost::Embed {
            description: content.clone(),
            footer: metadata.pubkey.clone(),
            red: EMBED_RED,
            green: EMBED_GREEN,
            blue: EMBED_BLUE,
            author: match &metadata.avatar_url {
                Some(url) => Some(
                    EmbedAuthor { name: metadata.username.clone(), icon_url: url.clone() },
                ),
                None => None,
            },
        },
        BridgeMessage::Discord { author, content, image } => {
            let mut line = String::from_str("[Discord] ");
            line.append(author.as_str());
            line.append(": ");
            line.append(content.as_str());
            ChatPost::Text { content: line }
        },
    }
}

} // verus!
