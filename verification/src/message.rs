//! The unit of content that moves between the two networks.

use vstd::prelude::*;
use crate::metadata::copy_text;
use crate::metadata::text_view;

verus! {

/// How the sender of a private message is shown in the chat channel.
#[derive(Debug, PartialEq, Eq)]
pub struct NostrMessageMetadata {
    pub username: String,
    pub pubkey: String,
    pub avatar_url: Option<String>,
}

/// The mathematical content of a [`NostrMessageMetadata`].
pub struct SenderView {
    pub username: Seq<char>,
    pub pubkey: Seq<char>,
    pub avatar_url: Option<Seq<char>>,
}

impl View for NostrMessageMetadata {
    type V = SenderView;

    open spec fn view(&self) -> SenderView {
        SenderView {
            username: self.username@,
            pubkey: self.pubkey@,
            avatar_url: text_view(self.avatar_url),
        }
    }
}

impl Clone for NostrMessageMetadata {
    fn clone(&self) -> (r: NostrMessageMetadata)
        ensures
            r == *self,
    {
        NostrMessageMetadata {
            username: self.username.clone(),
            pubkey: self.pubkey.clone(),
            avatar_url: copy_text(&self.avatar_url),
        }
    }
}

/// One image of a chat message: its bytes and a file extension such as `png`.
#[derive(Debug, PartialEq, Eq)]
pub struct ImageAttachment {
    pub bytes: Vec<u8>,
    pub extension: String,
}

/// The mathematical content of an [`ImageAttachment`].
pub struct ImageView {
    pub bytes: Seq<u8>,
    pub extension: Seq<char>,
}

impl View for ImageAttachment {
    type V = ImageView;

    open spec fn view(&self) -> ImageView {
        ImageView { bytes: self.bytes@, extension: self.extension@ }
    }
}

impl Clone for ImageAttachment {
    fn clone(&self) -> (r: ImageAttachment)
        ensures
            r@ == self@,
    {
        ImageAttachment { bytes: self.bytes.clone(), extension: self.extension.clone() }
    }
}

/// The view of an optional image.
pub open spec fn image_view(o: Option<ImageAttachment>) -> Option<ImageView> {
    match o {
        Some(image) => Some(image@),
        None => None,
    }
}

/// A copy of an optional image.
pub fn copy_image(o: &Option<ImageAttachment>) -> (r: Option<ImageAttachment>)
    ensures
        image_view(r) == image_view(*o),
{
    match o {
        Some(image) => Some(image.clone()),
        None => None,
    }
}

/// A message on its way from one network to the other.
#[derive(Debug, PartialEq, Eq)]
pub enum BridgeMessage {
    /// From the chat channel, for the subscribers.
    Discord {
        author: String,
        content: String,
        /// The first image attached to the chat message, if it has one.
        image: Option<ImageAttachment>,
    },
    /// From a subscriber, for the chat channel.
    Nostr { content: String, metadata: NostrMessageMetadata },
}

/// The mathematical content of a [`BridgeMessage`].
pub enum MessageView {
    Discord { author: Seq<char>, content: Seq<char>, image: Option<ImageView> },
    Nostr { content: Seq<char>, metadata: SenderView },
}

impl View for BridgeMessage {
    type V = MessageView;

    open spec fn view(&self) -> MessageView {
        match *self {
            BridgeMessage::Discord { author, content, image } => MessageView::Discord {
                author: author@,
                content: content@,
                image: image_view(image),
            },
            BridgeMessage::Nostr { content, metadata } => MessageView::Nostr {
                content: content@,
                metadata: metadata@,
            },
        }
    }
}

impl Clone for BridgeMessage {
    fn clone(&self) -> (r: BridgeMessage)
        ensures
            r@ == self@,
    {
        match self {
            BridgeMessage::Discord { author, content, image } => BridgeMessage::Discord {
                author: author.clone(),
                content: content.clone(),
                image: copy_image(image),
            },
            BridgeMessage::Nostr { content, metadata } => BridgeMessage::Nostr {
                content: content.clone(),
                metadata: metadata.clone(),
            },
        }
    }
}

} // verus!
