//! The decisions of the relay between the chat channel and private messages.
//!
//! Nothing here sends or receives. The caller hands in what arrived and
//! carries out what comes back: a reply to send, a profile to ask for, a
//! message to post, a list of private messages to send.

use vstd::prelude::*;
use nostr_sdk::prelude::Kind;
use crate::identity::npub_text;
use crate::identity::Identity;
use crate::message::BridgeMessage;
use crate::message::MessageView;
use crate::message::NostrMessageMetadata;
use crate::message::SenderView;
use crate::metadata::best_name;
use crate::metadata::copy_text;
use crate::metadata::fetched_profile;
use crate::metadata::found_view;
use crate::metadata::fresh_entry;
use crate::metadata::FetchPlan;
use crate::metadata::MetadataCache;
use crate::metadata::ProfileAttributes;
use crate::metadata::ProfileView;
use crate::metadata::UserMetadata;
use crate::subscribers::SubscriberList;
use crate::text::same_text;
use crate::text::trim;
use crate::text::trimmed;

verus! {

/// The kind number of a private direct message.
pub const DIRECT_MESSAGE_KIND: u16 = 14;

/// Asks `nostr_sdk` for the number of `Kind::PrivateDirectMessage`, with
/// `Kind::as_u16`. Trusted: the number is 14.
#[verifier::external_body]
fn direct_message_kind() -> (k: u16)
    ensures
        k == DIRECT_MESSAGE_KIND,
{
    Kind::PrivateDirectMessage.as_u16()
}

/// True when `kind` is the kind of a private direct message.
pub fn is_direct_message(kind: u16) -> (r: bool)
    ensures
        r == (kind == DIRECT_MESSAGE_KIND),
{
    kind == direct_message_kind()
}

/// A control command that a private message can hold.
#[derive(Clone, Copy, Debug, PartialEq, Eq, Structural)]
pub enum Command {
    Subscribe,
    Unsubscribe,
    Help,
}

/// The command that a trimmed message text is, if it is one. The match is
/// exact and case-sensitive.
pub open spec fn command_of(text: Seq<char>) -> Option<Command> {
    if text == "!subscribe"@ {
        Some(Command::Subscribe)
    } else if text == "!unsubscribe"@ {
        Some(Command::Unsubscribe)
    } else if text == "!help"@ {
        Some(Command::Help)
    } else {
        None
    }
}

/// Reads a trimmed message text as a command.
pub fn parse_command(text: &str) -> (r: Option<Command>)
    ensures
        r == command_of(text@),
{
    if same_text(text, "!subscribe") {
        Some(Command::Subscribe)
    } else if same_text(text, "!unsubscribe") {
        Some(Command::Unsubscribe)
    } else if same_text(text, "!help") {
        Some(Command::Help)
    } else {
        None
    }
}

/// A notice that the relay sends back to the sender of a private message.
#[derive(Clone, Copy, Debug, PartialEq, Eq, Structural)]
pub enum Reply {
    /// The sender is now subscribed.
    Subscribed,
    /// The sender asked to subscribe and was subscribed already.
    AlreadySubscribed,
    /// The sender is no longer subscribed.
    Unsubscribed,
    /// The sender asked to unsubscribe and was not subscribed.
    NotSubscribed,
    /// The list of commands.
    Help,
    /// The message was not relayed, because the sender is not subscribed.
    NotForwarded,
}

/// The text of a notice.
pub open spec fn reply_text(reply: Reply) -> Seq<char> {
    match reply {
        Reply::Subscribed =>
            "You are now subscribed to the Discord channel. You will receive all messages from the Discord channel. Send !unsubscribe to stop receiving messages."@,
        Reply::AlreadySubscribed => "You are already subscribed to the Discord channel."@,
        Reply::Unsubscribed =>
            "You have been unsubscribed from the Discord channel. You will no longer receive messages."@,
        Reply::NotSubscribed => "You are not currently subscribed to the Discord channel."@,
        Reply::Help =>
            "Available commands:\n!subscribe - Start receiving Discord messages\n!unsubscribe - Stop receiving Discord messages\n!help - Show this help message"@,
        Reply::NotForwarded =>
            "Your message was not forwarded to Discord because you're not subscribed. Send !subscribe to start forwarding your messages."@,
    }
}

impl Reply {
    /// The text of the notice.
    pub fn text(&self) -> (r: String)
        ensures
            r@ == reply_text(*self),
    {
        match self {
            Reply::Subscribed => String::from_str(
                "You are now subscribed to the Discord channel. You will receive all messages from the Discord channel. Send !unsubscribe to stop receiving messages.",
            ),
            Reply::AlreadySubscribed => String::from_str(
                "You are already subscribed to the Discord channel.",
            ),
            Reply::Unsubscribed => String::from_str(
                "You have been unsubscribed from the Discord channel. You will no longer receive messages.",
            ),
            Reply::NotSubscribed => String::from_str(
                "You are not currently subscribed to the Discord channel.",
            ),
            Reply::Help => String::from_str(
                "Available commands:\n!subscribe - Start receiving Discord messages\n!unsubscribe - Stop receiving Discord messages\n!help - Show this help message",
            ),
            Reply::NotForwarded => String::from_str(
                "Your message was not forwarded to Discord because you're not subscribed. Send !subscribe to start forwarding your messages.",
            ),
        }
    }
}

/// What a command of `sender` does to the registry `subscribers`, and the
/// notice that answers it.
pub open spec fn command_effect(subscribers: Set<Seq<u8>>, sender: Seq<u8>, command: Command) -> (
    Set<Seq<u8>>,
    Reply,
) {
    match command {
        Command::Subscribe => (
            subscribers.insert(sender),
            if subscribers.contains(sender) {
                Reply::AlreadySubscribed
            } else {
                Reply::Subscribed
            },
        ),
        Command::Unsubscribe => (
            subscribers.remove(sender),
            if subscribers.contains(sender) {
                Reply::Unsubscribed
            } else {
                Reply::NotSubscribed
            },
        ),
        Command::Help => (subscribers, Reply::Help),
    }
}

/// True when a command of `sender` changes the registry `subscribers`, so
/// that it has to be written out.
pub open spec fn command_changes(subscribers: Set<Seq<u8>>, sender: Seq<u8>, command: Command)
    -> bool {
    match command {
        Command::Subscribe => !subscribers.contains(sender),
        Command::Unsubscribe => subscribers.contains(sender),
        Command::Help => false,
    }
}

/// How a command ended.
#[derive(Clone, Copy, Debug, PartialEq, Eq, Structural)]
pub struct CommandResult {
    /// The notice to send back to the sender.
    pub reply: Reply,
    /// True when the registry has changed and is to be written out.
    pub changed: bool,
}

/// Carries out a command of `sender` on the registry.
pub fn run_command(command: Command, sender: &Identity, subscribers: &mut SubscriberList) -> (r:
    CommandResult)
    ensures
        (final(subscribers)@, r.reply) == command_effect(old(subscribers)@, sender@, command),
        r.changed == command_changes(old(subscribers)@, sender@, command),
{
    match command {
        Command::Subscribe => {
            if subscribers.add(*sender) {
                CommandResult { reply: Reply::Subscribed, changed: true }
            } else {
                CommandResult { reply: Reply::AlreadySubscribed, changed: false }
            }
        },
        Command::Unsubscribe => {
            if subscribers.remove(sender) {
                CommandResult { reply: Reply::Unsubscribed, changed: true }
            } else {
                CommandResult { reply: Reply::NotSubscribed, changed: false }
            }
        },
        Command::Help => CommandResult { reply: Reply::Help, changed: false },
    }
}

/// How the evaluation of one private message ended.
#[derive(Debug, PartialEq, Eq)]
pub enum Inbound {
    /// The message came from the relay's own identity and was dropped.
    SelfFiltered,
    /// The message is no private direct message and was dropped.
    KindFiltered,
    /// The message was a command. It is answered and goes no further.
    CommandHandled { reply: Reply, changed: bool },
    /// The sender is not subscribed. The message is answered with a notice
    /// and goes no further.
    NotSubscribed { reply: Reply },
    /// The sender is subscribed: `content`, the trimmed text, is to be
    /// relayed to the chat channel.
    Relayed { content: String },
}

/// The mathematical content of an [`Inbound`].
pub enum InboundView {
    SelfFiltered,
    KindFiltered,
    CommandHandled { reply: Reply, changed: bool },
    NotSubscribed { reply: Reply },
    Relayed { content: Seq<char> },
}

impl View for Inbound {
    type V = InboundView;

    open spec fn view(&self) -> InboundView {
        match *self {
            Inbound::SelfFiltered => InboundView::SelfFiltered,
            Inbound::KindFiltered => InboundView::KindFiltered,
            Inbound::CommandHandled { reply, changed } => InboundView::CommandHandled {
                reply,
                changed,
            },
            Inbound::NotSubscribed { reply } => InboundView::NotSubscribed { reply },
            Inbound::Relayed { content } => InboundView::Relayed { content: content@ },
        }
    }
}

/// The evaluation of one private message: the registry after it, and how it
/// ended. A message of the relay's own identity is dropped; then one that is
/// no direct message; then a command is carried out; then a message of one
/// who is not subscribed is refused; what is left is relayed.
pub open spec fn inbound_step(
    subscribers: Set<Seq<u8>>,
    own: Seq<u8>,
    sender: Seq<u8>,
    kind: u16,
    text: Seq<char>,
) -> (Set<Seq<u8>>, InboundView) {
    if sender == own {
        (subscribers, InboundView::SelfFiltered)
    } else if kind != DIRECT_MESSAGE_KIND {
        (subscribers, InboundView::KindFiltered)
    } else {
        match command_of(trimmed(text)) {
            Some(command) => (
                command_effect(subscribers, sender, command).0,
                InboundView::CommandHandled {
                    reply: command_effect(subscribers, sender, command).1,
                    changed: command_changes(subscribers, sender, command),
                },
            ),
            None => if subscribers.contains(sender) {
                (subscribers, InboundView::Relayed { content: trimmed(text) })
            } else {
                (subscribers, InboundView::NotSubscribed { reply: Reply::NotForwarded })
            },
        }
    }
}

/// Evaluates one decrypted private message of `sender`, of kind number
/// `kind` and with the text `text`, for the relay whose identity is `own`.
pub fn handle_private_message(
    own: &Identity,
    sender: &Identity,
    kind: u16,
    text: &str,
    subscribers: &mut SubscriberList,
) -> (r: Inbound)
    ensures
        (final(subscribers)@, r@) == inbound_step(old(subscribers)@, own@, sender@, kind, text@),
{
    if *sender == *own {
        return Inbound::SelfFiltered;
    }
    if !is_direct_message(kind) {
        return Inbound::KindFiltered;
    }
    let content = trim(text);
    match parse_command(content.as_str()) {
        Some(command) => {
            let done = run_command(command, sender, subscribers);
            Inbound::CommandHandled { reply: done.reply, changed: done.changed }
        },
        None => {
            if subscribers.contains(sender) {
                Inbound::Relayed { content }
            } else {
                Inbound::NotSubscribed { reply: Reply::NotForwarded }
            }
        },
    }
}

/// The message that carries `content` of `sender` to the chat channel, with
/// the sender shown as `profile` says.
pub open spec fn relayed(content: Seq<char>, profile: ProfileView, sender: Seq<u8>)
    -> MessageView {
    MessageView::Nostr {
        content,
        metadata: SenderView {
            username: best_name(profile),
            pubkey: npub_text(sender),
            avatar_url: profile.picture,
        },
    }
}

/// Makes the message that carries `content` of `sender` to the chat channel.
pub fn relay_message(content: String, profile: &UserMetadata, sender: &Identity) -> (r:
    BridgeMessage)
    ensures
        r@ == relayed(content@, profile@, sender@),
{
    BridgeMessage::Nostr {
        content,
        metadata: NostrMessageMetadata {
            username: profile.get_best_name(),
            pubkey: sender.to_bech32(),
            avatar_url: copy_text(&profile.picture),
        },
    }
}

/// How the relay of one message to the chat channel goes on.
#[derive(Debug, PartialEq, Eq)]
pub enum RelayPlan {
    /// A fresh profile of the sender is stored: the message is ready to be
    /// posted.
    Post { message: BridgeMessage },
    /// No fresh profile is stored: the network is to be asked for the
    /// sender's profile, and the relay is finished with the answer.
    Fetch { content: String },
}

/// The mathematical content of a [`RelayPlan`].
pub enum RelayPlanView {
    Post { message: MessageView },
    Fetch { content: Seq<char> },
}

impl View for RelayPlan {
    type V = RelayPlanView;

    open spec fn view(&self) -> RelayPlanView {
        match *self {
            RelayPlan::Post { message } => RelayPlanView::Post { message: message@ },
            RelayPlan::Fetch { content } => RelayPlanView::Fetch { content: content@ },
        }
    }
}

/// How the relay of `content` of `sender` goes on at `now`, with the profiles
/// `cache`.
pub open spec fn relay_plan(
    cache: Map<Seq<char>, ProfileView>,
    sender: Seq<u8>,
    content: Seq<char>,
    now: u64,
) -> RelayPlanView {
    match fresh_entry(cache, npub_text(sender), now) {
        Some(profile) => RelayPlanView::Post { message: relayed(content, profile, sender) },
        None => RelayPlanView::Fetch { content },
    }
}

/// Begins the relay of `content`, which a subscribed `sender` sent, at `now`
/// (seconds since the epoch): with a fresh profile in the cache the message
/// is made at once, and nobody is asked.
pub fn begin_relay(cache: &MetadataCache, sender: &Identity, content: String, now: u64) -> (r:
    RelayPlan)
    ensures
        r@ == relay_plan(cache@, sender@, content@, now),
{
    match cache.plan_fetch(sender, now) {
        FetchPlan::Cached(profile) => RelayPlan::Post {
            message: relay_message(content, &profile, sender),
        },
        FetchPlan::Fetch => RelayPlan::Fetch { content },
    }
}

/// Finishes the relay of `content` of `sender` with what the network
/// answered at `now` when it was asked for the sender's profile: `found` is
/// `None` when it gave no profile, failed or took too long. The answer is
/// stored, and the message is made in every case; the name that it shows is
/// never empty.
pub fn finish_relay(
    cache: &mut MetadataCache,
    sender: &Identity,
    content: String,
    found: Option<ProfileAttributes>,
    now: u64,
) -> (r: BridgeMessage)
    ensures
        final(cache)@ == old(cache)@.insert(
            npub_text(sender@),
            fetched_profile(npub_text(sender@), found_view(found), now),
        ),
        r@ == relayed(
            content@,
            fetched_profile(npub_text(sender@), found_view(found), now),
            sender@,
        ),
        best_name(fetched_profile(npub_text(sender@), found_view(found), now)).len() > 0,
{
    let profile = cache.store_fetched(sender, found, now);
    relay_message(content, &profile, sender)
}

/// The text that tells a subscriber what `author` said in the chat channel.
pub open spec fn chat_line(author: Seq<char>, content: Seq<char>) -> Seq<char> {
    "["@ + author + "]: "@ + content
}

/// Formats what `author` said in the chat channel for a private message.
pub fn format_chat_message(author: &str, content: &str) -> (r: String)
    ensures
        r@ == chat_line(author@, content@),
{
    let mut out = String::from_str("[");
    out.append(author);
    out.append("]: ");
    out.append(content);
    out
}

/// The text that goes out to the subscribers for a message, if any does: a
/// message from the chat channel goes out, one from a subscriber does not.
pub open spec fn outbound_text(message: MessageView) -> Option<Seq<char>> {
    match message {
        MessageView::Discord { author, content, image } => Some(chat_line(author, content)),
        MessageView::Nostr { content, metadata } => None,
    }
}

/// One private message to send.
#[derive(Debug, PartialEq, Eq)]
pub struct PrivateSend {
    pub recipient: Identity,
    pub text: String,
}

/// The private messages to send for `message`: one to each subscriber, in
/// the order of their subscription, all with the same text. Each is to be
/// attempted, whether or not another fails. An image of the message goes
/// with each of them as it is.
pub fn fan_out(message: &BridgeMessage, subscribers: &SubscriberList) -> (r: Vec<PrivateSend>)
    ensures
        match outbound_text(message@) {
            Some(text) => {
                &&& r@.len() == subscribers.order().len()
                &&& forall|i: int|
                    0 <= i < r@.len() ==> (#[trigger] r@[i]).recipient@ == subscribers.order()[i]
                        && r@[i].text@ == text
            },
            None => r@.len() == 0,
        },
        subscribers.order().no_duplicates(),
        subscribers.order().to_set() == subscribers@,
{
    let recipients = subscribers.get_all();
    let mut out: Vec<PrivateSend> = Vec::new();
    match message {
        BridgeMessage::Discord { author, content, image } => {
            let text = format_chat_message(author.as_str(), content.as_str());
            let mut i: usize = 0;
            while i < recipients.len()
                invariant
                    i <= recipients@.len(),
                    out@.len() == i,
                    forall|j: int|
                        0 <= j < i ==> (#[trigger] out@[j]).recipient == recipients@[j]
                            && out@[j].text@ == text@,
                decreases recipients@.len() - i,
            {
                out.push(PrivateSend { recipient: recipients[i], text: text.clone() });
                i = i + 1;
            }
        },
        BridgeMessage::Nostr { content, metadata } => {},
    }
    out
}

/// Subscribing twice: one who was not subscribed is told so the first time
/// and is told the second time that the subscription stands, and the registry
/// holds the sender after both.
pub proof fn lemma_subscribe_twice(subscribers: Set<Seq<u8>>, sender: Seq<u8>)
    requires
        !subscribers.contains(sender),
    ensures
        command_effect(subscribers, sender, Command::Subscribe).1 == Reply::Subscribed,
        command_effect(
            command_effect(subscribers, sender, Command::Subscribe).0,
            sender,
            Command::Subscribe,
        ) == (subscribers.insert(sender), Reply::AlreadySubscribed),
{
}

/// Nothing but a command changes the registry, and a message is relayed only
/// for a sender who is subscribed when it arrives.
pub proof fn lemma_relay_gate(
    subscribers: Set<Seq<u8>>,
    own: Seq<u8>,
    sender: Seq<u8>,
    kind: u16,
    text: Seq<char>,
)
    ensures
        inbound_step(subscribers, own, sender, kind, text).1 is Relayed ==> subscribers.contains(
            sender,
        ) && sender != own && kind == DIRECT_MESSAGE_KIND,
        !(inbound_step(subscribers, own, sender, kind, text).1 is CommandHandled) ==> inbound_step(
            subscribers,
            own,
            sender,
            kind,
            text,
        ).0 == subscribers,
{
}

} // verus!
