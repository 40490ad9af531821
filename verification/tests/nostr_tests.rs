use vecord::identity::Identity;
use vecord::message::BridgeMessage;
use vecord::message::ImageAttachment;
use vecord::message::NostrMessageMetadata;
use vecord::metadata::FetchPlan;
use vecord::metadata::MetadataCache;
use vecord::metadata::ProfileAttributes;
use vecord::metadata::UserMetadata;
use vecord::nostr::begin_relay;
use vecord::nostr::fan_out;
use vecord::nostr::finish_relay;
use vecord::nostr::format_chat_message;
use vecord::nostr::handle_private_message;
use vecord::nostr::is_direct_message;
use vecord::nostr::parse_command;
use vecord::nostr::relay_message;
use vecord::nostr::run_command;
use vecord::nostr::Command;
use vecord::nostr::CommandResult;
use vecord::nostr::Inbound;
use vecord::nostr::PrivateSend;
use vecord::nostr::RelayPlan;
use vecord::nostr::Reply;
use vecord::nostr::DIRECT_MESSAGE_KIND;
use vecord::subscribers::SubscriberList;

const ALICE_NPUB: &str = "npub14f8usejl26twx0dhuxjh9cas7keav9vr0v8nvtwtrjqx3vycc76qqh9nsy";

fn alice() -> Identity {
    Identity::from_bytes([
        0xaa, 0x4f, 0xc8, 0x66, 0x5f, 0x56, 0x96, 0xe3, 0x3d, 0xb7, 0xe1, 0xa5, 0x72, 0xe3, 0xb0,
        0xf5, 0xb3, 0xd6, 0x15, 0x83, 0x7b, 0x0f, 0x36, 0x2d, 0xcb, 0x1c, 0x80, 0x68, 0xb0, 0x98,
        0xc7, 0xb4,
    ])
}

fn key(n: u8) -> Identity {
    Identity::from_bytes([n; 32])
}

fn own() -> Identity {
    key(200)
}

fn chat(author: &str, content: &str) -> BridgeMessage {
    BridgeMessage::Discord { author: author.to_string(), content: content.to_string(), image: None }
}

#[test]
fn direct_message_kind_is_fourteen() {
    assert_eq!(DIRECT_MESSAGE_KIND, 14);
    assert!(is_direct_message(14));
    assert!(!is_direct_message(4));
    assert!(!is_direct_message(1059));
    assert!(!is_direct_message(0));
}

#[test]
fn commands_are_recognised_exactly() {
    assert_eq!(parse_command("!subscribe"), Some(Command::Subscribe));
    assert_eq!(parse_command("!unsubscribe"), Some(Command::Unsubscribe));
    assert_eq!(parse_command("!help"), Some(Command::Help));
    assert_eq!(parse_command("!Subscribe"), None);
    assert_eq!(parse_command("!HELP"), None);
    assert_eq!(parse_command("!subscribe now"), None);
    assert_eq!(parse_command(" !subscribe"), None);
    assert_eq!(parse_command("subscribe"), None);
    assert_eq!(parse_command(""), None);
    assert_eq!(parse_command("hello"), None);
}

#[test]
fn reply_texts() {
    assert_eq!(
        Reply::Subscribed.text(),
        "You are now subscribed to the Discord channel. You will receive all messages from the Discord channel. Send !unsubscribe to stop receiving messages."
    );
    assert_eq!(Reply::AlreadySubscribed.text(), "You are already subscribed to the Discord channel.");
    assert_eq!(
        Reply::Unsubscribed.text(),
        "You have been unsubscribed from the Discord channel. You will no longer receive messages."
    );
    assert_eq!(Reply::NotSubscribed.text(), "You are not currently subscribed to the Discord channel.");
    assert_eq!(
        Reply::Help.text(),
        "Available commands:\n!subscribe - Start receiving Discord messages\n!unsubscribe - Stop receiving Discord messages\n!help - Show this help message"
    );
    assert_eq!(
        Reply::NotForwarded.text(),
        "Your message was not forwarded to Discord because you're not subscribed. Send !subscribe to start forwarding your messages."
    );
}

#[test]
fn run_command_subscribes_and_unsubscribes() {
    let mut list = SubscriberList::new();
    assert_eq!(
        run_command(Command::Unsubscribe, &alice(), &mut list),
        CommandResult { reply: Reply::NotSubscribed, changed: false }
    );
    assert_eq!(
        run_command(Command::Subscribe, &alice(), &mut list),
        CommandResult { reply: Reply::Subscribed, changed: true }
    );
    assert!(list.contains(&alice()));
    assert_eq!(
        run_command(Command::Help, &alice(), &mut list),
        CommandResult { reply: Reply::Help, changed: false }
    );
    assert!(list.contains(&alice()));
    assert_eq!(
        run_command(Command::Unsubscribe, &alice(), &mut list),
        CommandResult { reply: Reply::Unsubscribed, changed: true }
    );
    assert!(!list.contains(&alice()));
}

#[test]
fn sender_not_in_registry_gets_a_notice_and_nothing_is_relayed() {
    let mut list = SubscriberList::new();
    list.add(key(1));
    let outcome = handle_private_message(&own(), &alice(), 14, "hello", &mut list);
    assert_eq!(outcome, Inbound::NotSubscribed { reply: Reply::NotForwarded });
    assert_eq!(list.get_all(), vec![key(1)]);
}

#[test]
fn subscribe_twice() {
    let mut list = SubscriberList::new();
    let first = handle_private_message(&own(), &alice(), 14, "!subscribe", &mut list);
    assert_eq!(first, Inbound::CommandHandled { reply: Reply::Subscribed, changed: true });
    let second = handle_private_message(&own(), &alice(), 14, "!subscribe", &mut list);
    assert_eq!(second, Inbound::CommandHandled { reply: Reply::AlreadySubscribed, changed: false });
    assert_eq!(list.get_all(), vec![alice()]);
    assert_eq!(list.len(), 1);
}

#[test]
fn unsubscribe_through_a_message() {
    let mut list = SubscriberList::new();
    list.add(alice());
    let first = handle_private_message(&own(), &alice(), 14, "  !unsubscribe\n", &mut list);
    assert_eq!(first, Inbound::CommandHandled { reply: Reply::Unsubscribed, changed: true });
    assert!(!list.contains(&alice()));
    let second = handle_private_message(&own(), &alice(), 14, "!unsubscribe", &mut list);
    assert_eq!(second, Inbound::CommandHandled { reply: Reply::NotSubscribed, changed: false });
}

#[test]
fn help_changes_nothing() {
    let mut list = SubscriberList::new();
    let outcome = handle_private_message(&own(), &alice(), 14, "!help", &mut list);
    assert_eq!(outcome, Inbound::CommandHandled { reply: Reply::Help, changed: false });
    assert_eq!(list.len(), 0);
}

#[test]
fn a_command_is_never_relayed_even_from_a_subscriber() {
    let mut list = SubscriberList::new();
    list.add(alice());
    let outcome = handle_private_message(&own(), &alice(), 14, "!help", &mut list);
    assert_eq!(outcome, Inbound::CommandHandled { reply: Reply::Help, changed: false });
}

#[test]
fn own_messages_are_dropped_first() {
    let mut list = SubscriberList::new();
    list.add(own());
    assert_eq!(handle_private_message(&own(), &own(), 14, "hi", &mut list), Inbound::SelfFiltered);
    assert_eq!(handle_private_message(&own(), &own(), 1, "hi", &mut list), Inbound::SelfFiltered);
    assert_eq!(
        handle_private_message(&own(), &own(), 14, "!unsubscribe", &mut list),
        Inbound::SelfFiltered
    );
    assert!(list.contains(&own()));
}

#[test]
fn other_kinds_are_dropped_before_commands() {
    let mut list = SubscriberList::new();
    assert_eq!(
        handle_private_message(&own(), &alice(), 4, "!subscribe", &mut list),
        Inbound::KindFiltered
    );
    assert_eq!(list.len(), 0);
    list.add(alice());
    assert_eq!(handle_private_message(&own(), &alice(), 15, "hi", &mut list), Inbound::KindFiltered);
}

#[test]
fn a_subscriber_is_relayed_with_trimmed_text() {
    let mut list = SubscriberList::new();
    list.add(alice());
    let outcome = handle_private_message(&own(), &alice(), 14, "  hey there \n", &mut list);
    assert_eq!(outcome, Inbound::Relayed { content: "hey there".to_string() });
    assert_eq!(list.get_all(), vec![alice()]);
}

#[test]
fn format_of_a_chat_line() {
    assert_eq!(format_chat_message("alice", "hi"), "[alice]: hi");
    assert_eq!(format_chat_message("", ""), "[]: ");
    assert_eq!(format_chat_message("a]b", "x: y"), "[a]b]: x: y");
}

#[test]
fn chat_message_goes_to_each_of_two_subscribers() {
    let mut list = SubscriberList::new();
    list.add(key(1));
    list.add(key(2));
    let sends = fan_out(&chat("alice", "hi"), &list);
    assert_eq!(
        sends,
        vec![
            PrivateSend { recipient: key(1), text: "[alice]: hi".to_string() },
            PrivateSend { recipient: key(2), text: "[alice]: hi".to_string() },
        ]
    );
    let mut attempts: Vec<(Identity, String, bool)> = Vec::new();
    for send in sends {
        let delivered = send.recipient != key(1);
        attempts.push((send.recipient, send.text, delivered));
    }
    assert_eq!(attempts.len(), 2);
    assert_eq!(attempts[0], (key(1), "[alice]: hi".to_string(), false));
    assert_eq!(attempts[1], (key(2), "[alice]: hi".to_string(), true));
}

#[test]
fn fan_out_without_subscribers_sends_nothing() {
    let list = SubscriberList::new();
    assert_eq!(fan_out(&chat("alice", "hi"), &list), vec![]);
}

#[test]
fn fan_out_keeps_the_image_out_of_the_text() {
    let mut list = SubscriberList::new();
    list.add(key(1));
    let message = BridgeMessage::Discord {
        author: "alice".to_string(),
        content: "look".to_string(),
        image: Some(ImageAttachment { bytes: vec![1, 2, 3], extension: "png".to_string() }),
    };
    let sends = fan_out(&message, &list);
    assert_eq!(sends, vec![PrivateSend { recipient: key(1), text: "[alice]: look".to_string() }]);
}

#[test]
fn a_message_of_a_subscriber_is_not_fanned_out() {
    let mut list = SubscriberList::new();
    list.add(key(1));
    let message = BridgeMessage::Nostr {
        content: "hi".to_string(),
        metadata: NostrMessageMetadata {
            username: "alice".to_string(),
            pubkey: ALICE_NPUB.to_string(),
            avatar_url: None,
        },
    };
    assert_eq!(fan_out(&message, &list), vec![]);
}

#[test]
fn relay_message_shows_the_sender_as_the_profile_says() {
    let attributes = ProfileAttributes {
        name: Some("alice".to_string()),
        display_name: Some("Alice".to_string()),
        picture: Some("https://example.com/a.png".to_string()),
        nip05: None,
        about: None,
    };
    let profile = UserMetadata::from_metadata(&alice(), attributes, 9);
    let message = relay_message("hello".to_string(), &profile, &alice());
    assert_eq!(
        message,
        BridgeMessage::Nostr {
            content: "hello".to_string(),
            metadata: NostrMessageMetadata {
                username: "Alice".to_string(),
                pubkey: ALICE_NPUB.to_string(),
                avatar_url: Some("https://example.com/a.png".to_string()),
            },
        }
    );
}

#[test]
fn subscriber_without_profile_is_relayed_under_a_name_made_of_the_key() {
    let mut list = SubscriberList::new();
    list.add(alice());
    let mut cache = MetadataCache::new();
    let mut fetches = 0;

    let outcome = handle_private_message(&own(), &alice(), 14, "hey", &mut list);
    let content = match outcome {
        Inbound::Relayed { content } => content,
        other => panic!("not relayed: {:?}", other),
    };
    let profile = match cache.plan_fetch(&alice(), 1_000) {
        FetchPlan::Cached(p) => p,
        FetchPlan::Fetch => {
            fetches += 1;
            cache.store_fetched(&alice(), None, 1_000)
        }
    };
    assert_eq!(fetches, 1);
    assert_eq!(cache.get(&alice()), Some(profile.clone()));
    assert_eq!(profile.name, None);
    assert_eq!(profile.display_name, None);

    let message = relay_message(content, &profile, &alice());
    assert_eq!(
        message,
        BridgeMessage::Nostr {
            content: "hey".to_string(),
            metadata: NostrMessageMetadata {
                username: "npub14f8usej...".to_string(),
                pubkey: ALICE_NPUB.to_string(),
                avatar_url: None,
            },
        }
    );

    match cache.plan_fetch(&alice(), 1_060) {
        FetchPlan::Cached(p) => assert_eq!(p, profile),
        FetchPlan::Fetch => panic!("asked the network again within the window"),
    }
}

#[test]
fn begin_relay_posts_at_once_with_a_fresh_profile() {
    let mut cache = MetadataCache::new();
    let attributes = ProfileAttributes {
        name: Some("alice".to_string()),
        display_name: None,
        picture: None,
        nip05: None,
        about: None,
    };
    cache.store_fetched(&alice(), Some(attributes), 1_000);
    let plan = begin_relay(&cache, &alice(), "hi".to_string(), 1_000 + 86_400);
    assert_eq!(
        plan,
        RelayPlan::Post {
            message: BridgeMessage::Nostr {
                content: "hi".to_string(),
                metadata: NostrMessageMetadata {
                    username: "alice".to_string(),
                    pubkey: ALICE_NPUB.to_string(),
                    avatar_url: None,
                },
            },
        }
    );
}

#[test]
fn begin_relay_asks_when_the_profile_is_stale_or_missing() {
    let mut cache = MetadataCache::new();
    assert_eq!(
        begin_relay(&cache, &alice(), "hi".to_string(), 5),
        RelayPlan::Fetch { content: "hi".to_string() }
    );
    cache.store_fetched(&alice(), None, 1_000);
    assert_eq!(
        begin_relay(&cache, &alice(), "hi".to_string(), 1_000 + 86_401),
        RelayPlan::Fetch { content: "hi".to_string() }
    );
}

#[test]
fn finish_relay_stores_the_answer_and_makes_the_message() {
    let mut cache = MetadataCache::new();
    let attributes = ProfileAttributes {
        name: None,
        display_name: Some("Alice".to_string()),
        picture: Some("https://example.com/a.png".to_string()),
        nip05: None,
        about: None,
    };
    let message = finish_relay(&mut cache, &alice(), "hi".to_string(), Some(attributes), 42);
    assert_eq!(
        message,
        BridgeMessage::Nostr {
            content: "hi".to_string(),
            metadata: NostrMessageMetadata {
                username: "Alice".to_string(),
                pubkey: ALICE_NPUB.to_string(),
                avatar_url: Some("https://example.com/a.png".to_string()),
            },
        }
    );
    let stored = cache.get(&alice()).unwrap();
    assert_eq!(stored.display_name, Some("Alice".to_string()));
    assert_eq!(stored.last_updated, 42);
}

#[test]
fn relay_goes_on_when_the_fetch_fails() {
    let mut list = SubscriberList::new();
    list.add(alice());
    let mut cache = MetadataCache::new();
    let mut fetches = 0;
    let mut posted: Vec<BridgeMessage> = Vec::new();
    for (now, text) in [(1_000u64, "hey"), (1_030, "again")] {
        let content = match handle_private_message(&own(), &alice(), 14, text, &mut list) {
            Inbound::Relayed { content } => content,
            other => panic!("not relayed: {:?}", other),
        };
        let message = match begin_relay(&cache, &alice(), content, now) {
            RelayPlan::Post { message } => message,
            RelayPlan::Fetch { content } => {
                fetches += 1;
                finish_relay(&mut cache, &alice(), content, None, now)
            }
        };
        posted.push(message);
    }
    assert_eq!(fetches, 1);
    assert_eq!(posted.len(), 2);
    for (message, text) in posted.iter().zip(["hey", "again"]) {
        assert_eq!(
            *message,
            BridgeMessage::Nostr {
                content: text.to_string(),
                metadata: NostrMessageMetadata {
                    username: "npub14f8usej...".to_string(),
                    pubkey: ALICE_NPUB.to_string(),
                    avatar_url: None,
                },
            }
        );
    }
    assert_eq!(cache.len(), 1);
}
