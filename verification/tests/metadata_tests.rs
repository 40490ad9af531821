use vecord::identity::Identity;
use vecord::metadata::copy_text;
use vecord::metadata::FetchPlan;
use vecord::metadata::MetadataCache;
use vecord::metadata::MetadataError;
use vecord::metadata::ProfileAttributes;
use vecord::metadata::UserMetadata;
use vecord::metadata::CACHE_LIFETIME_SECS;
use vecord::metadata::FETCH_TIMEOUT_SECS;

const ALICE_NPUB: &str = "npub14f8usejl26twx0dhuxjh9cas7keav9vr0v8nvtwtrjqx3vycc76qqh9nsy";

fn alice() -> Identity {
    Identity::from_bytes([
        0xaa, 0x4f, 0xc8, 0x66, 0x5f, 0x56, 0x96, 0xe3, 0x3d, 0xb7, 0xe1, 0xa5, 0x72, 0xe3, 0xb0,
        0xf5, 0xb3, 0xd6, 0x15, 0x83, 0x7b, 0x0f, 0x36, 0x2d, 0xcb, 0x1c, 0x80, 0x68, 0xb0, 0x98,
        0xc7, 0xb4,
    ])
}

fn bob() -> Identity {
    Identity::from_bytes([9u8; 32])
}

fn profile(pubkey: &str) -> UserMetadata {
    UserMetadata {
        pubkey: pubkey.to_string(),
        name: None,
        display_name: None,
        picture: None,
        nip05: None,
        about: None,
        last_updated: 0,
    }
}

fn attributes(name: Option<&str>, display_name: Option<&str>) -> ProfileAttributes {
    ProfileAttributes {
        name: name.map(|s| s.to_string()),
        display_name: display_name.map(|s| s.to_string()),
        picture: Some("https://example.com/a.png".to_string()),
        nip05: None,
        about: Some("about me".to_string()),
    }
}

#[test]
fn constants_are_one_day_and_fifteen_seconds() {
    assert_eq!(CACHE_LIFETIME_SECS, 60 * 60 * 24);
    assert_eq!(FETCH_TIMEOUT_SECS, 15);
}

#[test]
fn copy_text_copies() {
    assert_eq!(copy_text(&Some("a".to_string())), Some("a".to_string()));
    assert_eq!(copy_text(&None), None);
}

#[test]
fn new_profile_is_empty_and_never_refreshed() {
    let p = UserMetadata::new(&alice());
    assert_eq!(p, profile(ALICE_NPUB));
}

#[test]
fn from_metadata_keeps_the_attributes_and_the_time() {
    let p = UserMetadata::from_metadata(&alice(), attributes(Some("alice"), Some("Alice")), 1234);
    assert_eq!(p.pubkey, ALICE_NPUB);
    assert_eq!(p.name, Some("alice".to_string()));
    assert_eq!(p.display_name, Some("Alice".to_string()));
    assert_eq!(p.picture, Some("https://example.com/a.png".to_string()));
    assert_eq!(p.nip05, None);
    assert_eq!(p.about, Some("about me".to_string()));
    assert_eq!(p.last_updated, 1234);
}

#[test]
fn from_event_reads_a_profile_record() {
    let content = "{\"name\":\"alice\",\"display_name\":\"Alice A.\",\"picture\":\"https://example.com/a.png\",\"nip05\":\"alice@example.com\",\"about\":\"hello\",\"website\":\"https://example.com\"}";
    let p = UserMetadata::from_event(&alice(), content, 77).unwrap();
    assert_eq!(p.pubkey, ALICE_NPUB);
    assert_eq!(p.name, Some("alice".to_string()));
    assert_eq!(p.display_name, Some("Alice A.".to_string()));
    assert_eq!(p.picture, Some("https://example.com/a.png".to_string()));
    assert_eq!(p.nip05, Some("alice@example.com".to_string()));
    assert_eq!(p.about, Some("hello".to_string()));
    assert_eq!(p.last_updated, 77);
}

#[test]
fn from_event_reads_an_empty_record() {
    let p = UserMetadata::from_event(&alice(), "{}", 5).unwrap();
    assert_eq!(p, UserMetadata { last_updated: 5, ..profile(ALICE_NPUB) });
}

#[test]
fn from_event_rejects_what_is_no_record() {
    assert_eq!(UserMetadata::from_event(&alice(), "not json", 5), Err(MetadataError::InvalidJson));
    assert_eq!(UserMetadata::from_event(&alice(), "", 5), Err(MetadataError::InvalidJson));
    assert_eq!(UserMetadata::from_event(&alice(), "[1,2]", 5), Err(MetadataError::InvalidJson));
    assert_eq!(
        UserMetadata::from_event(&alice(), "{\"name\": 3}", 5),
        Err(MetadataError::InvalidJson)
    );
    assert_eq!(MetadataError::InvalidJson.message(), "Failed to parse metadata");
}

#[test]
fn best_name_prefers_the_display_name() {
    let mut p = profile(ALICE_NPUB);
    p.display_name = Some("Alice".to_string());
    p.name = Some("alice".to_string());
    p.nip05 = Some("alice@example.com".to_string());
    assert_eq!(p.get_best_name(), "Alice");
}

#[test]
fn best_name_falls_back_to_the_name() {
    let mut p = profile(ALICE_NPUB);
    p.display_name = Some("   ".to_string());
    p.name = Some("alice".to_string());
    p.nip05 = Some("alice@example.com".to_string());
    assert_eq!(p.get_best_name(), "alice");
}

#[test]
fn best_name_falls_back_to_the_handle() {
    let mut p = profile(ALICE_NPUB);
    p.display_name = Some("".to_string());
    p.name = Some("\t".to_string());
    p.nip05 = Some("alice@example.com".to_string());
    assert_eq!(p.get_best_name(), "alice@example.com");
}

#[test]
fn best_name_keeps_the_white_space_around_a_name() {
    let mut p = profile(ALICE_NPUB);
    p.display_name = Some(" Alice ".to_string());
    assert_eq!(p.get_best_name(), " Alice ");
}

#[test]
fn best_name_of_an_empty_profile_is_the_shortened_key() {
    let p = UserMetadata::new(&alice());
    assert_eq!(p.get_best_name(), "npub14f8usej...");
}

#[test]
fn best_name_is_never_empty_for_a_made_profile() {
    let keys = [alice(), bob(), Identity::from_bytes([0u8; 32]), Identity::from_bytes([255u8; 32])];
    for key in keys {
        assert!(!UserMetadata::new(&key).get_best_name().is_empty());
        let blank = ProfileAttributes {
            name: Some(" ".to_string()),
            display_name: Some("".to_string()),
            picture: None,
            nip05: Some("\n".to_string()),
            about: None,
        };
        assert!(!UserMetadata::from_metadata(&key, blank, 1).get_best_name().is_empty());
    }
}

#[test]
fn short_keys_and_other_texts_are_shown_whole() {
    assert_eq!(profile("npub12345678").get_best_name(), "npub12345678");
    assert_eq!(profile("npub123456789").get_best_name(), "npub12345678...");
    assert_eq!(
        profile("aa4fc8665f5696e33db7e1a572e3b0f5").get_best_name(),
        "aa4fc8665f5696e33db7e1a572e3b0f5"
    );
    assert_eq!(profile("npub").get_best_name(), "npub");
}

#[test]
fn needs_refresh_after_one_day() {
    let mut p = profile(ALICE_NPUB);
    p.last_updated = 1000;
    assert!(!p.needs_refresh(1000));
    assert!(!p.needs_refresh(1000 + 86400));
    assert!(p.needs_refresh(1000 + 86401));
    assert!(!p.needs_refresh(0));
}

#[test]
fn needs_refresh_near_the_end_of_time() {
    let mut p = profile(ALICE_NPUB);
    p.last_updated = u64::MAX;
    assert!(!p.needs_refresh(u64::MAX));
    p.last_updated = u64::MAX - 86400;
    assert!(!p.needs_refresh(u64::MAX));
    p.last_updated = u64::MAX - 86401;
    assert!(p.needs_refresh(u64::MAX));
}

#[test]
fn never_refreshed_profile_needs_refresh() {
    let p = profile(ALICE_NPUB);
    assert!(!p.needs_refresh(86400));
    assert!(p.needs_refresh(86401));
}

#[test]
fn should_fetch_without_names_or_when_stale() {
    let mut p = profile(ALICE_NPUB);
    p.last_updated = 1000;
    assert!(p.should_fetch(1001));
    p.name = Some("alice".to_string());
    assert!(!p.should_fetch(1001));
    assert!(p.should_fetch(1000 + 86401));
    p.name = None;
    p.display_name = Some("Alice".to_string());
    assert!(!p.should_fetch(1001));
    p.display_name = None;
    p.nip05 = Some("alice@example.com".to_string());
    assert!(p.should_fetch(1001));
}

#[test]
fn empty_cache_holds_nothing() {
    let cache = MetadataCache::new();
    assert_eq!(cache.len(), 0);
    assert_eq!(cache.get(&alice()), None);
    assert_eq!(cache.entries(), vec![]);
}

#[test]
fn put_then_get() {
    let mut cache = MetadataCache::new();
    let p = UserMetadata::from_metadata(&alice(), attributes(Some("alice"), None), 10);
    cache.put(p.clone());
    assert_eq!(cache.get(&alice()), Some(p.clone()));
    assert_eq!(cache.get_by_key(ALICE_NPUB), Some(p));
    assert_eq!(cache.get(&bob()), None);
    assert_eq!(cache.len(), 1);
}

#[test]
fn put_replaces_the_profile_of_the_same_key() {
    let mut cache = MetadataCache::new();
    let first = UserMetadata::from_metadata(&alice(), attributes(Some("alice"), None), 10);
    let other = UserMetadata::from_metadata(&bob(), attributes(Some("bob"), None), 11);
    let second = UserMetadata::from_metadata(&alice(), attributes(Some("alice2"), None), 20);
    cache.put(first);
    cache.put(other.clone());
    cache.put(second.clone());
    assert_eq!(cache.len(), 2);
    assert_eq!(cache.get(&alice()), Some(second));
    assert_eq!(cache.get(&bob()), Some(other));
}

#[test]
fn put_under_keeps_the_given_key() {
    let mut cache = MetadataCache::new();
    let p = UserMetadata::from_metadata(&alice(), attributes(Some("alice"), None), 10);
    cache.put_under("some-key".to_string(), p.clone());
    assert_eq!(cache.get_by_key("some-key"), Some(p));
    assert_eq!(cache.get(&alice()), None);
}

#[test]
fn entries_give_the_cache_again() {
    let mut cache = MetadataCache::new();
    cache.put(UserMetadata::from_metadata(&alice(), attributes(Some("alice"), None), 10));
    cache.put(UserMetadata::from_metadata(&bob(), attributes(None, Some("Bob")), 11));
    let entries = cache.entries();
    assert_eq!(entries.len(), 2);
    let again = MetadataCache::from_entries(&entries);
    assert_eq!(again.len(), 2);
    assert_eq!(again.get(&alice()), cache.get(&alice()));
    assert_eq!(again.get(&bob()), cache.get(&bob()));
}

#[test]
fn from_entries_keeps_the_later_of_two_with_one_key() {
    let a = UserMetadata::from_metadata(&alice(), attributes(Some("first"), None), 1);
    let b = UserMetadata::from_metadata(&alice(), attributes(Some("second"), None), 2);
    let list = vec![("k".to_string(), a), ("k".to_string(), b.clone())];
    let cache = MetadataCache::from_entries(&list);
    assert_eq!(cache.len(), 1);
    assert_eq!(cache.get_by_key("k"), Some(b));
}

#[test]
fn plan_is_to_fetch_when_nothing_is_stored() {
    let cache = MetadataCache::new();
    assert_eq!(cache.plan_fetch(&alice(), 100), FetchPlan::Fetch);
}

#[test]
fn plan_is_the_stored_profile_while_it_is_fresh() {
    let mut cache = MetadataCache::new();
    let p = UserMetadata::from_metadata(&alice(), attributes(Some("alice"), None), 1000);
    cache.put(p.clone());
    assert_eq!(cache.plan_fetch(&alice(), 1000), FetchPlan::Cached(p.clone()));
    assert_eq!(cache.plan_fetch(&alice(), 1000 + 86400), FetchPlan::Cached(p));
    assert_eq!(cache.plan_fetch(&alice(), 1000 + 86401), FetchPlan::Fetch);
    assert_eq!(cache.plan_fetch(&bob(), 1000), FetchPlan::Fetch);
}

#[test]
fn store_fetched_keeps_what_the_network_gave() {
    let mut cache = MetadataCache::new();
    let stored = cache.store_fetched(&alice(), Some(attributes(Some("alice"), Some("Alice"))), 500);
    assert_eq!(
        stored,
        UserMetadata::from_metadata(&alice(), attributes(Some("alice"), Some("Alice")), 500)
    );
    assert_eq!(cache.get(&alice()), Some(stored));
}

#[test]
fn store_fetched_keeps_an_empty_profile_when_the_network_gave_none() {
    let mut cache = MetadataCache::new();
    let stored = cache.store_fetched(&alice(), None, 500);
    assert_eq!(stored, UserMetadata { last_updated: 500, ..profile(ALICE_NPUB) });
    assert_eq!(cache.get(&alice()), Some(stored.clone()));
    assert_eq!(stored.get_best_name(), "npub14f8usej...");
}

#[test]
fn two_requests_within_the_window_fetch_at_most_once() {
    let outcomes = [Some(attributes(Some("alice"), None)), None];
    for outcome in outcomes {
        let mut cache = MetadataCache::new();
        let mut fetches = 0;
        let times = [1_000u64, 1_001, 50_000, 1_000 + 86_400];
        for now in times {
            match cache.plan_fetch(&alice(), now) {
                FetchPlan::Cached(_) => {}
                FetchPlan::Fetch => {
                    fetches += 1;
                    let found = match &outcome {
                        Some(a) => Some(attributes(a.name.as_deref(), a.display_name.as_deref())),
                        None => None,
                    };
                    cache.store_fetched(&alice(), found, now);
                }
            }
        }
        assert_eq!(fetches, 1);
        assert_eq!(cache.plan_fetch(&alice(), 1_000 + 86_401), FetchPlan::Fetch);
    }
}
