//! Display profiles of identities, and the cache that keeps them.

use vstd::prelude::*;
use nostr_sdk::prelude::Metadata;
use crate::identity::npub_text;
use crate::identity::Identity;
use crate::text::chars_of;
use crate::text::has_prefix;
use crate::text::is_blank;
use crate::text::same_text;
use crate::text::starts_with;
use crate::text::trimmed;

verus! {

/// Seconds for which a stored profile counts as fresh: one day.
pub const CACHE_LIFETIME_SECS: u64 = 86400;

/// Seconds that one profile request to the network may take.
pub const FETCH_TIMEOUT_SECS: u64 = 15;

/// Number of characters of a key's text that a shortened name keeps.
pub const SHORT_KEY_CHARS: usize = 12;

/// The view of an optional text.
pub open spec fn text_view(o: Option<String>) -> Option<Seq<char>> {
    match o {
        Some(s) => Some(s@),
        None => None,
    }
}

/// A copy of an optional text.
pub fn copy_text(o: &Option<String>) -> (r: Option<String>)
    ensures
        r == *o,
{
    match o {
        Some(s) => Some(s.clone()),
        None => None,
    }
}

/// What a profile record of the network says about its owner.
#[derive(Debug, PartialEq, Eq)]
pub struct ProfileAttributes {
    pub name: Option<String>,
    pub display_name: Option<String>,
    pub picture: Option<String>,
    pub nip05: Option<String>,
    pub about: Option<String>,
}

/// The mathematical content of [`ProfileAttributes`].
pub struct AttributesView {
    pub name: Option<Seq<char>>,
    pub display_name: Option<Seq<char>>,
    pub picture: Option<Seq<char>>,
    pub nip05: Option<Seq<char>>,
    pub about: Option<Seq<char>>,
}

impl View for ProfileAttributes {
    type V = AttributesView;

    open spec fn view(&self) -> AttributesView {
        AttributesView {
            name: text_view(self.name),
            display_name: text_view(self.display_name),
            picture: text_view(self.picture),
            nip05: text_view(self.nip05),
            about: text_view(self.about),
        }
    }
}

/// The cached display profile of one identity.
#[derive(Debug, PartialEq, Eq)]
pub struct UserMetadata {
    pub pubkey: String,
    pub name: Option<String>,
    pub display_name: Option<String>,
    pub picture: Option<String>,
    pub nip05: Option<String>,
    pub about: Option<String>,
    pub last_updated: u64,
}

/// The mathematical content of a [`UserMetadata`].
pub struct ProfileView {
    pub pubkey: Seq<char>,
    pub name: Option<Seq<char>>,
    pub display_name: Option<Seq<char>>,
    pub picture: Option<Seq<char>>,
    pub nip05: Option<Seq<char>>,
    pub about: Option<Seq<char>>,
    pub last_updated: u64,
}

impl View for UserMetadata {
    type V = ProfileView;

    open spec fn view(&self) -> ProfileView {
        ProfileView {
            pubkey: self.pubkey@,
            name: text_view(self.name),
            display_name: text_view(self.display_name),
            picture: text_view(self.picture),
            nip05: text_view(self.nip05),
            about: text_view(self.about),
            last_updated: self.last_updated,
        }
    }
}

impl Clone for UserMetadata {
    fn clone(&self) -> (r: UserMetadata)
        ensures
            r == *self,
    {
        UserMetadata {
            pubkey: self.pubkey.clone(),
            name: copy_text(&self.name),
            display_name: copy_text(&self.display_name),
            picture: copy_text(&self.picture),
            nip05: copy_text(&self.nip05),
            about: copy_text(&self.about),
            last_updated: self.last_updated,
        }
    }
}

/// The profile of `pubkey` about which nothing is known, never refreshed.
pub open spec fn empty_profile(pubkey: Seq<char>) -> ProfileView {
    ProfileView {
        pubkey,
        name: None,
        display_name: None,
        picture: None,
        nip05: None,
        about: None,
        last_updated: 0,
    }
}

/// The profile of `pubkey` with the attributes `a`, refreshed at `now`.
pub open spec fn profile_of(pubkey: Seq<char>, a: AttributesView, now: u64) -> ProfileView {
    ProfileView {
        pubkey,
        name: a.name,
        display_name: a.display_name,
        picture: a.picture,
        nip05: a.nip05,
        about: a.about,
        last_updated: now,
    }
}

/// True when an optional text holds something besides white space.
pub open spec fn has_text(o: Option<Seq<char>>) -> bool {
    o matches Some(s) && trimmed(s).len() > 0
}

/// The text of a key as it is shown when no name is known: a text that begins
/// with `npub` and has more than twelve characters is cut to its first twelve,
/// followed by three dots; any other text is shown whole.
pub open spec fn short_key(pubkey: Seq<char>) -> Seq<char> {
    if has_prefix(pubkey, "npub"@) && pubkey.len() > SHORT_KEY_CHARS {
        pubkey.take(SHORT_KEY_CHARS as int) + "..."@
    } else {
        pubkey
    }
}

/// The name under which a profile is shown: the display name, else the name,
/// else the directory handle, each only if it is more than white space; else
/// the shortened key.
pub open spec fn best_name(p: ProfileView) -> Seq<char> {
    if has_text(p.display_name) {
        p.display_name->0
    } else if has_text(p.name) {
        p.name->0
    } else if has_text(p.nip05) {
        p.nip05->0
    } else {
        short_key(p.pubkey)
    }
}

/// True when a profile refreshed at `last_updated` is past its lifetime at `now`.
pub open spec fn is_stale(last_updated: u64, now: u64) -> bool {
    now > last_updated + CACHE_LIFETIME_SECS
}

/// True when a profile should be asked for again at `now`: it has neither a
/// name nor a display name, or it is stale.
pub open spec fn wants_fetch(p: ProfileView, now: u64) -> bool {
    (p.name is None && p.display_name is None) || is_stale(p.last_updated, now)
}

/// Why a profile record could not be read.
#[derive(Clone, Copy, Debug, PartialEq, Eq, Structural)]
pub enum MetadataError {
    /// The record is no JSON object of profile attributes.
    InvalidJson,
}

impl MetadataError {
    /// A short description of the error.
    pub fn message(&self) -> (r: String)
        ensures
            r@ == "Failed to parse metadata"@,
    {
        String::from_str("Failed to parse metadata")
    }
}

/// Makes `serde_json::Error` known as an opaque type, so that the error of
/// a call can be handed back. Nothing is claimed of its values.
#[verifier::external_type_specification]
#[verifier::external_body]
pub struct ExJsonError(serde_json::Error);

/// The attributes that `serde_json` reads from a profile record in JSON, if
/// it reads any.
pub uninterp spec fn profile_json(content: Seq<char>) -> Option<AttributesView>;

/// Calls `serde_json::from_str` for the `Metadata` of `nostr_sdk` and moves
/// the five attributes that a profile keeps. Trusted: the outcome is the one
/// named [`profile_json`], and an error of the call comes back as it is.
#[verifier::external_body]
fn parse_profile_json(content: &str) -> (r: Result<ProfileAttributes, serde_json::Error>)
    ensures
        match r {
            Ok(a) => profile_json(content@) == Some(a@),
            Err(_) => profile_json(content@) is None,
        },
{
    match serde_json::from_str::<Metadata>(content) {
        Ok(m) => Ok(
            ProfileAttributes {
                name: m.name,
                display_name: m.display_name,
                picture: m.picture,
                nip05: m.nip05,
                about: m.about,
            },
        ),
        Err(e) => Err(e),
    }
}

fn text_or_none(o: &Option<String>) -> (r: Option<String>)
    ensures
        match r {
            Some(s) => has_text(text_view(*o)) && Some(s) == *o,
            None => !has_text(text_view(*o)),
        },
{
    match o {
        Some(s) => {
            if is_blank(s.as_str()) {
                None
            } else {
                Some(s.clone())
            }
        },
        None => None,
    }
}

impl UserMetadata {
    /// The empty profile of `pubkey`, never refreshed.
    pub fn new(pubkey: &Identity) -> (r: UserMetadata)
        ensures
            r@ == empty_profile(npub_text(pubkey@)),
            best_name(r@).len() > 0,
    {
        proof {
            reveal_strlit("...");
        }
        UserMetadata {
            pubkey: pubkey.to_bech32(),
            name: None,
            display_name: None,
            picture: None,
            nip05: None,
            about: None,
            last_updated: 0,
        }
    }

    /// The profile of `pubkey` with the attributes `metadata`, refreshed at
    /// `now` (seconds since the epoch).
    pub fn from_metadata(pubkey: &Identity, metadata: ProfileAttributes, now: u64) -> (r:
        UserMetadata)
        ensures
            r@ == profile_of(npub_text(pubkey@), metadata@, now),
            best_name(r@).len() > 0,
    {
        proof {
            reveal_strlit("...");
        }
        UserMetadata {
            pubkey: pubkey.to_bech32(),
            name: metadata.name,
            display_name: metadata.display_name,
            picture: metadata.picture,
            nip05: metadata.nip05,
            about: metadata.about,
            last_updated: now,
        }
    }

    /// Reads a profile record, as the network carries it in the content of a
    /// metadata event, and makes of it the profile of `pubkey`, refreshed at
    /// `now`.
    pub fn from_event(pubkey: &Identity, content: &str, now: u64) -> (r: Result<
        UserMetadata,
        MetadataError,
    >)
        ensures
            match r {
                Ok(p) => profile_json(content@) matches Some(a) && p@ == profile_of(
                    npub_text(pubkey@),
                    a,
                    now,
                ),
                Err(e) => profile_json(content@) is None && e == MetadataError::InvalidJson,
            },
    {
        match parse_profile_json(content) {
            Ok(attributes) => Ok(UserMetadata::from_metadata(pubkey, attributes, now)),
            Err(_) => Err(MetadataError::InvalidJson),
        }
    }

    /// The name under which the profile is shown.
    pub fn get_best_name(&self) -> (r: String)
        ensures
            r@ == best_name(self@),
            self.pubkey@.len() > 0 ==> r@.len() > 0,
    {
        proof {
            reveal_strlit("...");
        }
        if let Some(s) = text_or_none(&self.display_name) {
            return s;
        }
        if let Some(s) = text_or_none(&self.name) {
            return s;
        }
        if let Some(s) = text_or_none(&self.nip05) {
            return s;
        }
        let key = self.pubkey.as_str();
        let n = chars_of(key).len();
        if starts_with(key, "npub") && n > SHORT_KEY_CHARS {
            let head = String::from_str(key.substring_char(0, SHORT_KEY_CHARS));
            head.concat("...")
        } else {
            self.pubkey.clone()
        }
    }

    /// True when the profile is past its lifetime at `now` (seconds since the
    /// epoch).
    pub fn needs_refresh(&self, now: u64) -> (r: bool)
        ensures
            r == is_stale(self.last_updated, now),
    {
        now >= CACHE_LIFETIME_SECS && now - CACHE_LIFETIME_SECS > self.last_updated
    }

    /// True when the profile should be asked for again at `now`.
    pub fn should_fetch(&self, now: u64) -> (r: bool)
        ensures
            r == wants_fetch(self@, now),
    {
        (self.name.is_none() && self.display_name.is_none()) || self.needs_refresh(now)
    }
}

/// A profile always has a name to show, as long as the text of its key is not
/// empty.
pub proof fn lemma_best_name_nonempty(p: ProfileView)
    requires
        p.pubkey.len() > 0,
    ensures
        best_name(p).len() > 0,
{
    reveal_strlit("...");
}

/// A key text with the profile stored under it.
pub type Entry = (Seq<char>, ProfileView);

/// The map that a list of entries stands for when they are stored one after
/// the other: a later entry replaces an earlier one with the same key.
pub open spec fn stored(entries: Seq<Entry>) -> Map<Seq<char>, ProfileView>
    decreases entries.len(),
{
    if entries.len() == 0 {
        Map::empty()
    } else {
        stored(entries.drop_last()).insert(entries.last().0, entries.last().1)
    }
}

/// True when no two entries of the list share a key.
pub open spec fn distinct_keys(entries: Seq<Entry>) -> bool {
    forall|i: int, j: int| 0 <= i < j < entries.len() ==> entries[i].0 != entries[j].0
}

/// True when some entry of the list has the key `key`.
pub open spec fn has_key(entries: Seq<Entry>, key: Seq<char>) -> bool {
    exists|i: int| 0 <= i < entries.len() && #[trigger] entries[i].0 == key
}

proof fn lemma_distinct_front(entries: Seq<Entry>)
    requires
        distinct_keys(entries),
        entries.len() > 0,
    ensures
        distinct_keys(entries.drop_last()),
{
    let front = entries.drop_last();
    assert forall|a: int, b: int| 0 <= a < b < front.len() implies front[a].0 != front[b].0 by {
        assert(front[a] == entries[a] && front[b] == entries[b]);
    }
}

proof fn lemma_distinct_push(entries: Seq<Entry>, entry: Entry)
    requires
        distinct_keys(entries),
        !has_key(entries, entry.0),
    ensures
        distinct_keys(entries.push(entry)),
        entries.push(entry).drop_last() == entries,
{
    let next = entries.push(entry);
    assert forall|a: int, b: int| 0 <= a < b < next.len() implies next[a].0 != next[b].0 by {
        if b < entries.len() {
            assert(next[a] == entries[a] && next[b] == entries[b]);
        } else {
            assert(entries[a].0 != entry.0);
        }
    }
    assert(next.drop_last() =~= entries);
}

/// The keys of the stored map are the keys of the entries.
pub proof fn lemma_stored_keys(entries: Seq<Entry>, key: Seq<char>)
    ensures
        stored(entries).contains_key(key) <==> has_key(entries, key),
    decreases entries.len(),
{
    if entries.len() > 0 {
        let front = entries.drop_last();
        lemma_stored_keys(front, key);
        if has_key(entries, key) {
            let i = choose|i: int| 0 <= i < entries.len() && #[trigger] entries[i].0 == key;
            assert(i < entries.len() - 1 ==> front[i].0 == key);
        }
        if has_key(front, key) {
            let i = choose|i: int| 0 <= i < front.len() && #[trigger] front[i].0 == key;
            assert(entries[i].0 == key);
        }
        if entries.last().0 == key {
            assert(entries[entries.len() - 1].0 == key);
        }
    }
}

/// With distinct keys, each entry is what the stored map holds under its key.
pub proof fn lemma_stored_value(entries: Seq<Entry>, i: int)
    requires
        distinct_keys(entries),
        0 <= i < entries.len(),
    ensures
        stored(entries).contains_key(entries[i].0),
        stored(entries)[entries[i].0] == entries[i].1,
    decreases entries.len(),
{
    if i < entries.len() - 1 {
        lemma_distinct_front(entries);
        lemma_stored_value(entries.drop_last(), i);
    }
}

/// With distinct keys, replacing the profile of one entry is storing that
/// profile under the entry's key.
pub proof fn lemma_stored_update(entries: Seq<Entry>, i: int, profile: ProfileView)
    requires
        distinct_keys(entries),
        0 <= i < entries.len(),
    ensures
        distinct_keys(entries.update(i, (entries[i].0, profile))),
        stored(entries.update(i, (entries[i].0, profile))) == stored(entries).insert(
            entries[i].0,
            profile,
        ),
    decreases entries.len(),
{
    let key = entries[i].0;
    let next = entries.update(i, (key, profile));
    let front = entries.drop_last();
    if i == entries.len() - 1 {
        assert(next.drop_last() =~= front);
    } else {
        lemma_distinct_front(entries);
        lemma_stored_update(front, i, profile);
        assert(next.drop_last() =~= front.update(i, (key, profile)));
    }
}

/// With distinct keys, the stored map has as many profiles as there are
/// entries.
pub proof fn lemma_stored_len(entries: Seq<Entry>)
    requires
        distinct_keys(entries),
    ensures
        stored(entries).dom().finite(),
        stored(entries).len() == entries.len(),
    decreases entries.len(),
{
    if entries.len() > 0 {
        let front = entries.drop_last();
        lemma_distinct_front(entries);
        lemma_stored_len(front);
        lemma_stored_keys(front, entries.last().0);
        if has_key(front, entries.last().0) {
            let i = choose|i: int| 0 <= i < front.len() && #[trigger] front[i].0 == entries.last().0;
            assert(entries[i].0 == entries[entries.len() - 1].0);
        }
    }
}

/// One stored profile with the key under which it is kept.
struct CacheEntry {
    key: String,
    profile: UserMetadata,
}

spec fn entry_pairs(entries: Seq<CacheEntry>) -> Seq<Entry> {
    Seq::new(entries.len(), |i: int| (entries[i].key@, entries[i].profile@))
}

/// What to do when the profile of an identity is asked for.
#[derive(Debug, PartialEq, Eq)]
pub enum FetchPlan {
    /// A fresh profile is stored: use it, and ask nobody.
    Cached(UserMetadata),
    /// No fresh profile is stored: ask the network.
    Fetch,
}

/// The stored profile that answers a request at `now`, if there is a fresh one.
pub open spec fn fresh_entry(cache: Map<Seq<char>, ProfileView>, key: Seq<char>, now: u64)
    -> Option<ProfileView> {
    if cache.contains_key(key) && !is_stale(cache[key].last_updated, now) {
        Some(cache[key])
    } else {
        None
    }
}

/// The profile that is stored for `key` when the network was asked at `now`:
/// the attributes it gave, or none when it gave no profile; in both cases
/// refreshed at `now`.
pub open spec fn fetched_profile(key: Seq<char>, found: Option<AttributesView>, now: u64)
    -> ProfileView {
    match found {
        Some(a) => profile_of(key, a, now),
        None => ProfileView { last_updated: now, ..empty_profile(key) },
    }
}

/// The view of optional attributes.
pub open spec fn found_view(found: Option<ProfileAttributes>) -> Option<AttributesView> {
    match found {
        Some(a) => Some(a@),
        None => None,
    }
}

/// The profiles of identities, by the text of their key.
pub struct MetadataCache {
    entries: Vec<CacheEntry>,
}

impl MetadataCache {
    /// The entries as mathematical pairs, in the order they are kept.
    pub closed spec fn pairs(&self) -> Seq<Entry> {
        entry_pairs(self.entries@)
    }

    #[verifier::type_invariant]
    spec fn keys_are_distinct(&self) -> bool {
        distinct_keys(self.pairs())
    }
}

impl View for MetadataCache {
    type V = Map<Seq<char>, ProfileView>;

    closed spec fn view(&self) -> Map<Seq<char>, ProfileView> {
        stored(self.pairs())
    }
}

impl MetadataCache {
    /// The cache that holds nothing.
    pub fn new() -> (r: MetadataCache)
        ensures
            r@ == Map::<Seq<char>, ProfileView>::empty(),
    {
        MetadataCache { entries: Vec::new() }
    }

    /// Number of stored profiles.
    pub fn len(&self) -> (r: usize)
        ensures
            r == self@.len(),
            self@.dom().finite(),
    {
        proof {
            use_type_invariant(self);
            lemma_stored_len(self.pairs());
        }
        self.entries.len()
    }

    fn position(&self, key: &str) -> (r: Option<usize>)
        ensures
            match r {
                Some(i) => i < self.entries@.len() && self.pairs()[i as int].0 == key@,
                None => !has_key(self.pairs(), key@),
            },
    {
        let mut i: usize = 0;
        while i < self.entries.len()
            invariant
                i <= self.entries@.len(),
                forall|j: int| 0 <= j < i ==> self.pairs()[j].0 != key@,
            decreases self.entries@.len() - i,
        {
            if same_text(self.entries[i].key.as_str(), key) {
                return Some(i);
            }
            i = i + 1;
        }
        None
    }

    /// The profile stored under the key text `key`, if there is one.
    pub fn get_by_key(&self, key: &str) -> (r: Option<UserMetadata>)
        ensures
            match r {
                Some(p) => self@.contains_key(key@) && p@ == self@[key@],
                None => !self@.contains_key(key@),
            },
    {
        proof {
            use_type_invariant(self);
            lemma_stored_keys(self.pairs(), key@);
        }
        match self.position(key) {
            Some(i) => {
                proof {
                    lemma_stored_value(self.pairs(), i as int);
                }
                Some(self.entries[i].profile.clone())
            },
            None => None,
        }
    }

    /// The profile stored for `pubkey`, if there is one.
    pub fn get(&self, pubkey: &Identity) -> (r: Option<UserMetadata>)
        ensures
            match r {
                Some(p) => self@.contains_key(npub_text(pubkey@)) && p@ == self@[npub_text(
                    pubkey@,
                )],
                None => !self@.contains_key(npub_text(pubkey@)),
            },
    {
        let key = pubkey.to_bech32();
        self.get_by_key(key.as_str())
    }

    /// Stores `metadata` under the text of its key, in place of what was
    /// stored there.
    pub fn put(&mut self, metadata: UserMetadata)
        ensures
            final(self)@ == old(self)@.insert(metadata.pubkey@, metadata@),
    {
        let key = metadata.pubkey.clone();
        self.put_under(key, metadata);
    }

    /// Stores `profile` under `key`, in place of what was stored there.
    pub fn put_under(&mut self, key: String, profile: UserMetadata)
        ensures
            final(self)@ == old(self)@.insert(key@, profile@),
    {
        proof {
            use_type_invariant(&*self);
        }
        let ghost before = self.pairs();
        let found = self.position(key.as_str());
        let mut entries: Vec<CacheEntry> = Vec::new();
        core::mem::swap(&mut self.entries, &mut entries);
        match found {
            Some(i) => {
                proof {
                    lemma_stored_update(before, i as int, profile@);
                }
                entries.set(i, CacheEntry { key, profile });
                assert(entry_pairs(entries@) =~= before.update(i as int, (key@, profile@)));
                self.entries = entries;
            },
            None => {
                proof {
                    lemma_distinct_push(before, (key@, profile@));
                }
                entries.push(CacheEntry { key, profile });
                assert(entry_pairs(entries@) =~= before.push((key@, profile@)));
                self.entries = entries;
            },
        }
    }
}

/// The entries of a list of keyed profiles, as mathematical pairs.
pub open spec fn entry_views(list: Seq<(String, UserMetadata)>) -> Seq<Entry> {
    Seq::new(list.len(), |i: int| (list[i].0@, list[i].1@))
}

impl MetadataCache {
    /// The cache that holds the given keyed profiles, stored one after the
    /// other: of two with the same key the later one stays.
    pub fn from_entries(list: &Vec<(String, UserMetadata)>) -> (r: MetadataCache)
        ensures
            r@ == stored(entry_views(list@)),
    {
        let mut cache = MetadataCache::new();
        let mut i: usize = 0;
        while i < list.len()
            invariant
                i <= list.len(),
                cache@ == stored(entry_views(list@).take(i as int)),
            decreases list.len() - i,
        {
            let ghost all = entry_views(list@);
            assert(all.take(i + 1).drop_last() =~= all.take(i as int));
            cache.put_under(list[i].0.clone(), list[i].1.clone());
            i = i + 1;
        }
        assert(entry_views(list@).take(i as int) =~= entry_views(list@));
        cache
    }

    /// Every stored profile with its key, for writing the whole cache out.
    /// Storing the result one after the other gives this cache again.
    pub fn entries(&self) -> (r: Vec<(String, UserMetadata)>)
        ensures
            stored(entry_views(r@)) == self@,
            distinct_keys(entry_views(r@)),
            r@.len() == self@.len(),
    {
        proof {
            use_type_invariant(self);
            lemma_stored_len(self.pairs());
        }
        let mut out: Vec<(String, UserMetadata)> = Vec::new();
        let mut i: usize = 0;
        while i < self.entries.len()
            invariant
                i <= self.entries@.len(),
                entry_views(out@) == self.pairs().take(i as int),
            decreases self.entries@.len() - i,
        {
            out.push((self.entries[i].key.clone(), self.entries[i].profile.clone()));
            assert(self.pairs().take(i + 1) =~= self.pairs().take(i as int).push(
                self.pairs()[i as int],
            ));
            i = i + 1;
        }
        assert(self.pairs().take(i as int) =~= self.pairs());
        out
    }

    /// Decides how a request for the profile of `pubkey` at `now` (seconds
    /// since the epoch) is answered: from the cache when it holds a profile
    /// that is not stale, else by asking the network.
    pub fn plan_fetch(&self, pubkey: &Identity, now: u64) -> (r: FetchPlan)
        ensures
            match r {
                FetchPlan::Cached(p) => fresh_entry(self@, npub_text(pubkey@), now) == Some(p@),
                FetchPlan::Fetch => fresh_entry(self@, npub_text(pubkey@), now) is None,
            },
    {
        match self.get(pubkey) {
            Some(p) => {
                if p.needs_refresh(now) {
                    FetchPlan::Fetch
                } else {
                    FetchPlan::Cached(p)
                }
            },
            None => FetchPlan::Fetch,
        }
    }

    /// Stores what the network answered at `now` when it was asked for the
    /// profile of `pubkey`, and returns the stored profile. `found` is `None`
    /// when the network gave no profile, failed or took too long: then an
    /// empty profile is stored, so that the network is not asked again while
    /// that profile is fresh.
    pub fn store_fetched(&mut self, pubkey: &Identity, found: Option<ProfileAttributes>, now: u64)
        -> (r: UserMetadata)
        ensures
            r@ == fetched_profile(npub_text(pubkey@), found_view(found), now),
            final(self)@ == old(self)@.insert(npub_text(pubkey@), r@),
            best_name(r@).len() > 0,
    {
        let profile = match found {
            Some(attributes) => UserMetadata::from_metadata(pubkey, attributes, now),
            None => {
                let mut empty = UserMetadata::new(pubkey);
                empty.last_updated = now;
                empty
            },
        };
        self.put(profile.clone());
        profile
    }
}

/// A profile that was fetched is not fetched again while it is fresh: after
/// the answer to a request at `then` is stored, a request for the same key at
/// any `now` up to one lifetime later is answered from the cache, with the
/// stored profile, whatever the network had answered.
pub proof fn lemma_fetched_once(
    cache: Map<Seq<char>, ProfileView>,
    key: Seq<char>,
    found: Option<AttributesView>,
    then: u64,
    now: u64,
)
    requires
        now <= then + CACHE_LIFETIME_SECS,
    ensures
        fresh_entry(cache.insert(key, fetched_profile(key, found, then)), key, now) == Some(
            fetched_profile(key, found, then),
        ),
{
}

/// A stored profile younger than one lifetime answers the request: the
/// network is not asked.
pub proof fn lemma_fresh_is_cached(cache: Map<Seq<char>, ProfileView>, key: Seq<char>, now: u64)
    requires
        cache.contains_key(key),
        now <= cache[key].last_updated + CACHE_LIFETIME_SECS,
    ensures
        fresh_entry(cache, key, now) == Some(cache[key]),
{
}

} // verus!
