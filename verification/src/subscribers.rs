//! The registry of identities that receive what is said in the chat channel.
//!
//! The registry is a set of identities. On disk it is a text with the
//! canonical form of one identity per line.

use vstd::prelude::*;
use crate::identity::key_of_text;
use crate::identity::npub_text;
use crate::identity::parse_pubkey;
use crate::identity::Identity;
use crate::text::is_blank;
use crate::text::lemma_trimmed_idempotent;
use crate::text::lines;
use crate::text::split_lines;
use crate::text::trim;
use crate::text::trimmed;

verus! {

/// The registry after `key` is added to `set`, and whether `key` is new.
pub open spec fn added(set: Set<Seq<u8>>, key: Seq<u8>) -> (Set<Seq<u8>>, bool) {
    (set.insert(key), !set.contains(key))
}

/// The registry after `key` is removed from `set`, and whether `key` was in it.
pub open spec fn removed(set: Set<Seq<u8>>, key: Seq<u8>) -> (Set<Seq<u8>>, bool) {
    (set.remove(key), set.contains(key))
}

/// The key that one line of a subscriber file stands for: a line of white
/// space stands for none, any other line for the key that its text, trimmed,
/// is read as, if it is read as one.
pub open spec fn line_key(line: Seq<char>) -> Option<Seq<u8>> {
    if trimmed(line).len() == 0 {
        None
    } else {
        key_of_text(trimmed(line))
    }
}

/// The keys that the lines of a subscriber file stand for.
pub open spec fn keys_in(lines: Seq<Seq<char>>) -> Set<Seq<u8>> {
    Set::new(|key: Seq<u8>| exists|i: int| 0 <= i < lines.len() && #[trigger] line_key(lines[i]) == Some(key))
}

/// The text of a subscriber file with the given keys: the canonical form of
/// each, in order, each followed by a line feed.
pub open spec fn rendered(keys: Seq<Seq<u8>>) -> Seq<char>
    decreases keys.len(),
{
    if keys.len() == 0 {
        Seq::empty()
    } else {
        rendered(keys.drop_last()) + npub_text(keys.last()) + seq!['\n']
    }
}

spec fn key_views(keys: Seq<Identity>) -> Seq<Seq<u8>> {
    Seq::new(keys.len(), |i: int| keys[i]@)
}

proof fn lemma_push_new(s: Seq<Seq<u8>>, key: Seq<u8>)
    requires
        s.no_duplicates(),
        !s.contains(key),
    ensures
        s.push(key).no_duplicates(),
        s.push(key).to_set() == s.to_set().insert(key),
{
    let t = s.push(key);
    assert forall|k: Seq<u8>| t.to_set().contains(k) <==> s.to_set().insert(key).contains(k) by {
        if t.contains(k) {
            let i = choose|i: int| 0 <= i < t.len() && t[i] == k;
            if i < s.len() {
                assert(s[i] == k);
            }
        }
        if s.contains(k) {
            let i = choose|i: int| 0 <= i < s.len() && s[i] == k;
            assert(t[i] == k);
        }
        if k == key {
            assert(t[s.len() as int] == k);
        }
    }
    assert(t.to_set() =~= s.to_set().insert(key));
}

proof fn lemma_remove_at(s: Seq<Seq<u8>>, at: int)
    requires
        s.no_duplicates(),
        0 <= at < s.len(),
    ensures
        s.remove(at).no_duplicates(),
        s.remove(at).to_set() == s.to_set().remove(s[at]),
{
    let t = s.remove(at);
    assert forall|k: Seq<u8>| t.to_set().contains(k) <==> s.to_set().remove(s[at]).contains(k) by {
        if t.contains(k) {
            let i = choose|i: int| 0 <= i < t.len() && t[i] == k;
            assert(s[if i < at { i } else { i + 1 }] == k);
        }
        if s.contains(k) && k != s[at] {
            let i = choose|i: int| 0 <= i < s.len() && s[i] == k;
            assert(t[if i < at { i } else { i - 1 }] == k);
        }
    }
    assert(t.to_set() =~= s.to_set().remove(s[at]));
}

/// The set of identities that are subscribed.
pub struct SubscriberList {
    keys: Vec<Identity>,
}

impl SubscriberList {
    /// The subscribed keys in the order in which they are kept: that of
    /// their subscription.
    pub closed spec fn order(&self) -> Seq<Seq<u8>> {
        key_views(self.keys@)
    }

    #[verifier::type_invariant]
    spec fn no_key_twice(&self) -> bool {
        self.order().no_duplicates()
    }
}

impl View for SubscriberList {
    type V = Set<Seq<u8>>;

    closed spec fn view(&self) -> Set<Seq<u8>> {
        self.order().to_set()
    }
}

impl SubscriberList {
    /// The registry without subscribers.
    pub fn new() -> (r: SubscriberList)
        ensures
            r@ == Set::<Seq<u8>>::empty(),
            r.order() == Seq::<Seq<u8>>::empty(),
    {
        let r = SubscriberList { keys: Vec::new() };
        r
    }

    /// The order holds each subscribed key once, and no other.
    pub proof fn lemma_order(&self)
        requires
            self.order().no_duplicates(),
        ensures
            self.order().to_set() == self@,
            self@.finite(),
            self@.len() == self.order().len(),
    {
        self.order().unique_seq_to_set();
    }

    fn position(&self, pubkey: &Identity) -> (r: Option<usize>)
        ensures
            match r {
                Some(i) => i < self.keys@.len() && self.order()[i as int] == pubkey@,
                None => !self@.contains(pubkey@),
            },
    {
        let mut i: usize = 0;
        while i < self.keys.len()
            invariant
                i <= self.keys@.len(),
                forall|j: int| 0 <= j < i ==> self.order()[j] != pubkey@,
            decreases self.keys@.len() - i,
        {
            if self.keys[i] == *pubkey {
                return Some(i);
            }
            i = i + 1;
        }
        None
    }

    /// Number of subscribers.
    pub fn len(&self) -> (r: usize)
        ensures
            self@.finite(),
            r == self@.len(),
            r == self.order().len(),
    {
        proof {
            use_type_invariant(self);
            self.lemma_order();
        }
        self.keys.len()
    }

    /// True when `pubkey` is subscribed.
    pub fn contains(&self, pubkey: &Identity) -> (r: bool)
        ensures
            r == self@.contains(pubkey@),
    {
        self.position(pubkey).is_some()
    }

    /// Subscribes `pubkey`. Returns true when it was not subscribed before:
    /// then the registry has changed and is to be written out.
    pub fn add(&mut self, pubkey: Identity) -> (r: bool)
        ensures
            (final(self)@, r) == added(old(self)@, pubkey@),
            final(self).order() == if r {
                old(self).order().push(pubkey@)
            } else {
                old(self).order()
            },
    {
        proof {
            use_type_invariant(&*self);
        }
        let ghost before = self.order();
        match self.position(&pubkey) {
            Some(_) => {
                assert(before.to_set().insert(pubkey@) =~= before.to_set());
                false
            },
            None => {
                let mut keys: Vec<Identity> = Vec::new();
                core::mem::swap(&mut self.keys, &mut keys);
                keys.push(pubkey);
                proof {
                    lemma_push_new(before, pubkey@);
                    assert(key_views(keys@) =~= before.push(pubkey@));
                }
                self.keys = keys;
                true
            },
        }
    }

    /// Ends the subscription of `pubkey`. Returns true when it was
    /// subscribed: then the registry has changed and is to be written out.
    pub fn remove(&mut self, pubkey: &Identity) -> (r: bool)
        ensures
            (final(self)@, r) == removed(old(self)@, pubkey@),
    {
        proof {
            use_type_invariant(&*self);
        }
        let ghost before = self.order();
        match self.position(pubkey) {
            Some(i) => {
                let mut keys: Vec<Identity> = Vec::new();
                core::mem::swap(&mut self.keys, &mut keys);
                keys.remove(i);
                proof {
                    lemma_remove_at(before, i as int);
                    assert(key_views(keys@) =~= before.remove(i as int));
                }
                self.keys = keys;
                true
            },
            None => {
                assert(before.to_set().remove(pubkey@) =~= before.to_set());
                false
            },
        }
    }

    /// A copy of the subscribers, in the order of their subscription, each
    /// once.
    pub fn get_all(&self) -> (r: Vec<Identity>)
        ensures
            r@.len() == self.order().len(),
            forall|i: int| 0 <= i < r@.len() ==> (#[trigger] r@[i])@ == self.order()[i],
            self.order().no_duplicates(),
            self.order().to_set() == self@,
    {
        proof {
            use_type_invariant(self);
        }
        let mut out: Vec<Identity> = Vec::new();
        let mut i: usize = 0;
        while i < self.keys.len()
            invariant
                i <= self.keys@.len(),
                out@.len() == i,
                forall|j: int| 0 <= j < i ==> (#[trigger] out@[j])@ == self.order()[j],
            decreases self.keys@.len() - i,
        {
            out.push(self.keys[i]);
            i = i + 1;
        }
        out
    }
}

proof fn lemma_keys_in_step(lines: Seq<Seq<char>>, i: int)
    requires
        0 <= i < lines.len(),
    ensures
        keys_in(lines.take(i + 1)) == match line_key(lines[i]) {
            Some(key) => keys_in(lines.take(i)).insert(key),
            None => keys_in(lines.take(i)),
        },
{
    let short = lines.take(i);
    let long = lines.take(i + 1);
    let expected = match line_key(lines[i]) {
        Some(key) => keys_in(short).insert(key),
        None => keys_in(short),
    };
    assert forall|key: Seq<u8>| keys_in(long).contains(key) <==> expected.contains(key) by {
        if keys_in(long).contains(key) {
            let j = choose|j: int| 0 <= j < long.len() && #[trigger] line_key(long[j]) == Some(key);
            assert(j < i ==> line_key(short[j]) == Some(key));
        }
        if keys_in(short).contains(key) {
            let j = choose|j: int| 0 <= j < short.len() && #[trigger] line_key(short[j]) == Some(key);
            assert(line_key(long[j]) == Some(key));
        }
        if line_key(lines[i]) == Some(key) {
            assert(line_key(long[i]) == Some(key));
        }
    }
    assert(keys_in(long) =~= expected);
}

impl SubscriberList {
    /// Reads the registry from the text of a subscriber file. Blank lines
    /// and lines that are no key are passed over.
    pub fn from_text(contents: &str) -> (r: SubscriberList)
        ensures
            r@ == keys_in(split_lines(contents@)),
    {
        let all = lines(contents);
        let ghost texts = split_lines(contents@);
        let mut list = SubscriberList::new();
        let mut i: usize = 0;
        while i < all.len()
            invariant
                all.deep_view() == texts,
                i <= all.len(),
                list@ == keys_in(texts.take(i as int)),
            decreases all.len() - i,
        {
            proof {
                lemma_keys_in_step(texts, i as int);
                lemma_trimmed_idempotent(all@[i as int]@);
            }
            let line = trim(all[i].as_str());
            if !is_blank(line.as_str()) {
                match parse_pubkey(line.as_str()) {
                    Ok(key) => {
                        list.add(key);
                    },
                    Err(_) => {},
                }
            }
            i = i + 1;
        }
        assert(texts.take(i as int) =~= texts);
        list
    }

    /// The text of the subscriber file for this registry: one line for each
    /// subscriber, in the order of their subscription.
    pub fn to_text(&self) -> (r: String)
        ensures
            r@ == rendered(self.order()),
    {
        let mut out = String::new();
        let mut i: usize = 0;
        while i < self.keys.len()
            invariant
                i <= self.keys@.len(),
                self.order().len() == self.keys@.len(),
                out@ == rendered(self.order().take(i as int)),
            decreases self.keys@.len() - i,
        {
            let line = self.keys[i].to_bech32();
            proof {
                reveal_strlit("\n");
                assert(self.order().take(i + 1).drop_last() =~= self.order().take(i as int));
            }
            out.append(line.as_str());
            out.append("\n");
            i = i + 1;
        }
        assert(self.order().take(i as int) =~= self.order());
        out
    }
}

/// A key that was added is subscribed, and one that was removed is not.
pub proof fn lemma_add_remove_contains(set: Set<Seq<u8>>, key: Seq<u8>)
    ensures
        added(set, key).0.contains(key),
        !removed(set, key).0.contains(key),
{
}

/// Adding a key a second time reports that it was there already, and changes
/// nothing. The first addition reports a new key exactly when the key was not
/// subscribed before it.
pub proof fn lemma_add_twice(set: Set<Seq<u8>>, key: Seq<u8>)
    ensures
        added(set, key).1 == !set.contains(key),
        !added(added(set, key).0, key).1,
        added(added(set, key).0, key).0 == added(set, key).0,
{
}

/// Reading the lines of a subscriber file gives exactly the keys of its
/// valid lines: a line that is blank or no key adds nothing and takes nothing
/// away, wherever it stands.
pub proof fn lemma_invalid_lines_ignored(lines: Seq<Seq<char>>, i: int)
    requires
        0 <= i < lines.len(),
        line_key(lines[i]) is None,
    ensures
        keys_in(lines) == keys_in(lines.remove(i)),
{
    let rest = lines.remove(i);
    assert forall|key: Seq<u8>| keys_in(lines).contains(key) <==> keys_in(rest).contains(key) by {
        if keys_in(lines).contains(key) {
            let j = choose|j: int| 0 <= j < lines.len() && #[trigger] line_key(lines[j]) == Some(key);
            let j1 = if j < i { j } else { j - 1 };
            assert(line_key(rest[j1]) == Some(key));
        }
        if keys_in(rest).contains(key) {
            let j = choose|j: int| 0 <= j < rest.len() && #[trigger] line_key(rest[j]) == Some(key);
            let j0 = if j < i { j } else { j + 1 };
            assert(line_key(lines[j0]) == Some(key));
        }
    }
    assert(keys_in(lines) =~= keys_in(rest));
}

} // verus!
