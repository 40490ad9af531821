//! The key that names a participant of the encrypted network.
//!
//! An [`Identity`] is the 32 bytes of a public key. Its text forms are produced
//! and read by `nostr_sdk`; the results of those calls are named by the
//! uninterpreted functions below, so that contracts can speak of them.

use vstd::prelude::*;
use vstd::std_specs::cmp::PartialEqSpecImpl;
use nostr_sdk::prelude::FromBech32;
use nostr_sdk::prelude::PublicKey;
use nostr_sdk::prelude::ToBech32;
use crate::text::has_prefix;
use crate::text::starts_with;

verus! {

/// A participant's public key.
#[derive(Clone, Copy, Debug, Eq, Hash)]
pub struct Identity {
    bytes: [u8; 32],
}

impl View for Identity {
    type V = Seq<u8>;

    closed spec fn view(&self) -> Seq<u8> {
        self.bytes@
    }
}

impl PartialEq for Identity {
    fn eq(&self, other: &Identity) -> (r: bool) {
        let mut i: usize = 0;
        while i < 32
            invariant
                i <= 32,
                forall|j: int| 0 <= j < i ==> self.bytes@[j] == other.bytes@[j],
            decreases 32 - i,
        {
            if self.bytes[i] != other.bytes[i] {
                return false;
            }
            i = i + 1;
        }
        assert(self.bytes@ =~= other.bytes@);
        true
    }
}

impl PartialEqSpecImpl for Identity {
    open spec fn obeys_eq_spec() -> bool {
        true
    }

    open spec fn eq_spec(&self, other: &Identity) -> bool {
        self@ == other@
    }
}

impl Identity {
    /// The identity with the given key bytes.
    pub fn from_bytes(bytes: [u8; 32]) -> (r: Identity)
        ensures
            r@ == bytes@,
    {
        Identity { bytes }
    }

    /// The key bytes.
    pub fn to_bytes(&self) -> (r: [u8; 32])
        ensures
            r@ == self@,
            self@.len() == 32,
    {
        self.bytes
    }
}

/// The text that `nostr_sdk` writes for a key in its `npub` form.
pub uninterp spec fn npub_text(key: Seq<u8>) -> Seq<char>;

/// The key that `nostr_sdk` reads from a bech32 text, if it reads one.
pub uninterp spec fn bech32_key(text: Seq<char>) -> Option<Seq<u8>>;

/// The key that `nostr_sdk` reads from a hexadecimal text, if it reads one.
pub uninterp spec fn hex_key(text: Seq<char>) -> Option<Seq<u8>>;

/// Calls `ToBech32::to_bech32` of `nostr_sdk` on the public key with these
/// bytes. Trusted: the result is the text named [`npub_text`], and it begins
/// with the human-readable part `npub`. The call cannot fail for a public key.
#[verifier::external_body]
fn encode_npub(key: &Identity) -> (r: String)
    ensures
        r@ == npub_text(key@),
        has_prefix(r@, "npub"@),
{
    match PublicKey::from_byte_array(key.bytes).to_bech32() {
        Ok(text) => text,
        Err(never) => match never {},
    }
}

/// Calls `FromBech32::from_bech32` of `nostr_sdk` for a public key. Trusted:
/// the outcome is the one named [`bech32_key`]; an error of the call is `None`.
#[verifier::external_body]
fn decode_bech32(text: &str) -> (r: Option<Identity>)
    ensures
        match r {
            Some(key) => bech32_key(text@) == Some(key@),
            None => bech32_key(text@) is None,
        },
{
    match PublicKey::from_bech32(text) {
        Ok(key) => Some(Identity { bytes: key.to_bytes() }),
        Err(_) => None,
    }
}

/// Calls `PublicKey::from_hex` of `nostr_sdk`. Trusted: the outcome is the one
/// named [`hex_key`]; an error of the call is `None`.
#[verifier::external_body]
fn decode_hex(text: &str) -> (r: Option<Identity>)
    ensures
        match r {
            Some(key) => hex_key(text@) == Some(key@),
            None => hex_key(text@) is None,
        },
{
    match PublicKey::from_hex(text) {
        Ok(key) => Some(Identity { bytes: key.to_bytes() }),
        Err(_) => None,
    }
}

impl Identity {
    /// The canonical text form of the identity.
    pub fn to_bech32(&self) -> (r: String)
        ensures
            r@ == npub_text(self@),
            has_prefix(r@, "npub"@),
            r@.len() >= 4,
    {
        let r = encode_npub(self);
        proof {
            reveal_strlit("npub");
        }
        r
    }
}

/// Why a text is not a key.
#[derive(Clone, Copy, Debug, PartialEq, Eq, Structural)]
pub enum KeyError {
    /// The text begins with `npub` and is no valid bech32 key.
    InvalidBech32,
    /// The text is no valid hexadecimal key.
    InvalidHex,
}

impl KeyError {
    /// A short description of the error.
    pub fn message(&self) -> (r: String)
        ensures
            r@ == match *self {
                KeyError::InvalidBech32 => "Invalid bech32 pubkey"@,
                KeyError::InvalidHex => "Invalid hex pubkey"@,
            },
    {
        match self {
            KeyError::InvalidBech32 => String::from_str("Invalid bech32 pubkey"),
            KeyError::InvalidHex => String::from_str("Invalid hex pubkey"),
        }
    }
}

/// The key that a text stands for: a text that begins with `npub` is read as
/// bech32, any other as hexadecimal.
pub open spec fn key_of_text(text: Seq<char>) -> Option<Seq<u8>> {
    if has_prefix(text, "npub"@) {
        bech32_key(text)
    } else {
        hex_key(text)
    }
}

/// Reads a key from its bech32 or hexadecimal form.
pub fn parse_pubkey(key_str: &str) -> (r: Result<Identity, KeyError>)
    ensures
        match r {
            Ok(key) => key_of_text(key_str@) == Some(key@),
            Err(e) => key_of_text(key_str@) is None && e == (if has_prefix(key_str@, "npub"@) {
                KeyError::InvalidBech32
            } else {
                KeyError::InvalidHex
            }),
        },
{
    if starts_with(key_str, "npub") {
        match decode_bech32(key_str) {
            Some(key) => Ok(key),
            None => Err(KeyError::InvalidBech32),
        }
    } else {
        match decode_hex(key_str) {
            Some(key) => Ok(key),
            None => Err(KeyError::InvalidHex),
        }
    }
}

} // verus!
