//! The settings of the bridge, checked and brought into shape.
//!
//! The settings arrive as optional texts, as an environment holds them. What
//! is required must be there, the channel identifier must be a number, and
//! the relay list is cut at its commas.

use vstd::prelude::*;
use crate::metadata::text_view;
use crate::text::chars_of;
use crate::text::split;
use crate::text::split_on;
use crate::text::trim;
use crate::text::trimmed;

verus! {

/// The value of a decimal digit.
pub open spec fn digit_value(c: char) -> Option<nat> {
    if '0' <= c && c <= '9' {
        Some((c as u32 - '0' as u32) as nat)
    } else {
        None
    }
}

/// The number that a text of decimal digits stands for. A text with anything
/// but digits in it, and the empty text, stands for none.
pub open spec fn decimal(s: Seq<char>) -> Option<nat>
    decreases s.len(),
{
    if s.len() == 0 {
        None
    } else if s.len() == 1 {
        digit_value(s[0])
    } else {
        match (decimal(s.drop_last()), digit_value(s.last())) {
            (Some(high), Some(low)) => Some(high * 10 + low),
            _ => None,
        }
    }
}

/// The `u64` that a text is read as: decimal digits, after one optional
/// plus sign, whose number fits.
pub open spec fn number_of(s: Seq<char>) -> Option<u64> {
    let digits = if s.len() > 0 && s[0] == '+' {
        s.drop_first()
    } else {
        s
    };
    match decimal(digits) {
        Some(n) => if n <= u64::MAX {
            Some(n as u64)
        } else {
            None
        },
        None => None,
    }
}

proof fn lemma_decimal_grows(s: Seq<char>, i: int)
    requires
        1 <= i <= s.len(),
        decimal(s) is Some,
    ensures
        decimal(s.take(i)) is Some,
        decimal(s.take(i))->0 <= decimal(s)->0,
    decreases s.len(),
{
    if i == s.len() {
        assert(s.take(i) =~= s);
    } else {
        lemma_decimal_grows(s.drop_last(), i);
        assert(s.drop_last().take(i) =~= s.take(i));
    }
}

/// Reads a `u64` from its decimal text.
pub fn parse_u64(s: &str) -> (r: Option<u64>)
    ensures
        r == number_of(s@),
{
    let v = chars_of(s);
    let n: usize = v.len();
    let start: usize = if n > 0 && v[0] == '+' {
        1
    } else {
        0
    };
    let ghost digits = v@.subrange(start as int, n as int);
    if start == n {
        return None;
    }
    let mut acc: u64 = 0;
    let mut i: usize = start;
    while i < n
        invariant
            n == v.len(),
            start <= i <= n,
            start < n,
            v@ == s@,
            digits == v@.subrange(start as int, n as int),
            digits == (if s@.len() > 0 && s@[0] == '+' {
                s@.drop_first()
            } else {
                s@
            }),
            i > start ==> decimal(digits.take(i - start)) == Some(acc as nat),
            i == start ==> acc == 0,
        decreases n - i,
    {
        let c = v[i];
        let ghost k = i - start;
        proof {
            assert(digits.take(k + 1).drop_last() =~= digits.take(k));
            assert(decimal(digits.take(k + 1)) == if k == 0 {
                digit_value(c)
            } else {
                match (decimal(digits.take(k)), digit_value(c)) {
                    (Some(high), Some(low)) => Some(high * 10 + low),
                    _ => None,
                }
            });
        }
        if !('0' <= c && c <= '9') {
            proof {
                if decimal(digits) is Some {
                    lemma_decimal_grows(digits, k + 1);
                }
            }
            return None;
        }
        let d: u64 = (c as u32 - '0' as u32) as u64;
        if acc > (u64::MAX - d) / 10 {
            proof {
                if decimal(digits) is Some {
                    lemma_decimal_grows(digits, k + 1);
                }
            }
            return None;
        }
        acc = acc * 10 + d;
        i = i + 1;
    }
    assert(digits.take(n - start) =~= digits);
    Some(acc)
}

/// The settings as they are found, each present or not.
#[derive(Debug, PartialEq, Eq)]
pub struct Settings {
    pub discord_token: Option<String>,
    pub discord_channel_id: Option<String>,
    pub nostr_private_key: Option<String>,
    pub nostr_relays: Option<String>,
    pub subscribers_file: Option<String>,
    pub metadata_cache_file: Option<String>,
    /// The path of the file `metadata_cache.json` beside the subscriber
    /// file, where there is a subscriber file.
    pub metadata_cache_sibling: Option<String>,
}

/// The mathematical content of [`Settings`].
pub struct SettingsView {
    pub discord_token: Option<Seq<char>>,
    pub discord_channel_id: Option<Seq<char>>,
    pub nostr_private_key: Option<Seq<char>>,
    pub nostr_relays: Option<Seq<char>>,
    pub subscribers_file: Option<Seq<char>>,
    pub metadata_cache_file: Option<Seq<char>>,
    pub metadata_cache_sibling: Option<Seq<char>>,
}

impl View for Settings {
    type V = SettingsView;

    open spec fn view(&self) -> SettingsView {
        SettingsView {
            discord_token: text_view(self.discord_token),
            discord_channel_id: text_view(self.discord_channel_id),
            nostr_private_key: text_view(self.nostr_private_key),
            nostr_relays: text_view(self.nostr_relays),
            subscribers_file: text_view(self.subscribers_file),
            metadata_cache_file: text_view(self.metadata_cache_file),
            metadata_cache_sibling: text_view(self.metadata_cache_sibling),
        }
    }
}

/// The checked settings of the bridge.
#[derive(Debug, PartialEq, Eq)]
pub struct Config {
    pub discord_token: String,
    pub discord_channel_id: u64,
    pub nostr_private_key: String,
    pub nostr_relays: Vec<String>,
    pub subscribers_file: Option<String>,
    pub metadata_cache_file: Option<String>,
}

/// The mathematical content of a [`Config`].
pub struct ConfigView {
    pub discord_token: Seq<char>,
    pub discord_channel_id: u64,
    pub nostr_private_key: Seq<char>,
    pub nostr_relays: Seq<Seq<char>>,
    pub subscribers_file: Option<Seq<char>>,
    pub metadata_cache_file: Option<Seq<char>>,
}

impl View for Config {
    type V = ConfigView;

    open spec fn view(&self) -> ConfigView {
        ConfigView {
            discord_token: self.discord_token@,
            discord_channel_id: self.discord_channel_id,
            nostr_private_key: self.nostr_private_key@,
            nostr_relays: self.nostr_relays.deep_view(),
            subscribers_file: text_view(self.subscribers_file),
            metadata_cache_file: text_view(self.metadata_cache_file),
        }
    }
}

/// What is wrong with the settings.
#[derive(Clone, Copy, Debug, PartialEq, Eq, Structural)]
pub enum ConfigError {
    MissingDiscordToken,
    MissingChannelId,
    InvalidChannelId,
    MissingPrivateKey,
    MissingRelays,
}

/// The text of a configuration error.
pub open spec fn error_text(e: ConfigError) -> Seq<char> {
    match e {
        ConfigError::MissingDiscordToken => "Expected DISCORD_TOKEN in the environment"@,
        ConfigError::MissingChannelId => "Expected DISCORD_CHANNEL_ID in the environment"@,
        ConfigError::InvalidChannelId => "DISCORD_CHANNEL_ID must be a valid u64"@,
        ConfigError::MissingPrivateKey => "Expected NOSTR_PRIVATE_KEY in the environment"@,
        ConfigError::MissingRelays => "Expected NOSTR_RELAYS in the environment"@,
    }
}

impl ConfigError {
    /// The text of the error.
    pub fn message(&self) -> (r: String)
        ensures
            r@ == error_text(*self),
    {
        match self {
            ConfigError::MissingDiscordToken => String::from_str(
                "Expected DISCORD_TOKEN in the environment",
            ),
            ConfigError::MissingChannelId => String::from_str(
                "Expected DISCORD_CHANNEL_ID in the environment",
            ),
            ConfigError::InvalidChannelId => String::from_str(
                "DISCORD_CHANNEL_ID must be a valid u64",
            ),
            ConfigError::MissingPrivateKey => String::from_str(
                "Expected NOSTR_PRIVATE_KEY in the environment",
            ),
            ConfigError::MissingRelays => String::from_str(
                "Expected NOSTR_RELAYS in the environment",
            ),
        }
    }
}

/// The relay endpoints of a comma-separated list: its segments, trimmed. An
/// empty segment is an empty endpoint.
pub open spec fn relay_list(s: Seq<char>) -> Seq<Seq<char>> {
    Seq::new(split_on(s, ',').len(), |i: int| trimmed(split_on(s, ',')[i]))
}

/// Cuts a comma-separated relay list into its endpoints.
pub fn parse_relays(s: &str) -> (r: Vec<String>)
    ensures
        r.deep_view() == relay_list(s@),
{
    let parts = split(s, ',');
    let mut out: Vec<String> = Vec::new();
    let mut i: usize = 0;
    while i < parts.len()
        invariant
            parts.deep_view() == split_on(s@, ','),
            i <= parts.len(),
            out.deep_view() == relay_list(s@).take(i as int),
        decreases parts.len() - i,
    {
        let item = trim(parts[i].as_str());
        assert(relay_list(s@).take(i + 1) =~= relay_list(s@).take(i as int).push(item@));
        out.push(item);
        i = i + 1;
    }
    out
}

/// The file of the metadata cache: the one that is set, else the file beside
/// the subscriber file where there is a subscriber file, else none.
pub open spec fn cache_file(s: SettingsView) -> Option<Seq<char>> {
    if s.metadata_cache_file is Some {
        s.metadata_cache_file
    } else if s.subscribers_file is Some {
        s.metadata_cache_sibling
    } else {
        None
    }
}

/// The checked settings, or the first thing that is wrong with them, in the
/// order: chat token, channel identifier, private key, relay list.
pub open spec fn configured(s: SettingsView) -> Result<ConfigView, ConfigError> {
    if s.discord_token is None {
        Err(ConfigError::MissingDiscordToken)
    } else if s.discord_channel_id is None {
        Err(ConfigError::MissingChannelId)
    } else if number_of(s.discord_channel_id->0) is None {
        Err(ConfigError::InvalidChannelId)
    } else if s.nostr_private_key is None {
        Err(ConfigError::MissingPrivateKey)
    } else if s.nostr_relays is None {
        Err(ConfigError::MissingRelays)
    } else {
        Ok(
            ConfigView {
                discord_token: s.discord_token->0,
                discord_channel_id: number_of(s.discord_channel_id->0)->0,
                nostr_private_key: s.nostr_private_key->0,
                nostr_relays: relay_list(s.nostr_relays->0),
                subscribers_file: s.subscribers_file,
                metadata_cache_file: cache_file(s),
            },
        )
    }
}

impl Config {
    /// Checks the settings and brings them into shape.
    pub fn new(settings: Settings) -> (r: Result<Config, ConfigError>)
        ensures
            match r {
                Ok(c) => configured(settings@) == Ok::<ConfigView, ConfigError>(c@),
                Err(e) => configured(settings@) == Err::<ConfigView, ConfigError>(e),
            },
    {
        let discord_token = match settings.discord_token {
            Some(t) => t,
            None => {
                return Err(ConfigError::MissingDiscordToken);
            },
        };
        let channel_text = match settings.discord_channel_id {
            Some(t) => t,
            None => {
                return Err(ConfigError::MissingChannelId);
            },
        };
        let discord_channel_id = match parse_u64(channel_text.as_str()) {
            Some(n) => n,
            None => {
                return Err(ConfigError::InvalidChannelId);
            },
        };
        let nostr_private_key = match settings.nostr_private_key {
            Some(t) => t,
            None => {
                return Err(ConfigError::MissingPrivateKey);
            },
        };
        let relays_text = match settings.nostr_relays {
            Some(t) => t,
            None => {
                return Err(ConfigError::MissingRelays);
            },
        };
        let nostr_relays = parse_relays(relays_text.as_str());
        let metadata_cache_file = match settings.metadata_cache_file {
            Some(path) => Some(path),
            None => match &settings.subscribers_file {
                Some(_) => settings.metadata_cache_sibling,
                None => None,
            },
        };
        Ok(
            Config {
                discord_token,
                discord_channel_id,
                nostr_private_key,
                nostr_relays,
                subscribers_file: settings.subscribers_file,
                metadata_cache_file,
            },
        )
    }
}

} // verus!
