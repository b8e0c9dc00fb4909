//! The profile record: a name, the provider's endpoint, and the description
//! of where the secret is kept. The secret itself is no part of it.

use crate::text::{place_of, Place};
use vstd::prelude::*;

verus! {

/// A named provider configuration.
#[derive(Debug, Clone)]
pub struct Profile {
    pub name: String,
    pub provider: ProviderConfig,
}

/// The endpoint of a provider and what is needed to talk to it.
#[derive(Debug, Clone)]
pub struct ProviderConfig {
    pub base_url: String,
    pub model: String,
    pub small_fast_model: Option<String>,
    pub auth_token_source: CredentialSource,
    /// Further environment settings, as pairs of key and value. The pairs are
    /// read as a mapping: their order does not count, and where a key stands
    /// twice the later pair holds.
    pub extra_env: Vec<(String, String)>,
}

/// Where the authentication token is to be found at the moment of use.
#[derive(Debug, Clone)]
pub enum CredentialSource {
    /// In the secret store of the operating system, under this service.
    Keychain { service: String },
    /// In this variable of the process environment.
    Environment { var_name: String },
    /// In the encrypted file at this path.
    Encrypted { path: String },
}

pub enum CredentialSourceView {
    Keychain { service: Seq<char> },
    Environment { var_name: Seq<char> },
    Encrypted { path: Seq<char> },
}

pub struct ProviderConfigView {
    pub base_url: Seq<char>,
    pub model: Seq<char>,
    pub small_fast_model: Option<Seq<char>>,
    pub auth_token_source: CredentialSourceView,
    pub extra_env: Map<Seq<char>, Seq<char>>,
}

pub struct ProfileView {
    pub name: Seq<char>,
    pub provider: ProviderConfigView,
}

/// The mapping that a sequence of pairs stands for: each key with the value
/// of the last pair that holds it.
pub open spec fn pairs_map(pairs: Seq<(Seq<char>, Seq<char>)>) -> Map<Seq<char>, Seq<char>>
    decreases pairs.len(),
{
    if pairs.len() == 0 {
        Map::empty()
    } else {
        pairs_map(pairs.drop_last()).insert(pairs.last().0, pairs.last().1)
    }
}

/// Each pair of strings as a pair of character sequences.
pub open spec fn pairs_view(pairs: Seq<(String, String)>) -> Seq<(Seq<char>, Seq<char>)> {
    pairs.map_values(|pair: (String, String)| (pair.0@, pair.1@))
}

/// No key stands in two pairs.
pub open spec fn distinct_keys(pairs: Seq<(Seq<char>, Seq<char>)>) -> bool {
    forall|i: int, j: int| 0 <= i < j < pairs.len() ==> pairs[i].0 != pairs[j].0
}

/// An optional string as an optional character sequence.
pub open spec fn optional_text(text: Option<String>) -> Option<Seq<char>> {
    match text {
        Some(t) => Some(t@),
        None => None,
    }
}

/// The one text of a credential source: the service, the name of the
/// variable, or the path of the file.
pub open spec fn source_key(source: CredentialSourceView) -> Seq<char> {
    match source {
        CredentialSourceView::Keychain { service } => service,
        CredentialSourceView::Environment { var_name } => var_name,
        CredentialSourceView::Encrypted { path } => path,
    }
}

/// The text is the value of one of the record's fields.
pub open spec fn record_holds(profile: ProfileView, text: Seq<char>) -> bool {
    ||| text == profile.name
    ||| text == profile.provider.base_url
    ||| text == profile.provider.model
    ||| profile.provider.small_fast_model == Some(text)
    ||| text == source_key(profile.provider.auth_token_source)
    ||| exists|key: Seq<char>|
        profile.provider.extra_env.dom().contains(key) && #[trigger] profile.provider.extra_env[key]
            == text
}

/// Where a key stands in a sequence of pairs for the last time, the mapping
/// has the value of that pair; where it stands in none, the mapping has
/// no such key.
pub proof fn lemma_last_pair_counts(pairs: Seq<(Seq<char>, Seq<char>)>, key: Seq<char>, at: int)
    requires
        -1 <= at < pairs.len(),
        at >= 0 ==> pairs[at].0 == key,
        forall|j: int| at < j < pairs.len() ==> (#[trigger] pairs[j]).0 != key,
    ensures
        at >= 0 ==> pairs_map(pairs).dom().contains(key) && pairs_map(pairs)[key] == pairs[at].1,
        at < 0 ==> !pairs_map(pairs).dom().contains(key),
    decreases pairs.len(),
{
    if pairs.len() > 0 {
        if at < pairs.len() - 1 {
            let front = pairs.drop_last();
            assert(pairs[pairs.len() - 1].0 != key);
            assert forall|j: int| at < j < front.len() implies (#[trigger] front[j]).0 != key by {
                assert(pairs[j].0 != key);
            }
            lemma_last_pair_counts(front, key, at);
        }
    }
}

impl ProviderConfig {
    /// The value of the further setting `key`, where there is one.
    pub fn env_value(&self, key: &str) -> (value: Option<&String>)
        ensures
            match value {
                Some(found) => self@.extra_env.dom().contains(key@) && self@.extra_env[key@]
                    == found@,
                None => !self@.extra_env.dom().contains(key@),
            },
    {
        let ghost held = pairs_view(self.extra_env@);
        let mut i: usize = self.extra_env.len();
        while i > 0
            invariant
                i <= self.extra_env.len(),
                held == pairs_view(self.extra_env@),
                forall|j: int| i <= j < held.len() ==> (#[trigger] held[j]).0 != key@,
            decreases i,
        {
            i -= 1;
            let pair = &self.extra_env[i];
            assert(held[i as int] == (pair.0@, pair.1@));
            if matches!(place_of(pair.0.as_str(), key), Place::Same) {
                proof {
                    lemma_last_pair_counts(held, key@, i as int);
                }
                return Some(&pair.1);
            }
        }
        proof {
            lemma_last_pair_counts(held, key@, -1);
        }
        None
    }
}

impl View for CredentialSource {
    type V = CredentialSourceView;

    open spec fn view(&self) -> CredentialSourceView {
        match *self {
            CredentialSource::Keychain { service } => CredentialSourceView::Keychain {
                service: service@,
            },
            CredentialSource::Environment { var_name } => CredentialSourceView::Environment {
                var_name: var_name@,
            },
            CredentialSource::Encrypted { path } => CredentialSourceView::Encrypted { path: path@ },
        }
    }
}

impl View for ProviderConfig {
    type V = ProviderConfigView;

    open spec fn view(&self) -> ProviderConfigView {
        ProviderConfigView {
            base_url: self.base_url@,
            model: self.model@,
            small_fast_model: optional_text(self.small_fast_model),
            auth_token_source: self.auth_token_source@,
            extra_env: pairs_map(pairs_view(self.extra_env@)),
        }
    }
}

impl View for Profile {
    type V = ProfileView;

    open spec fn view(&self) -> ProfileView {
        ProfileView { name: self.name@, provider: self.provider@ }
    }
}

} // verus!
