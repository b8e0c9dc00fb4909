//! The profile record as a TOML document, and back.
//!
//! ```text
//! name = "..."
//!
//! [provider]
//! base_url = "..."
//! model = "..."
//! small_fast_model = "..."          # left out where the record has none
//!
//! [provider.auth_token_source.keychain]   # or .environment, or .encrypted
//! service = "..."                         # or var_name, or path
//!
//! [provider.extra_env]              # always written; read as empty where left out
//! KEY = "value"
//! ```
//!
//! Keys that the format does not name are passed over when a document is read.

use crate::document::{
    holds_text, lemma_holds_text_table, lemma_plain_insert, lemma_plain_table, no_nodes, node_at,
    parse_document, parsed_view, plain, render_document, rendered_view, table_entry, table_keys,
    table_new, table_nodes, table_put, toml_document, toml_text, Entry,
    Item, Node,
};
use crate::profile::model::{
    distinct_keys, optional_text, pairs_map, pairs_view, record_holds, source_key,
    CredentialSource, CredentialSourceView, Profile, ProfileView, ProviderConfig,
    ProviderConfigView,
};
use crate::text::strings_view;
use vstd::prelude::*;
use vstd::string::*;

verus! {

/// The table of strings that stands for a mapping.
pub open spec fn env_nodes(env: Map<Seq<char>, Seq<char>>) -> Map<Seq<char>, Node> {
    Map::new(|key: Seq<char>| env.dom().contains(key), |key: Seq<char>| Node::Text(env[key]))
}

/// A table with the one entry `key`, a string.
pub open spec fn one_text(key: Seq<char>, text: Seq<char>) -> Map<Seq<char>, Node> {
    no_nodes().insert(key, Node::Text(text))
}

/// The table that stands for a credential source: its tag, and under the tag
/// the one field of the variant.
pub open spec fn source_nodes(source: CredentialSourceView) -> Map<Seq<char>, Node> {
    match source {
        CredentialSourceView::Keychain { service } => no_nodes().insert(
            "keychain"@,
            Node::Table(one_text("service"@, service)),
        ),
        CredentialSourceView::Environment { var_name } => no_nodes().insert(
            "environment"@,
            Node::Table(one_text("var_name"@, var_name)),
        ),
        CredentialSourceView::Encrypted { path } => no_nodes().insert(
            "encrypted"@,
            Node::Table(one_text("path"@, path)),
        ),
    }
}

/// The table that stands for a provider configuration.
pub open spec fn provider_nodes(provider: ProviderConfigView) -> Map<Seq<char>, Node> {
    let required = no_nodes().insert("base_url"@, Node::Text(provider.base_url)).insert(
        "model"@,
        Node::Text(provider.model),
    ).insert("auth_token_source"@, Node::Table(source_nodes(provider.auth_token_source))).insert(
        "extra_env"@,
        Node::Table(env_nodes(provider.extra_env)),
    );
    match provider.small_fast_model {
        Some(model) => required.insert("small_fast_model"@, Node::Text(model)),
        None => required,
    }
}

/// The document that stands for a profile record.
pub open spec fn profile_nodes(profile: ProfileView) -> Map<Seq<char>, Node> {
    no_nodes().insert("name"@, Node::Text(profile.name)).insert(
        "provider"@,
        Node::Table(provider_nodes(profile.provider)),
    )
}

/// Writes a mapping down as a table of strings.
pub fn env_to_table(env: &Vec<(String, String)>) -> (table: toml::Table)
    ensures
        table_nodes(table) == env_nodes(pairs_map(pairs_view(env@))),
        plain(Node::Table(table_nodes(table))),
{
    let mut table = table_new();
    let mut i: usize = 0;
    proof {
        lemma_plain_table(no_nodes());
    }
    assert(table_nodes(table) =~= env_nodes(pairs_map(pairs_view(env@).take(0))));
    while i < env.len()
        invariant
            i <= env.len(),
            table_nodes(table) == env_nodes(pairs_map(pairs_view(env@).take(i as int))),
            plain(Node::Table(table_nodes(table))),
        decreases env.len() - i,
    {
        let ghost before = table_nodes(table);
        let pair = &env[i];
        table_put(&mut table, pair.0.as_str(), Item::Text(pair.1.clone()));
        proof {
            let done = pairs_view(env@).take(i as int);
            let next = pairs_view(env@).take(i + 1);
            assert(next.drop_last() =~= done);
            assert(next.last() == (pair.0@, pair.1@));
            assert(table_nodes(table) =~= env_nodes(pairs_map(next)));
            lemma_plain_insert(before, pair.0@, Node::Text(pair.1@));
        }
        i += 1;
    }
    assert(pairs_view(env@).take(env.len() as int) =~= pairs_view(env@));
    table
}

/// Writes a credential source down as a table.
pub fn source_to_table(source: &CredentialSource) -> (table: toml::Table)
    ensures
        table_nodes(table) == source_nodes(source@),
        plain(Node::Table(table_nodes(table))),
{
    let mut inner = table_new();
    let mut table = table_new();
    match source {
        CredentialSource::Keychain { service } => {
            table_put(&mut inner, "service", Item::Text(service.clone()));
            proof {
                lemma_plain_table(no_nodes());
                lemma_plain_insert(no_nodes(), "service"@, Node::Text(service@));
                lemma_plain_insert(no_nodes(), "keychain"@, Node::Table(table_nodes(inner)));
            }
            table_put(&mut table, "keychain", Item::Table(inner));
        },
        CredentialSource::Environment { var_name } => {
            table_put(&mut inner, "var_name", Item::Text(var_name.clone()));
            proof {
                lemma_plain_table(no_nodes());
                lemma_plain_insert(no_nodes(), "var_name"@, Node::Text(var_name@));
                lemma_plain_insert(no_nodes(), "environment"@, Node::Table(table_nodes(inner)));
            }
            table_put(&mut table, "environment", Item::Table(inner));
        },
        CredentialSource::Encrypted { path } => {
            table_put(&mut inner, "path", Item::Text(path.clone()));
            proof {
                lemma_plain_table(no_nodes());
                lemma_plain_insert(no_nodes(), "path"@, Node::Text(path@));
                lemma_plain_insert(no_nodes(), "encrypted"@, Node::Table(table_nodes(inner)));
            }
            table_put(&mut table, "encrypted", Item::Table(inner));
        },
    }
    table
}

/// Writes a provider configuration down as a table.
pub fn provider_to_table(provider: &ProviderConfig) -> (table: toml::Table)
    ensures
        table_nodes(table) == provider_nodes(provider@),
        plain(Node::Table(table_nodes(table))),
{
    let mut table = table_new();
    let ghost t0 = table_nodes(table);
    table_put(&mut table, "base_url", Item::Text(provider.base_url.clone()));
    let ghost t1 = table_nodes(table);
    table_put(&mut table, "model", Item::Text(provider.model.clone()));
    let ghost t2 = table_nodes(table);
    let source = source_to_table(&provider.auth_token_source);
    let ghost source_node = Node::Table(table_nodes(source));
    table_put(&mut table, "auth_token_source", Item::Table(source));
    let ghost t3 = table_nodes(table);
    let env = env_to_table(&provider.extra_env);
    let ghost env_node = Node::Table(table_nodes(env));
    table_put(&mut table, "extra_env", Item::Table(env));
    let ghost t4 = table_nodes(table);
    proof {
        lemma_plain_table(no_nodes());
        lemma_plain_insert(t0, "base_url"@, Node::Text(provider.base_url@));
        lemma_plain_insert(t1, "model"@, Node::Text(provider.model@));
        lemma_plain_insert(t2, "auth_token_source"@, source_node);
        lemma_plain_insert(t3, "extra_env"@, env_node);
    }
    match &provider.small_fast_model {
        Some(model) => {
            table_put(&mut table, "small_fast_model", Item::Text(model.clone()));
            proof {
                lemma_plain_insert(t4, "small_fast_model"@, Node::Text(model@));
            }
        },
        None => {},
    }
    table
}

/// Writes a profile record down as a document.
pub fn profile_to_table(profile: &Profile) -> (table: toml::Table)
    ensures
        table_nodes(table) == profile_nodes(profile@),
        plain(Node::Table(table_nodes(table))),
{
    let mut table = table_new();
    let ghost t0 = table_nodes(table);
    table_put(&mut table, "name", Item::Text(profile.name.clone()));
    let ghost t1 = table_nodes(table);
    let provider = provider_to_table(&profile.provider);
    let ghost provider_node = Node::Table(table_nodes(provider));
    table_put(&mut table, "provider", Item::Table(provider));
    proof {
        lemma_plain_table(no_nodes());
        lemma_plain_insert(t0, "name"@, Node::Text(profile.name@));
        lemma_plain_insert(t1, "provider"@, provider_node);
    }
    table
}

/// The diagnostics of a document that is no profile record.
pub const FAULT_NAME: &'static str = "`name` must be a string";

pub const FAULT_PROVIDER: &'static str = "`provider` must be a table";

pub const FAULT_BASE_URL: &'static str = "`provider.base_url` must be a string";

pub const FAULT_MODEL: &'static str = "`provider.model` must be a string";

pub const FAULT_SMALL_FAST_MODEL: &'static str =
    "`provider.small_fast_model` must be a string where it is given";

pub const FAULT_SOURCE: &'static str =
    "`provider.auth_token_source` must be a table with exactly one of `keychain.service`, `environment.var_name`, `encrypted.path`, a string";

pub const FAULT_EXTRA_ENV: &'static str =
    "`provider.extra_env` must be a table of strings where it is given";

/// The string under `key`, where there is one.
pub open spec fn text_at(nodes: Map<Seq<char>, Node>, key: Seq<char>) -> Option<Seq<char>> {
    match node_at(nodes, key) {
        Some(Node::Text(text)) => Some(text),
        _ => None,
    }
}

/// The entries of the table under `key`, where there is one.
pub open spec fn table_at(nodes: Map<Seq<char>, Node>, key: Seq<char>) -> Option<
    Map<Seq<char>, Node>,
> {
    match node_at(nodes, key) {
        Some(Node::Table(inner)) => Some(inner),
        _ => None,
    }
}

/// The table has exactly one key.
pub open spec fn single_key(nodes: Map<Seq<char>, Node>) -> bool {
    exists|key: Seq<char>| nodes.dom() =~= set![key]
}

/// The string `field` of the table under `tag`, where `tag` is the one key
/// of the table.
pub open spec fn tagged_field(nodes: Map<Seq<char>, Node>, tag: Seq<char>, field: Seq<char>)
    -> Option<Seq<char>> {
    if nodes.dom() =~= set![tag] {
        match table_at(nodes, tag) {
            Some(inner) => text_at(inner, field),
            None => None,
        }
    } else {
        None
    }
}

/// The credential source that a table stands for, where it stands for one.
pub open spec fn nodes_source(nodes: Map<Seq<char>, Node>) -> Option<CredentialSourceView> {
    match tagged_field(nodes, "keychain"@, "service"@) {
        Some(service) => Some(CredentialSourceView::Keychain { service }),
        None => match tagged_field(nodes, "environment"@, "var_name"@) {
            Some(var_name) => Some(CredentialSourceView::Environment { var_name }),
            None => match tagged_field(nodes, "encrypted"@, "path"@) {
                Some(path) => Some(CredentialSourceView::Encrypted { path }),
                None => None,
            },
        },
    }
}

/// Every entry of the table is a string.
pub open spec fn all_text(nodes: Map<Seq<char>, Node>) -> bool {
    forall|key: Seq<char>| nodes.dom().contains(key) ==> (#[trigger] nodes[key]) is Text
}

/// The mapping that a table of strings stands for.
pub open spec fn nodes_env(nodes: Map<Seq<char>, Node>) -> Map<Seq<char>, Seq<char>> {
    Map::new(|key: Seq<char>| nodes.dom().contains(key), |key: Seq<char>| nodes[key]->Text_0)
}

/// The optional model of a provider table; the outer `None` where the key
/// holds something that is no string.
pub open spec fn small_fast_model_at(nodes: Map<Seq<char>, Node>) -> Option<Option<Seq<char>>> {
    match node_at(nodes, "small_fast_model"@) {
        None => Some(None),
        Some(Node::Text(model)) => Some(Some(model)),
        Some(_) => None,
    }
}

/// The credential source of a provider table.
pub open spec fn source_at(nodes: Map<Seq<char>, Node>) -> Option<CredentialSourceView> {
    match table_at(nodes, "auth_token_source"@) {
        Some(inner) => nodes_source(inner),
        None => None,
    }
}

/// The further settings of a provider table: empty where the key is left
/// out, `None` where it holds something that is no table of strings.
pub open spec fn env_at(nodes: Map<Seq<char>, Node>) -> Option<Map<Seq<char>, Seq<char>>> {
    match node_at(nodes, "extra_env"@) {
        None => Some(Map::empty()),
        Some(Node::Table(inner)) => if all_text(inner) {
            Some(nodes_env(inner))
        } else {
            None
        },
        Some(_) => None,
    }
}

/// The provider configuration that a table stands for, or the diagnostic of
/// the first key, in the order of the format, that does not fit.
pub open spec fn nodes_provider(nodes: Map<Seq<char>, Node>) -> Result<
    ProviderConfigView,
    Seq<char>,
> {
    if text_at(nodes, "base_url"@) is None {
        Err(FAULT_BASE_URL@)
    } else if text_at(nodes, "model"@) is None {
        Err(FAULT_MODEL@)
    } else if small_fast_model_at(nodes) is None {
        Err(FAULT_SMALL_FAST_MODEL@)
    } else if source_at(nodes) is None {
        Err(FAULT_SOURCE@)
    } else if env_at(nodes) is None {
        Err(FAULT_EXTRA_ENV@)
    } else {
        Ok(
            ProviderConfigView {
                base_url: text_at(nodes, "base_url"@)->Some_0,
                model: text_at(nodes, "model"@)->Some_0,
                small_fast_model: small_fast_model_at(nodes)->Some_0,
                auth_token_source: source_at(nodes)->Some_0,
                extra_env: env_at(nodes)->Some_0,
            },
        )
    }
}

/// The profile record that a document stands for, or the diagnostic of the
/// first key that does not fit.
pub open spec fn nodes_profile(nodes: Map<Seq<char>, Node>) -> Result<ProfileView, Seq<char>> {
    match text_at(nodes, "name"@) {
        None => Err(FAULT_NAME@),
        Some(name) => match table_at(nodes, "provider"@) {
            None => Err(FAULT_PROVIDER@),
            Some(inner) => match nodes_provider(inner) {
                Err(fault) => Err(fault),
                Ok(provider) => Ok(ProfileView { name, provider }),
            },
        },
    }
}

/// What a sequence of pairs holds as a mapping: a key is in it exactly when
/// a pair has it, and where no key stands twice each pair gives its value.
pub proof fn lemma_pairs_map(pairs: Seq<(Seq<char>, Seq<char>)>)
    ensures
        forall|key: Seq<char>|
            pairs_map(pairs).dom().contains(key) <==> exists|i: int|
                0 <= i < pairs.len() && (#[trigger] pairs[i]).0 == key,
        distinct_keys(pairs) ==> forall|i: int|
            0 <= i < pairs.len() ==> pairs_map(pairs)[(#[trigger] pairs[i]).0] == pairs[i].1,
    decreases pairs.len(),
{
    if pairs.len() > 0 {
        let front = pairs.drop_last();
        lemma_pairs_map(front);
        assert forall|key: Seq<char>| #[trigger]
            pairs_map(pairs).dom().contains(key) implies exists|i: int|
            0 <= i < pairs.len() && (#[trigger] pairs[i]).0 == key by {
            if key == pairs.last().0 {
                assert(pairs[pairs.len() - 1].0 == key);
            } else {
                assert(pairs_map(front).dom().contains(key));
                let i = choose|i: int| 0 <= i < front.len() && (#[trigger] front[i]).0 == key;
                assert(pairs[i].0 == key);
            }
        }
        assert forall|key: Seq<char>|
            (exists|i: int| 0 <= i < pairs.len() && (#[trigger] pairs[i]).0 == key)
            implies #[trigger] pairs_map(pairs).dom().contains(key) by {
            let i = choose|i: int| 0 <= i < pairs.len() && (#[trigger] pairs[i]).0 == key;
            if i < pairs.len() - 1 {
                assert(front[i].0 == key);
                assert(pairs_map(front).dom().contains(key));
            }
        }
        if distinct_keys(pairs) {
            assert(distinct_keys(front)) by {
                assert forall|i: int, j: int| 0 <= i < j < front.len() implies front[i].0
                    != front[j].0 by {
                    assert(pairs[i].0 != pairs[j].0);
                }
            }
            assert forall|i: int| 0 <= i < pairs.len() implies pairs_map(pairs)[(
            #[trigger] pairs[i]).0] == pairs[i].1 by {
                if i < pairs.len() - 1 {
                    assert(pairs[i].0 != pairs[pairs.len() - 1].0);
                    assert(front[i] == pairs[i]);
                }
            }
        }
    }
}

/// A copy of the string under `key`.
fn text_of(table: &toml::Table, key: &str) -> (text: Option<String>)
    ensures
        optional_text(text) == text_at(table_nodes(*table), key@),
{
    match table_entry(table, key) {
        Entry::Text(text) => Some(text),
        _ => None,
    }
}

/// A copy of the table under `key`.
fn table_of(table: &toml::Table, key: &str) -> (inner: Option<toml::Table>)
    ensures
        match inner {
            Some(found) => table_at(table_nodes(*table), key@) == Some(table_nodes(found)),
            None => table_at(table_nodes(*table), key@) is None,
        },
{
    match table_entry(table, key) {
        Entry::Table(inner) => Some(inner),
        _ => None,
    }
}

/// The field of the variant `tag`, in a table that has one key.
fn tagged(table: &toml::Table, tag: &str, field: &str) -> (text: Option<String>)
    requires
        single_key(table_nodes(*table)),
    ensures
        optional_text(text) == tagged_field(table_nodes(*table), tag@, field@),
{
    match table_of(table, tag) {
        Some(inner) => {
            proof {
                let only = choose|key: Seq<char>| table_nodes(*table).dom() =~= set![key];
                assert(table_nodes(*table).dom().contains(tag@));
                assert(only == tag@);
            }
            text_of(&inner, field)
        },
        None => None,
    }
}

/// Reads a credential source from its table; `None` where the table stands
/// for none.
pub fn source_from_table(table: &toml::Table) -> (source: Option<CredentialSource>)
    ensures
        match source {
            Some(found) => nodes_source(table_nodes(*table)) == Some(found@),
            None => nodes_source(table_nodes(*table)) is None,
        },
{
    let keys = table_keys(table);
    let ghost nodes = table_nodes(*table);
    let ghost names = strings_view(keys@);
    if keys.len() != 1 {
        proof {
            assert forall|tag: Seq<char>| !(nodes.dom() =~= set![tag]) by {
                if nodes.dom() =~= set![tag] {
                    assert(nodes.dom().contains(tag));
                    assert(names.contains(tag));
                    assert(names.len() >= 2);
                    assert(names.contains(names[0]));
                    assert(names.contains(names[1]));
                    assert(nodes.dom().contains(names[0]));
                    assert(nodes.dom().contains(names[1]));
                }
            }
        }
        return None;
    }
    proof {
        assert(names.contains(names[0]));
        assert forall|key: Seq<char>| nodes.dom().contains(key) <==> key == names[0] by {
            if nodes.dom().contains(key) {
                assert(names.contains(key));
            }
        }
        assert(nodes.dom() =~= set![names[0]]);
    }
    match tagged(table, "keychain", "service") {
        Some(service) => Some(CredentialSource::Keychain { service }),
        None => match tagged(table, "environment", "var_name") {
            Some(var_name) => Some(CredentialSource::Environment { var_name }),
            None => match tagged(table, "encrypted", "path") {
                Some(path) => Some(CredentialSource::Encrypted { path }),
                None => None,
            },
        },
    }
}

/// Reads a mapping from a table; `None` where an entry is no string.
pub fn env_from_table(table: &toml::Table) -> (env: Option<Vec<(String, String)>>)
    ensures
        match env {
            Some(pairs) => all_text(table_nodes(*table)) && pairs_map(pairs_view(pairs@))
                == nodes_env(table_nodes(*table)) && distinct_keys(pairs_view(pairs@)),
            None => !all_text(table_nodes(*table)),
        },
{
    let keys = table_keys(table);
    let ghost nodes = table_nodes(*table);
    let ghost names = strings_view(keys@);
    let mut pairs: Vec<(String, String)> = Vec::new();
    let mut i: usize = 0;
    while i < keys.len()
        invariant
            i <= keys.len(),
            nodes == table_nodes(*table),
            names == strings_view(keys@),
            names.no_duplicates(),
            forall|key: Seq<char>| nodes.dom().contains(key) <==> names.contains(key),
            pairs.len() == i,
            forall|j: int|
                0 <= j < i ==> (#[trigger] pairs_view(pairs@)[j]).0 == names[j] && nodes[names[j]]
                    == Node::Text(pairs_view(pairs@)[j].1),
        decreases keys.len() - i,
    {
        let ghost before = pairs_view(pairs@);
        assert(names.contains(names[i as int]));
        match table_entry(table, keys[i].as_str()) {
            Entry::Text(text) => {
                pairs.push((keys[i].clone(), text));
            },
            _ => {
                assert(!(nodes[names[i as int]] is Text));
                return None;
            },
        }
        proof {
            let after = pairs_view(pairs@);
            assert forall|j: int| 0 <= j < i + 1 implies (#[trigger] after[j]).0 == names[j]
                && nodes[names[j]] == Node::Text(after[j].1) by {
                if j < i {
                    assert(after[j] == before[j]);
                }
            }
        }
        i += 1;
    }
    proof {
        let held = pairs_view(pairs@);
        assert(distinct_keys(held)) by {
            assert forall|a: int, b: int| 0 <= a < b < held.len() implies held[a].0
                != held[b].0 by {
                assert(held[a].0 == names[a] && held[b].0 == names[b]);
            }
        }
        lemma_pairs_map(held);
        assert forall|key: Seq<char>| #[trigger] nodes.dom().contains(key) implies nodes[key]
            is Text && pairs_map(held).dom().contains(key) && pairs_map(held)[key]
            == nodes[key]->Text_0 by {
            assert(names.contains(key));
            let j = choose|j: int| 0 <= j < names.len() && names[j] == key;
            assert(held[j].0 == key);
        }
        assert forall|key: Seq<char>| #[trigger]
            pairs_map(held).dom().contains(key) implies nodes.dom().contains(key) by {
            let j = choose|j: int| 0 <= j < held.len() && (#[trigger] held[j]).0 == key;
            assert(names[j] == key);
            assert(names.contains(key));
        }
        assert(all_text(nodes));
        assert(pairs_map(held) =~= nodes_env(nodes));
    }
    Some(pairs)
}

/// Reads a provider configuration from its table.
pub fn provider_from_table(table: &toml::Table) -> (decoded: Result<ProviderConfig, String>)
    ensures
        match decoded {
            Ok(provider) => nodes_provider(table_nodes(*table)) == Ok::<
                ProviderConfigView,
                Seq<char>,
            >(provider@) && distinct_keys(pairs_view(provider.extra_env@)),
            Err(fault) => nodes_provider(table_nodes(*table)) == Err::<
                ProviderConfigView,
                Seq<char>,
            >(fault@),
        },
{
    let base_url = match text_of(table, "base_url") {
        Some(text) => text,
        None => {
            return Err(String::from_str(FAULT_BASE_URL));
        },
    };
    let model = match text_of(table, "model") {
        Some(text) => text,
        None => {
            return Err(String::from_str(FAULT_MODEL));
        },
    };
    let small_fast_model = match table_entry(table, "small_fast_model") {
        Entry::Absent => None,
        Entry::Text(text) => Some(text),
        _ => {
            return Err(String::from_str(FAULT_SMALL_FAST_MODEL));
        },
    };
    let auth_token_source = match table_of(table, "auth_token_source") {
        Some(inner) => match source_from_table(&inner) {
            Some(source) => source,
            None => {
                return Err(String::from_str(FAULT_SOURCE));
            },
        },
        None => {
            return Err(String::from_str(FAULT_SOURCE));
        },
    };
    let extra_env = match table_entry(table, "extra_env") {
        Entry::Absent => {
            let none: Vec<(String, String)> = Vec::new();
            assert(pairs_view(none@) =~= Seq::empty());
            none
        },
        Entry::Table(inner) => match env_from_table(&inner) {
            Some(pairs) => pairs,
            None => {
                return Err(String::from_str(FAULT_EXTRA_ENV));
            },
        },
        _ => {
            return Err(String::from_str(FAULT_EXTRA_ENV));
        },
    };
    Ok(ProviderConfig { base_url, model, small_fast_model, auth_token_source, extra_env })
}

/// Reads a profile record from its document.
pub fn profile_from_table(table: &toml::Table) -> (decoded: Result<Profile, String>)
    ensures
        match decoded {
            Ok(profile) => nodes_profile(table_nodes(*table)) == Ok::<ProfileView, Seq<char>>(
                profile@,
            ) && distinct_keys(pairs_view(profile.provider.extra_env@)),
            Err(fault) => nodes_profile(table_nodes(*table)) == Err::<ProfileView, Seq<char>>(
                fault@,
            ),
        },
{
    let name = match text_of(table, "name") {
        Some(text) => text,
        None => {
            return Err(String::from_str(FAULT_NAME));
        },
    };
    let inner = match table_of(table, "provider") {
        Some(inner) => inner,
        None => {
            return Err(String::from_str(FAULT_PROVIDER));
        },
    };
    match provider_from_table(&inner) {
        Ok(provider) => Ok(Profile { name, provider }),
        Err(fault) => Err(fault),
    }
}

/// A decoded record, or the diagnostic, as plain values.
pub open spec fn decoded_view(decoded: Result<Profile, String>) -> Result<ProfileView, Seq<char>> {
    match decoded {
        Ok(profile) => Ok(profile@),
        Err(fault) => Err(fault@),
    }
}

/// The text that stands for a profile record, or the message with which
/// TOML refuses to write it.
pub open spec fn encoded_text(profile: ProfileView) -> Result<Seq<char>, Seq<char>> {
    toml_text(profile_nodes(profile))
}

/// The record that a parsed document stands for; the message of the parser
/// where the text was no TOML, the diagnostic of the format where the
/// document is no record.
pub open spec fn decoded_nodes(parsed: Result<Map<Seq<char>, Node>, Seq<char>>) -> Result<
    ProfileView,
    Seq<char>,
> {
    match parsed {
        Ok(nodes) => nodes_profile(nodes),
        Err(message) => Err(message),
    }
}

/// The record that a text stands for.
pub open spec fn decoded_text(text: Seq<char>) -> Result<ProfileView, Seq<char>> {
    decoded_nodes(toml_document(text))
}

/// Writes a profile record down as TOML text.
pub fn encode_profile(profile: &Profile) -> (text: Result<String, String>)
    ensures
        rendered_view(text) == encoded_text(profile@),
{
    let table = profile_to_table(profile);
    render_document(&table)
}

/// Reads a profile record from what the parser made of a text.
pub fn profile_from_parsed(parsed: Result<toml::Table, String>) -> (decoded: Result<
    Profile,
    String,
>)
    ensures
        decoded_view(decoded) == decoded_nodes(parsed_view(parsed)),
        decoded matches Ok(profile) ==> distinct_keys(pairs_view(profile.provider.extra_env@)),
{
    match parsed {
        Ok(table) => profile_from_table(&table),
        Err(message) => Err(message),
    }
}

/// Reads a profile record from TOML text.
pub fn decode_profile(text: &str) -> (decoded: Result<Profile, String>)
    ensures
        decoded_view(decoded) == decoded_text(text@),
        decoded matches Ok(profile) ==> distinct_keys(pairs_view(profile.provider.extra_env@)),
{
    profile_from_parsed(parse_document(text))
}

/// A credential source that is written down as a table is read back from
/// it unchanged.
pub proof fn law_source_round_trip(source: CredentialSourceView)
    ensures
        nodes_source(source_nodes(source)) == Some(source),
{
    reveal_strlit("keychain");
    reveal_strlit("environment");
    reveal_strlit("encrypted");
    assert("keychain"@.len() == 8 && "environment"@.len() == 11 && "encrypted"@.len() == 9);
    let nodes = source_nodes(source);
    match source {
        CredentialSourceView::Keychain { service } => {
            assert(nodes.dom() =~= set!["keychain"@]);
        },
        CredentialSourceView::Environment { var_name } => {
            assert(nodes.dom() =~= set!["environment"@]);
            assert(!nodes.dom().contains("keychain"@));
        },
        CredentialSourceView::Encrypted { path } => {
            assert(nodes.dom() =~= set!["encrypted"@]);
            assert(!nodes.dom().contains("keychain"@));
            assert(!nodes.dom().contains("environment"@));
        },
    }
}

/// A mapping that is written down as a table of strings is read back from
/// it unchanged.
pub proof fn law_env_round_trip(env: Map<Seq<char>, Seq<char>>)
    ensures
        all_text(env_nodes(env)),
        nodes_env(env_nodes(env)) == env,
{
    assert(nodes_env(env_nodes(env)) =~= env);
}

/// A profile record that is written down as a document is read back from
/// it unchanged, in every field.
pub proof fn law_document_round_trip(profile: ProfileView)
    ensures
        nodes_profile(profile_nodes(profile)) == Ok::<ProfileView, Seq<char>>(profile),
{
    reveal_strlit("name");
    reveal_strlit("provider");
    reveal_strlit("base_url");
    reveal_strlit("model");
    reveal_strlit("small_fast_model");
    reveal_strlit("auth_token_source");
    reveal_strlit("extra_env");
    assert("name"@.len() == 4 && "provider"@.len() == 8);
    assert("base_url"@.len() == 8 && "model"@.len() == 5 && "small_fast_model"@.len() == 16);
    assert("auth_token_source"@.len() == 17 && "extra_env"@.len() == 9);
    law_source_round_trip(profile.provider.auth_token_source);
    law_env_round_trip(profile.provider.extra_env);
    let inner = provider_nodes(profile.provider);
    assert(text_at(inner, "base_url"@) == Some(profile.provider.base_url));
    assert(text_at(inner, "model"@) == Some(profile.provider.model));
    assert(small_fast_model_at(inner) == Some(profile.provider.small_fast_model));
    assert(source_at(inner) == Some(profile.provider.auth_token_source));
    assert(env_at(inner) == Some(profile.provider.extra_env));
    assert(nodes_provider(inner) == Ok::<ProviderConfigView, Seq<char>>(profile.provider));
}

/// The document of a record holds no string but the values of the record's
/// fields. What is no field of the record, the secret that its credential
/// source leads to among the rest, is not written down with it.
pub proof fn law_document_holds_the_record_only(profile: ProfileView, text: Seq<char>)
    requires
        holds_text(Node::Table(profile_nodes(profile)), text),
    ensures
        record_holds(profile, text),
{
    let top = profile_nodes(profile);
    lemma_holds_text_table(top, text);
    let key = choose|key: Seq<char>|
        top.dom().contains(key) && holds_text(#[trigger] top[key], text);
    if key == "provider"@ {
        let inner = provider_nodes(profile.provider);
        assert(top[key] == Node::Table(inner));
        lemma_holds_text_table(inner, text);
        let field = choose|field: Seq<char>|
            inner.dom().contains(field) && holds_text(#[trigger] inner[field], text);
        if field == "small_fast_model"@ && profile.provider.small_fast_model is Some {
            assert(inner[field] == Node::Text(profile.provider.small_fast_model->Some_0));
        } else if field == "extra_env"@ {
            let env = env_nodes(profile.provider.extra_env);
            assert(inner[field] == Node::Table(env));
            lemma_holds_text_table(env, text);
            let name = choose|name: Seq<char>|
                env.dom().contains(name) && holds_text(#[trigger] env[name], text);
            assert(profile.provider.extra_env.dom().contains(name));
            assert(profile.provider.extra_env[name] == text);
        } else if field == "auth_token_source"@ {
            let source = source_nodes(profile.provider.auth_token_source);
            assert(inner[field] == Node::Table(source));
            lemma_holds_text_table(source, text);
            let tag = choose|tag: Seq<char>|
                source.dom().contains(tag) && holds_text(#[trigger] source[tag], text);
            let held = source_key(profile.provider.auth_token_source);
            let variant = source[tag]->Table_0;
            assert(source[tag] == Node::Table(variant));
            lemma_holds_text_table(variant, text);
            let last = choose|last: Seq<char>|
                variant.dom().contains(last) && holds_text(#[trigger] variant[last], text);
            assert(variant[last] == Node::Text(held));
        } else if field == "model"@ {
            assert(inner[field] == Node::Text(profile.provider.model));
        } else {
            assert(field == "base_url"@);
            assert(inner[field] == Node::Text(profile.provider.base_url));
        }
    } else {
        assert(key == "name"@);
        assert(top[key] == Node::Text(profile.name));
    }
}

} // verus!
