//! TOML documents as the profile format sees them: tables of texts and of
//! further tables. The `toml` crate reads and writes the text; what its
//! tables hold is named here, and the functions around them say what they do
//! to it.

use crate::text::strings_view;
use vstd::prelude::*;

verus! {

/// `toml::map::Map`, the map behind `toml::Table`: its keys are `String`s,
/// its values `toml::Value`s. Nothing of its inside is seen here; what it
/// holds is `table_nodes`.
#[verifier::external_type_specification]
#[verifier::external_body]
#[verifier::reject_recursive_types(K)]
#[verifier::reject_recursive_types(V)]
pub struct ExTable<K, V>(toml::map::Map<K, V>);

/// `toml::Value`, one value of a TOML document. Nothing of its inside is
/// seen here: `table_entry` tells its variants apart.
#[verifier::external_type_specification]
#[verifier::external_body]
pub struct ExValue(toml::Value);

/// A TOML value, as far as the profile format tells values apart: a string,
/// a table, or anything else (a number, a boolean, a date, an array).
pub enum Node {
    Text(Seq<char>),
    Table(Map<Seq<char>, Node>),
    Other,
}

/// The entries of a table: the node of each value, by key.
pub uninterp spec fn table_nodes(table: toml::Table) -> Map<Seq<char>, Node>;

/// What `toml::from_str` makes of `text`: the entries of the table that it
/// reads, or its error message.
pub uninterp spec fn toml_document(text: Seq<char>) -> Result<Map<Seq<char>, Node>, Seq<char>>;

/// What `toml::to_string_pretty` makes of a table with the entries `nodes`:
/// the text, or its error message.
pub uninterp spec fn toml_text(nodes: Map<Seq<char>, Node>) -> Result<Seq<char>, Seq<char>>;

/// The node holds strings and tables only, at every depth.
pub open spec fn plain(node: Node) -> bool
    decreases node,
{
    match node {
        Node::Text(_) => true,
        Node::Table(entries) => forall|key: Seq<char>|
            entries.dom().contains(key) ==> plain(#[trigger] entries[key]),
        Node::Other => false,
    }
}

/// The text stands somewhere in the node as a string value.
pub open spec fn holds_text(node: Node, text: Seq<char>) -> bool
    decreases node,
{
    match node {
        Node::Text(held) => held == text,
        Node::Table(entries) => exists|key: Seq<char>|
            entries.dom().contains(key) && holds_text(#[trigger] entries[key], text),
        Node::Other => false,
    }
}

/// A table holds a text exactly where one of its entries does.
pub proof fn lemma_holds_text_table(entries: Map<Seq<char>, Node>, text: Seq<char>)
    ensures
        holds_text(Node::Table(entries), text) <==> exists|key: Seq<char>|
            entries.dom().contains(key) && holds_text(#[trigger] entries[key], text),
{
    let node = Node::Table(entries);
    assert(node->Table_0 == entries);
    assert(holds_text(node, text) == (exists|key: Seq<char>|
        (node->Table_0).dom().contains(key) && holds_text(
            #[trigger] (node->Table_0)[key],
            text,
        )));
}

/// A table is plain exactly when each of its entries is.
pub proof fn lemma_plain_table(entries: Map<Seq<char>, Node>)
    ensures
        plain(Node::Table(entries)) <==> forall|key: Seq<char>|
            entries.dom().contains(key) ==> plain(#[trigger] entries[key]),
{
    let node = Node::Table(entries);
    assert(node->Table_0 == entries);
    assert(plain(node) == (forall|key: Seq<char>|
        (node->Table_0).dom().contains(key) ==> plain(#[trigger] (node->Table_0)[key])));
}

/// A table of strings and tables stays one when such a node is put into it.
pub proof fn lemma_plain_insert(entries: Map<Seq<char>, Node>, key: Seq<char>, node: Node)
    requires
        plain(Node::Table(entries)),
        plain(node),
    ensures
        plain(Node::Table(entries.insert(key, node))),
{
    lemma_plain_table(entries);
    lemma_plain_table(entries.insert(key, node));
}

/// The entries of a table that holds nothing.
pub open spec fn no_nodes() -> Map<Seq<char>, Node> {
    Map::empty()
}

/// A table read from text, or the message of the error, as plain values.
pub open spec fn parsed_view(parsed: Result<toml::Table, String>) -> Result<
    Map<Seq<char>, Node>,
    Seq<char>,
> {
    match parsed {
        Ok(table) => Ok(table_nodes(table)),
        Err(message) => Err(message@),
    }
}

/// A text, or the message of the error, as plain values.
pub open spec fn rendered_view(rendered: Result<String, String>) -> Result<Seq<char>, Seq<char>> {
    match rendered {
        Ok(text) => Ok(text@),
        Err(message) => Err(message@),
    }
}

/// The node under `key`, where the entries hold one.
pub open spec fn node_at(nodes: Map<Seq<char>, Node>, key: Seq<char>) -> Option<Node> {
    if nodes.dom().contains(key) {
        Some(nodes[key])
    } else {
        None
    }
}

/// What stands under one key of a table.
pub enum Entry {
    Absent,
    Text(String),
    Table(toml::Table),
    Other,
}

impl Entry {
    /// The node that the entry is, and `None` for an absent one.
    pub open spec fn node(self) -> Option<Node> {
        match self {
            Entry::Absent => None,
            Entry::Text(text) => Some(Node::Text(text@)),
            Entry::Table(inner) => Some(Node::Table(table_nodes(inner))),
            Entry::Other => Some(Node::Other),
        }
    }
}

/// What the profile format puts under a key of a table: a string or a
/// table.
pub enum Item {
    Text(String),
    Table(toml::Table),
}

impl Item {
    /// The node that the item is.
    pub open spec fn node(self) -> Node {
        match self {
            Item::Text(text) => Node::Text(text@),
            Item::Table(inner) => Node::Table(table_nodes(inner)),
        }
    }
}

/// `toml::Table::new`: a table without entries.
#[verifier::external_body]
pub(crate) fn table_new() -> (table: toml::Table)
    ensures
        table_nodes(table) == no_nodes(),
{
    toml::Table::new()
}

/// `toml::Table::insert`: afterwards `key` holds the item, and every
/// other key what it held before.
#[verifier::external_body]
pub(crate) fn table_put(table: &mut toml::Table, key: &str, item: Item)
    ensures
        table_nodes(*final(table)) == table_nodes(*old(table)).insert(key@, item.node()),
{
    let value = match item {
        Item::Text(text) => toml::Value::String(text),
        Item::Table(inner) => toml::Value::Table(inner),
    };
    table.insert(key.to_string(), value);
}

/// `toml::Table::get`, with the value told apart by its variant: a copy of
/// the string or of the table under `key`, `Other` for a value of another
/// kind, `Absent` where the table has no such key.
#[verifier::external_body]
pub(crate) fn table_entry(table: &toml::Table, key: &str) -> (entry: Entry)
    ensures
        entry.node() == node_at(table_nodes(*table), key@),
{
    match table.get(key) {
        None => Entry::Absent,
        Some(toml::Value::String(text)) => Entry::Text(text.clone()),
        Some(toml::Value::Table(inner)) => Entry::Table(inner.clone()),
        Some(toml::Value::Integer(_)) => Entry::Other,
        Some(toml::Value::Float(_)) => Entry::Other,
        Some(toml::Value::Boolean(_)) => Entry::Other,
        Some(toml::Value::Datetime(_)) => Entry::Other,
        Some(toml::Value::Array(_)) => Entry::Other,
    }
}

/// `toml::Table::keys`: every key of the table, each once. The order in
/// which they come is left open.
#[verifier::external_body]
pub(crate) fn table_keys(table: &toml::Table) -> (keys: Vec<String>)
    ensures
        strings_view(keys@).no_duplicates(),
        forall|key: Seq<char>|
            table_nodes(*table).dom().contains(key) <==> strings_view(keys@).contains(key),
{
    table.keys().cloned().collect()
}

/// `toml::from_str` for a table: the table that the text denotes, or the
/// message of the error. Both depend on the text alone.
#[verifier::external_body]
pub(crate) fn parse_document(text: &str) -> (parsed: Result<toml::Table, String>)
    ensures
        parsed_view(parsed) == toml_document(text@),
{
    toml::from_str::<toml::Table>(text).map_err(|error| error.to_string())
}

/// `toml::to_string_pretty` for a table of strings and tables: the text, or
/// the message of the error. Both depend on the entries alone, because the
/// table keeps its keys in their own order; with the crate's feature
/// `preserve_order` it would keep them as they were put in, and this would
/// not hold.
#[verifier::external_body]
pub(crate) fn render_document(table: &toml::Table) -> (rendered: Result<String, String>)
    requires
        plain(Node::Table(table_nodes(*table))),
    ensures
        rendered_view(rendered) == toml_text(table_nodes(*table)),
{
    toml::to_string_pretty(table).map_err(|error| error.to_string())
}

} // verus!
