//! Reading a YAML document whose root is a mapping.
use vstd::prelude::*;

verus! {

/// `serde_yaml::Value`, one node of a YAML document.
#[verifier::external_type_specification]
#[verifier::external_body]
pub struct ExYamlValue(serde_yaml::Value);

/// `serde_yaml::Error`, why a document could not be read.
#[verifier::external_type_specification]
#[verifier::external_body]
pub struct ExYamlError(serde_yaml::Error);

/// The content of a YAML node, as far as settings read it.
pub enum Yaml {
    /// A string.
    Text(Seq<char>),
    /// A number, by the text that it is written back as.
    Number(Seq<char>),
    /// `true` or `false`.
    Flag(bool),
    /// A sequence.
    List(Seq<Yaml>),
    /// Null, a mapping, or a tagged node.
    Other,
}

/// A YAML node of plain values.
pub enum YamlValue {
    /// A string.
    Text(String),
    /// A number, by the text that it is written back as.
    Number(String),
    /// `true` or `false`.
    Flag(bool),
    /// A sequence.
    List(Vec<YamlValue>),
    /// Null, a mapping, or a tagged node.
    Other,
}

impl View for YamlValue {
    type V = Yaml;

    open spec fn view(&self) -> Yaml
        decreases self,
    {
        match self {
            YamlValue::Text(s) => Yaml::Text(s@),
            YamlValue::Number(s) => Yaml::Number(s@),
            YamlValue::Flag(b) => Yaml::Flag(*b),
            YamlValue::List(items) => Yaml::List(
                Seq::new(
                    items@.len(),
                    |i: int|
                        if 0 <= i < items@.len() {
                            items@[i].view()
                        } else {
                            Yaml::Other
                        },
                ),
            ),
            YamlValue::Other => Yaml::Other,
        }
    }
}

/// The entries of a mapping of plain values.
pub open spec fn entry_views(entries: Seq<(YamlValue, YamlValue)>) -> Seq<(Yaml, Yaml)> {
    entries.map_values(|e: (YamlValue, YamlValue)| (e.0@, e.1@))
}

/// What a `serde_yaml::Value` holds.
pub uninterp spec fn yaml_content(node: serde_yaml::Value) -> Yaml;

/// The message of the YAML reader's error.
pub uninterp spec fn yaml_message(error: serde_yaml::Error) -> Seq<char>;

/// The entries of the mapping that a YAML text writes, in the order of the text, keys
/// first; the reader's message where the text is no YAML or its root is no mapping. A text
/// without content writes an empty mapping; a written null is none.
pub uninterp spec fn yaml_document(text: Seq<char>) -> Result<Seq<(Yaml, Yaml)>, Seq<char>>;

/// The contents of a list of nodes.
pub open spec fn yaml_contents(nodes: Seq<serde_yaml::Value>) -> Seq<Yaml> {
    nodes.map_values(|n: serde_yaml::Value| yaml_content(n))
}

/// The contents of a list of entries.
pub open spec fn yaml_entries(
    entries: Seq<(serde_yaml::Value, serde_yaml::Value)>,
) -> Seq<(Yaml, Yaml)> {
    entries.map_values(
        |e: (serde_yaml::Value, serde_yaml::Value)| (yaml_content(e.0), yaml_content(e.1)),
    )
}

/// One layer of a node.
enum YamlNode {
    Text(String),
    Number(String),
    Flag(bool),
    List(Vec<serde_yaml::Value>),
    Other,
}

impl YamlNode {
    /// The node that this layer is the top of.
    spec fn content(self) -> Yaml {
        match self {
            YamlNode::Text(s) => Yaml::Text(s@),
            YamlNode::Number(s) => Yaml::Number(s@),
            YamlNode::Flag(b) => Yaml::Flag(b),
            YamlNode::List(nodes) => Yaml::List(yaml_contents(nodes@)),
            YamlNode::Other => Yaml::Other,
        }
    }
}

/// `serde_yaml::from_str` into a `serde_yaml::Mapping`, and the mapping's entries: they are
/// [`yaml_document`] of the text, and an error comes exactly where that is a message, with
/// that message.
#[verifier::external_body]
fn read_entries(text: &str) -> (r: Result<
    Vec<(serde_yaml::Value, serde_yaml::Value)>,
    serde_yaml::Error,
>)
    ensures
        match r {
            Ok(entries) => yaml_document(text@) == Ok::<Seq<(Yaml, Yaml)>, Seq<char>>(
                yaml_entries(entries@),
            ),
            Err(e) => yaml_document(text@) == Err::<Seq<(Yaml, Yaml)>, Seq<char>>(yaml_message(e)),
        },
{
    match serde_yaml::from_str::<serde_yaml::Mapping>(text) {
        Ok(mapping) => Ok(mapping.into_iter().collect()),
        Err(e) => Err(e),
    }
}

/// The variants of `serde_yaml::Value` told apart; a number is given by its `Display` text.
/// The layer holds what the node holds.
#[verifier::external_body]
fn open_node(node: serde_yaml::Value) -> (r: YamlNode)
    ensures
        r.content() == yaml_content(node),
{
    match node {
        serde_yaml::Value::String(s) => YamlNode::Text(s),
        serde_yaml::Value::Number(n) => YamlNode::Number(n.to_string()),
        serde_yaml::Value::Bool(b) => YamlNode::Flag(b),
        serde_yaml::Value::Sequence(nodes) => YamlNode::List(nodes),
        serde_yaml::Value::Null => YamlNode::Other,
        serde_yaml::Value::Mapping(_) => YamlNode::Other,
        serde_yaml::Value::Tagged(_) => YamlNode::Other,
    }
}

/// `Display` of `serde_yaml::Error`: the text is [`yaml_message`] of the error.
#[verifier::external_body]
pub(crate) fn error_message(error: &serde_yaml::Error) -> (r: String)
    ensures
        r@ == yaml_message(*error),
{
    error.to_string()
}

/// The node in plain values.
fn plain_node(node: serde_yaml::Value) -> (r: YamlValue)
    ensures
        r@ == yaml_content(node),
    decreases yaml_content(node),
{
    match open_node(node) {
        YamlNode::Text(s) => YamlValue::Text(s),
        YamlNode::Number(s) => YamlValue::Number(s),
        YamlNode::Flag(b) => YamlValue::Flag(b),
        YamlNode::Other => YamlValue::Other,
        YamlNode::List(nodes) => {
            let ghost all = nodes@;
            let mut left: Vec<serde_yaml::Value> = nodes;
            let mut items: Vec<YamlValue> = Vec::new();
            while left.len() > 0
                invariant
                    left@ == all.skip(items@.len() as int),
                    items@.len() <= all.len(),
                    yaml_content(node) == Yaml::List(yaml_contents(all)),
                    forall|i: int|
                        0 <= i < items@.len() ==> #[trigger] items@[i]@ == yaml_content(all[i]),
                decreases left.len(),
            {
                let ghost k = items@.len() as int;
                let first: serde_yaml::Value = left.remove(0);
                assert(first == all[k]);
                proof {
                    let whole = yaml_content(node);
                    assert(yaml_contents(all)[k] == yaml_content(first));
                    assert(decreases_to!(whole => whole->List_0));
                    assert(decreases_to!(whole->List_0 => whole->List_0[k]));
                }
                items.push(plain_node(first));
                assert(left@ == all.skip(k + 1));
            }
            assert(items@.len() == all.len());
            let r = YamlValue::List(items);
            assert forall|i: int| 0 <= i < all.len() implies #[trigger] r@->List_0[i]
                == yaml_contents(all)[i] by {
                assert(items@[i]@ == yaml_content(all[i]));
            }
            assert(r@->List_0 == yaml_contents(all));
            r
        },
    }
}

/// Reads a YAML text whose root is a mapping.
pub fn parse_mapping(text: &str) -> (r: Result<Vec<(YamlValue, YamlValue)>, serde_yaml::Error>)
    ensures
        match r {
            Ok(entries) => yaml_document(text@) == Ok::<Seq<(Yaml, Yaml)>, Seq<char>>(
                entry_views(entries@),
            ),
            Err(e) => yaml_document(text@) == Err::<Seq<(Yaml, Yaml)>, Seq<char>>(yaml_message(e)),
        },
{
    match read_entries(text) {
        Ok(entries) => {
            let ghost all = entries@;
            let mut left: Vec<(serde_yaml::Value, serde_yaml::Value)> = entries;
            let mut plain: Vec<(YamlValue, YamlValue)> = Vec::new();
            while left.len() > 0
                invariant
                    left@ == all.skip(plain@.len() as int),
                    plain@.len() <= all.len(),
                    entry_views(plain@) == yaml_entries(all).take(plain@.len() as int),
                decreases left.len(),
            {
                let ghost k = plain@.len() as int;
                let ghost before = entry_views(plain@);
                let (key, value) = left.remove(0);
                plain.push((plain_node(key), plain_node(value)));
                assert(left@ == all.skip(k + 1));
                assert(entry_views(plain@) == before.push(yaml_entries(all)[k]));
                assert(yaml_entries(all).take(k + 1) == yaml_entries(all).take(k).push(
                    yaml_entries(all)[k],
                ));
            }
            assert(yaml_entries(all).take(all.len() as int) == yaml_entries(all));
            Ok(plain)
        },
        Err(e) => Err(e),
    }
}

/// The contents of lists of nodes and of entries are those of their elements, in order.
pub proof fn law_contents_keep_the_order(
    nodes: Seq<serde_yaml::Value>,
    entries: Seq<(serde_yaml::Value, serde_yaml::Value)>,
    k: int,
)
    ensures
        yaml_contents(nodes).len() == nodes.len(),
        0 <= k < nodes.len() ==> yaml_contents(nodes)[k] == yaml_content(nodes[k]),
        yaml_entries(entries).len() == entries.len(),
        0 <= k < entries.len() ==> yaml_entries(entries)[k] == (
            yaml_content(entries[k].0),
            yaml_content(entries[k].1),
        ),
{
}

} // verus!
