//! YAML is read by the `serde_yaml` crate. This module declares the crate's
//! value type, names what reading returns, and wraps the calls; nothing
//! stated here is proved.

use vstd::prelude::*;

verus! {

/// A YAML value of the `serde_yaml` crate. The library carries such values
/// and does not look into them.
#[verifier::external_type_specification]
#[verifier::external_body]
pub struct ExYamlValue(serde_yaml::Value);

/// One entry of a mapping.
#[derive(Debug)]
pub struct Entry {
    /// The key as a text; `None` where the key is not a string.
    pub key: Option<String>,
    pub value: ValueNode,
}

/// A YAML document as far as the library reads it: the mappings with their
/// entries in the order of the document, and whatever else stands in it as
/// leaves.
#[derive(Debug)]
pub enum ValueNode {
    Mapping(Vec<Entry>),
    Leaf(serde_yaml::Value),
}

/// What `serde_yaml::from_str` reads from a text: the value, or what the
/// error that it returns says.
pub uninterp spec fn yaml_value(content: Seq<char>) -> Result<serde_yaml::Value, Seq<char>>;

/// A reading with the error's message as a plain text.
pub open spec fn reading_view(reading: Result<serde_yaml::Value, String>) -> Result<
    serde_yaml::Value,
    Seq<char>,
> {
    match reading {
        Ok(value) => Ok(value),
        Err(message) => Err(message@),
    }
}

/// A value as a tree: a mapping with its entries in the order in which
/// `Mapping::into_iter` gives them, which is that of the document, each key
/// by what `Value::as_str` returns for it; any other value as a leaf.
pub uninterp spec fn yaml_node(value: serde_yaml::Value) -> ValueNode;

/// `serde_yaml::from_str`, for a value of any shape. Of an error it hands on
/// the message.
#[verifier::external_body]
pub(crate) fn read_yaml(content: &str) -> (reading: Result<serde_yaml::Value, String>)
    ensures
        reading_view(reading) == yaml_value(content@),
{
    serde_yaml::from_str::<serde_yaml::Value>(content).map_err(|error| error.to_string())
}

/// Tells a mapping from the other values, with `Mapping::into_iter` and
/// `Value::as_str`.
#[verifier::external_body]
pub(crate) fn node_of(value: serde_yaml::Value) -> (node: ValueNode)
    ensures
        node == yaml_node(value),
{
    match value {
        serde_yaml::Value::Mapping(map) => ValueNode::Mapping(
            map.into_iter().map(
                |(key, value)| Entry { key: key.as_str().map(str::to_owned), value: node_of(value) },
            ).collect(),
        ),
        leaf => ValueNode::Leaf(leaf),
    }
}

} // verus!
