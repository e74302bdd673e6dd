//! The values reader: it flattens the nested mappings of a chart's values
//! document into dotted paths.

use crate::helm::values::{distinct_paths, inserted, lemma_inserted_distinct, ChartValues};
use crate::helm::yaml::{node_of, read_yaml, yaml_node, yaml_value, Entry, ValueNode};
use vstd::prelude::*;

verus! {

/// A values document that cannot be used.
#[derive(Debug)]
pub struct ValuesParseError {
    message: String,
}

impl View for ValuesParseError {
    type V = Seq<char>;

    closed spec fn view(&self) -> Seq<char> {
        self.message@
    }
}

impl ValuesParseError {
    pub fn new(msg: String) -> (made: ValuesParseError)
        ensures
            made@ == msg@,
    {
        ValuesParseError { message: msg }
    }

    /// What went wrong, in words.
    pub fn message(&self) -> (message: &String)
        ensures
            message@ == self@,
    {
        &self.message
    }
}

/// The path of an entry with the key `key` in a mapping that stands under
/// `parent`: the key alone at the top, else the parent's path, the
/// delimiter and the key.
pub open spec fn child_path(parent: Seq<char>, delimiter: Seq<char>, key: Seq<char>) -> Seq<char> {
    if parent.len() == 0 {
        key
    } else {
        parent + delimiter + key
    }
}

/// The leaves under a node that stands under `path`, each with its path, in
/// the order of the document. `None` where a key is not a string.
pub open spec fn leaves_of(node: ValueNode, path: Seq<char>, delimiter: Seq<char>) -> Option<
    Seq<(Seq<char>, serde_yaml::Value)>,
>
    decreases node, 0nat,
{
    match node {
        ValueNode::Leaf(value) => Some(seq![(path, value)]),
        ValueNode::Mapping(entries) => leaves_under(entries@, path, delimiter, entries@.len()),
    }
}

/// The leaves under the first `count` entries of a mapping that stands under
/// `parent`.
pub open spec fn leaves_under(
    entries: Seq<Entry>,
    parent: Seq<char>,
    delimiter: Seq<char>,
    count: nat,
) -> Option<Seq<(Seq<char>, serde_yaml::Value)>>
    decreases entries, count,
{
    if count == 0 || count > entries.len() {
        Some(Seq::empty())
    } else {
        let entry = entries[count - 1];
        match (leaves_under(entries, parent, delimiter, (count - 1) as nat), entry.key) {
            (Some(before), Some(key)) => match leaves_of(
                entry.value,
                child_path(parent, delimiter, key@),
                delimiter,
            ) {
                Some(leaves) => Some(before + leaves),
                None => None,
            },
            _ => None,
        }
    }
}

/// The entries after each of the leaves is put in, in order.
pub open spec fn inserted_all(
    entries: Seq<(Seq<char>, serde_yaml::Value)>,
    leaves: Seq<(Seq<char>, serde_yaml::Value)>,
) -> Seq<(Seq<char>, serde_yaml::Value)>
    decreases leaves.len(),
{
    if leaves.len() == 0 {
        entries
    } else {
        inserted(inserted_all(entries, leaves.drop_last()), leaves.last().0, leaves.last().1)
    }
}

/// What flattening a document comes to: the values by their paths, or what
/// the error says.
pub enum Flattened {
    Values(Seq<(Seq<char>, serde_yaml::Value)>),
    Refused(Seq<char>),
}

/// What flattening `document` comes to. A document that is no mapping is
/// refused, and so is one with a key that is not a string. The leaves are put
/// in under their paths in the order of the document, so of two leaves with
/// one path the later one stays.
pub open spec fn flattened(document: ValueNode, delimiter: Seq<char>) -> Flattened {
    match document {
        ValueNode::Mapping(entries) => match leaves_under(
            entries@,
            Seq::empty(),
            delimiter,
            entries@.len(),
        ) {
            Some(leaves) => Flattened::Values(inserted_all(Seq::empty(), leaves)),
            None => Flattened::Refused("Failed to process values.yaml key"@),
        },
        ValueNode::Leaf(_) => Flattened::Refused("Helm values.yaml should be a map"@),
    }
}

/// What reading the text of a values document comes to. A text that is no
/// YAML is refused with what the YAML reader says of it.
pub open spec fn read_values(content: Seq<char>, delimiter: Seq<char>) -> Flattened {
    match yaml_value(content) {
        Ok(value) => flattened(yaml_node(value), delimiter),
        Err(message) => Flattened::Refused(message),
    }
}

/// What a result of the reader stands for.
pub open spec fn flattened_view(result: Result<ChartValues, ValuesParseError>) -> Flattened {
    match result {
        Ok(values) => Flattened::Values(values@),
        Err(error) => Flattened::Refused(error@),
    }
}

/// Reads the values document of a chart.
#[derive(Debug)]
pub struct ChartValuesParser {
    delimiter: String,
}

impl View for ChartValuesParser {
    type V = Seq<char>;

    /// What stands between the keys of a path.
    closed spec fn view(&self) -> Seq<char> {
        self.delimiter@
    }
}

impl ChartValuesParser {
    /// A reader that puts a dot between the keys of a path.
    pub fn new() -> (made: ChartValuesParser)
        ensures
            made@ == "."@,
    {
        ChartValuesParser { delimiter: ".".to_owned() }
    }

    /// Reads the text of a values document and flattens it.
    pub fn parse(&self, content: &str) -> (values: Result<ChartValues, ValuesParseError>)
        ensures
            flattened_view(values) == read_values(content@, self@),
            values matches Ok(found) ==> distinct_paths(found@),
    {
        match read_yaml(content) {
            Ok(value) => self.flatten(node_of(value)),
            Err(message) => Err(ValuesParseError::new(message)),
        }
    }

    /// Flattens a document into the values by their paths.
    pub fn flatten(&self, document: ValueNode) -> (values: Result<ChartValues, ValuesParseError>)
        ensures
            flattened_view(values) == flattened(document, self@),
            values matches Ok(found) ==> distinct_paths(found@),
    {
        proof {
            lemma_flattened_distinct(document, self@);
        }
        match document {
            ValueNode::Mapping(entries) => {
                let mut values = ChartValues::new();
                proof {
                    reveal_strlit("");
                    assert(""@ == Seq::<char>::empty());
                }
                match self.process_map("", &mut values, entries) {
                    Ok(_) => Ok(values),
                    Err(error) => Err(error),
                }
            },
            ValueNode::Leaf(_) => Err(
                ValuesParseError::new("Helm values.yaml should be a map".to_owned()),
            ),
        }
    }

    /// Puts the leaves under the entries of a mapping that stands under
    /// `parent_path` into `values`. Where it fails, `values` may hold some of
    /// them.
    pub fn process_map(&self, parent_path: &str, values: &mut ChartValues, entries: Vec<Entry>) -> (done:
        Result<(), ValuesParseError>)
        ensures
            match done {
                Ok(_) => leaves_under(entries@, parent_path@, self@, entries@.len()) is Some
                    && final(values)@ == inserted_all(
                    old(values)@,
                    leaves_under(entries@, parent_path@, self@, entries@.len())->0,
                ),
                Err(error) => leaves_under(entries@, parent_path@, self@, entries@.len()) is None
                    && error@ == "Failed to process values.yaml key"@,
            },
        decreases entries,
    {
        let ghost all = entries@;
        let mut curr_path = parent_path.to_owned();
        if !parent_path.is_empty() {
            curr_path.append(self.delimiter.as_str());
        }
        assert(inserted_all(values@, Seq::empty()) == values@);
        for entry in it: entries
            invariant
                it.seq() == all,
                curr_path@ == if parent_path@.len() == 0 {
                    parent_path@
                } else {
                    parent_path@ + self@
                },
                leaves_under(all, parent_path@, self@, it.index() as nat) is Some,
                values@ == inserted_all(
                    old(values)@,
                    leaves_under(all, parent_path@, self@, it.index() as nat)->0,
                ),
        {
            let ghost index = it.index() as nat;
            let ghost before = leaves_under(all, parent_path@, self@, index)->0;
            assert(index < all.len() && all[index as int] == entry);
            let Entry { key, value } = entry;
            let key = match key {
                Some(key) => key,
                None => {
                    proof {
                        lemma_leaves_fail(all, parent_path@, self@, index + 1, all.len());
                    }
                    return Err(
                        ValuesParseError::new("Failed to process values.yaml key".to_owned()),
                    );
                },
            };
            let mut path = curr_path.clone();
            path.append(key.as_str());
            assert(path@ == child_path(parent_path@, self@, key@));
            let ghost under = leaves_of(value, path@, self@);
            assert(leaves_under(all, parent_path@, self@, index + 1) == match under {
                Some(leaves) => Some(before + leaves),
                None => None,
            });
            match value {
                ValueNode::Mapping(nested) => {
                    assert(under == leaves_under(nested@, path@, self@, nested@.len()));
                    let ghost held = values@;
                    match self.process_map(path.as_str(), values, nested) {
                        Ok(_) => {
                            proof {
                                lemma_inserted_all_append(old(values)@, before, under->0);
                                assert(values@ == inserted_all(held, under->0));
                            }
                        },
                        Err(error) => {
                            proof {
                                lemma_leaves_fail(all, parent_path@, self@, index + 1, all.len());
                            }
                            return Err(error);
                        },
                    }
                },
                ValueNode::Leaf(leaf) => {
                    let ghost held = values@;
                    let ghost leaves = seq![(path@, leaf)];
                    assert(under == Some(leaves));
                    values.insert(path, leaf);
                    proof {
                        lemma_inserted_all_append(old(values)@, before, leaves);
                        assert(leaves.drop_last() == Seq::<(Seq<char>, serde_yaml::Value)>::empty());
                        assert(inserted_all(held, leaves.drop_last()) == held);
                        assert(inserted_all(held, leaves) == inserted(held, path@, leaf));
                    }
                },
            }
        }
        Ok(())
    }
}

/// Where the leaves under the first entries of a mapping cannot be listed,
/// those under more of its entries cannot be listed either.
proof fn lemma_leaves_fail(
    entries: Seq<Entry>,
    parent: Seq<char>,
    delimiter: Seq<char>,
    failed: nat,
    count: nat,
)
    requires
        1 <= failed <= count <= entries.len(),
        leaves_under(entries, parent, delimiter, failed) is None,
    ensures
        leaves_under(entries, parent, delimiter, count) is None,
    decreases count,
{
    if failed < count {
        lemma_leaves_fail(entries, parent, delimiter, failed, (count - 1) as nat);
    }
}

/// Putting leaves in keeps the paths distinct.
pub proof fn lemma_inserted_all_distinct(
    entries: Seq<(Seq<char>, serde_yaml::Value)>,
    leaves: Seq<(Seq<char>, serde_yaml::Value)>,
)
    requires
        distinct_paths(entries),
    ensures
        distinct_paths(inserted_all(entries, leaves)),
    decreases leaves.len(),
{
    if leaves.len() > 0 {
        lemma_inserted_all_distinct(entries, leaves.drop_last());
        lemma_inserted_distinct(
            inserted_all(entries, leaves.drop_last()),
            leaves.last().0,
            leaves.last().1,
        );
    }
}

/// The values of a document that is flattened have distinct paths.
pub proof fn lemma_flattened_distinct(document: ValueNode, delimiter: Seq<char>)
    ensures
        flattened(document, delimiter) matches Flattened::Values(values) ==> distinct_paths(
            values,
        ),
{
    if let ValueNode::Mapping(entries) = document {
        if let Some(leaves) = leaves_under(entries@, Seq::empty(), delimiter, entries@.len()) {
            lemma_inserted_all_distinct(Seq::empty(), leaves);
        }
    }
}

/// Putting in two runs of leaves, one after the other, is putting in the
/// run that they make together.
pub proof fn lemma_inserted_all_append(
    entries: Seq<(Seq<char>, serde_yaml::Value)>,
    first: Seq<(Seq<char>, serde_yaml::Value)>,
    second: Seq<(Seq<char>, serde_yaml::Value)>,
)
    ensures
        inserted_all(entries, first + second) == inserted_all(inserted_all(entries, first), second),
    decreases second.len(),
{
    if second.len() == 0 {
        assert(first + second == first);
    } else {
        lemma_inserted_all_append(entries, first, second.drop_last());
        assert((first + second).drop_last() == first + second.drop_last());
        assert((first + second).last() == second.last());
    }
}

} // verus!
