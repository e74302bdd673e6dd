use chartpedia::helm::parser::{ChartValuesParser, ValuesParseError};
use chartpedia::helm::values::ChartValues;
use chartpedia::helm::yaml::{Entry, ValueNode};
use serde_yaml::Value;

fn leaf(text: &str) -> ValueNode {
    ValueNode::Leaf(Value::String(text.to_string()))
}

fn entry(key: &str, value: ValueNode) -> Entry {
    Entry { key: Some(key.to_string()), value }
}

fn paths(values: &ChartValues) -> Vec<String> {
    values.entries().iter().map(|entry| entry.path.clone()).collect()
}

#[test]
fn values_file_is_flattened_into_dotted_paths() {
    let values = ChartValuesParser::new()
        .parse("image:\n  repository: nginx\n  tag: latest\nreplicas: 2\nnested:\n  a:\n    b: [1, 2]\n  c: ~\n")
        .unwrap();
    assert_eq!(
        paths(&values),
        vec!["image.repository", "image.tag", "replicas", "nested.a.b", "nested.c"]
    );
    assert_eq!(values.len(), 5);
    assert_eq!(values.get(&"image.tag".to_string()), Some(&Value::String("latest".to_string())));
    assert_eq!(values.get(&"replicas".to_string()), Some(&Value::Number(2.into())));
    assert_eq!(values.get(&"nested.c".to_string()), Some(&Value::Null));
    assert!(values.get(&"nested.a.b".to_string()).unwrap().is_sequence());
    assert_eq!(values.get(&"image".to_string()), None);
    assert_eq!(values.get(&"nested.a".to_string()), None);
}

#[test]
fn empty_mapping_has_no_values() {
    let values = ChartValuesParser::new().parse("{}").unwrap();
    assert_eq!(values.len(), 0);
    let nested = ChartValuesParser::new().parse("a: {}\nb:\n  c: {}\n").unwrap();
    assert_eq!(nested.len(), 0);
}

#[test]
fn later_leaf_with_the_same_path_stays() {
    let values = ChartValuesParser::new().parse("a.b: 1\nc: 0\na:\n  b: 2\n").unwrap();
    assert_eq!(paths(&values), vec!["a.b", "c"]);
    assert_eq!(values.get(&"a.b".to_string()), Some(&Value::Number(2.into())));
}

#[test]
fn document_that_is_no_mapping_is_refused() {
    let error: ValuesParseError = ChartValuesParser::new().parse("- a\n- b\n").unwrap_err();
    assert_eq!(error.message(), "Helm values.yaml should be a map");
    let error = ChartValuesParser::new().parse("just text").unwrap_err();
    assert_eq!(error.message(), "Helm values.yaml should be a map");
    let error = ChartValuesParser::new().flatten(leaf("x")).unwrap_err();
    assert_eq!(error.message(), "Helm values.yaml should be a map");
}

#[test]
fn key_that_is_no_string_is_refused() {
    let error = ChartValuesParser::new().parse("a: 1\n2: b\n").unwrap_err();
    assert_eq!(error.message(), "Failed to process values.yaml key");
    let error = ChartValuesParser::new().parse("a:\n  b:\n    [1]: c\n").unwrap_err();
    assert_eq!(error.message(), "Failed to process values.yaml key");
    let document = ValueNode::Mapping(vec![Entry { key: None, value: leaf("x") }]);
    let error = ChartValuesParser::new().flatten(document).unwrap_err();
    assert_eq!(error.message(), "Failed to process values.yaml key");
}

#[test]
fn text_that_is_no_yaml_is_refused() {
    let text = "a: [1, 2";
    let error = ChartValuesParser::new().parse(text).unwrap_err();
    let said = serde_yaml::from_str::<Value>(text).unwrap_err().to_string();
    assert_eq!(error.message(), &said);
    assert!(error.message().contains("line 1"));
    let other = ChartValuesParser::new().parse("a: b: c").unwrap_err();
    assert!(other.message().contains("mapping values are not allowed"));
    assert!(other.message() != error.message());
}

#[test]
fn flatten_walks_the_tree_in_order() {
    let document = ValueNode::Mapping(vec![
        entry("b", ValueNode::Mapping(vec![entry("y", leaf("1")), entry("x", leaf("2"))])),
        entry("a", leaf("3")),
        entry("", ValueNode::Mapping(vec![entry("k", leaf("4"))])),
        entry("e", ValueNode::Mapping(vec![entry("", leaf("5"))])),
    ]);
    let values = ChartValuesParser::new().flatten(document).unwrap();
    assert_eq!(paths(&values), vec!["b.y", "b.x", "a", "k", "e."]);
    assert_eq!(values.get(&"b.x".to_string()), Some(&Value::String("2".to_string())));
}

#[test]
fn process_map_adds_to_what_is_there() {
    let mut values = ChartValues::new();
    values.insert("top.old".to_string(), Value::Bool(true));
    let done = ChartValuesParser::new().process_map(
        "top",
        &mut values,
        vec![entry("new", leaf("n")), entry("old", leaf("o"))],
    );
    assert!(done.is_ok());
    assert_eq!(paths(&values), vec!["top.old", "top.new"]);
    assert_eq!(values.get(&"top.old".to_string()), Some(&Value::String("o".to_string())));
}

#[test]
fn insert_replaces_the_value_under_a_path() {
    let mut values = ChartValues::new();
    assert_eq!(values.len(), 0);
    values.insert("a".to_string(), Value::Bool(true));
    values.insert("b".to_string(), Value::Bool(false));
    values.insert("a".to_string(), Value::Null);
    assert_eq!(values.len(), 2);
    assert_eq!(paths(&values), vec!["a", "b"]);
    assert_eq!(values.get(&"a".to_string()), Some(&Value::Null));
    assert_eq!(values.get(&"b".to_string()), Some(&Value::Bool(false)));
    assert_eq!(values.get(&"c".to_string()), None);
}

#[test]
fn values_parse_error_keeps_its_message() {
    assert_eq!(ValuesParseError::new("broken".to_string()).message(), "broken");
}
