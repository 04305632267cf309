use coinbase_agent_kit_blueprint::docker::{
    normalize_docker_compose, normalized_outcome, same_order, sort_entries, ComposeError,
    EntryOrder,
};
use serde_yaml::Value;

const COMPOSE: &str = "version: '3'\nservices:\n  agent:\n    build: .\n    ports:\n      - '3000:3000'\n    environment:\n      - PORT=3000\n      - OPENAI_API_KEY=${OPENAI_API_KEY}\n      - CDP_API_KEY_NAME=${CDP_API_KEY_NAME}\n      - CDP_API_KEY_PRIVATE_KEY=${CDP_API_KEY_PRIVATE_KEY}\n";

fn text(s: &str) -> Value {
    Value::String(s.to_string())
}

fn environment(doc: &Value) -> Vec<Value> {
    doc["services"]["agent"]["environment"]
        .as_sequence()
        .unwrap()
        .clone()
}

#[test]
fn normalizing_sorts_the_environment() {
    let normalized = normalize_docker_compose(COMPOSE).unwrap();
    let doc: Value = serde_yaml::from_str(&normalized).unwrap();
    assert_eq!(
        environment(&doc),
        vec![
            text("CDP_API_KEY_NAME=${CDP_API_KEY_NAME}"),
            text("CDP_API_KEY_PRIVATE_KEY=${CDP_API_KEY_PRIVATE_KEY}"),
            text("OPENAI_API_KEY=${OPENAI_API_KEY}"),
            text("PORT=3000"),
        ]
    );
}

#[test]
fn normalizing_changes_nothing_but_the_order() {
    let normalized = normalize_docker_compose(COMPOSE).unwrap();
    let mut expected: Value = serde_yaml::from_str(COMPOSE).unwrap();
    expected["services"]["agent"]["environment"]
        .as_sequence_mut()
        .unwrap()
        .sort_by(|a, b| a.as_str().unwrap_or("").cmp(b.as_str().unwrap_or("")));
    let doc: Value = serde_yaml::from_str(&normalized).unwrap();
    assert_eq!(doc, expected);
    assert_eq!(normalized, serde_yaml::to_string(&expected).unwrap());
}

#[test]
fn normalizing_twice_changes_nothing_more() {
    let once = normalize_docker_compose(COMPOSE).unwrap();
    let twice = normalize_docker_compose(&once).unwrap();
    assert_eq!(once, twice);
}

#[test]
fn normalizing_without_an_environment_list_only_rewrites() {
    for input in [
        "version: '3'\n",
        "services:\n  other:\n    environment:\n      - B\n      - A\n",
        "services:\n  agent:\n    environment:\n      B: 1\n      A: 2\n",
        "services: 3\n",
        "- b\n- a\n",
    ] {
        let doc: Value = serde_yaml::from_str(input).unwrap();
        assert_eq!(
            normalize_docker_compose(input),
            Ok(serde_yaml::to_string(&doc).unwrap())
        );
    }
}

#[test]
fn normalizing_rejects_what_is_no_yaml() {
    let input = "services: [unclosed";
    let reason = serde_yaml::from_str::<Value>(input).unwrap_err().to_string();
    let e = normalize_docker_compose(input).unwrap_err();
    assert_eq!(
        e,
        ComposeError::Parse {
            reason: reason.clone()
        }
    );
    assert_eq!(
        e.message(),
        format!("Failed to parse Docker compose as YAML: {}", reason)
    );
}

#[test]
fn writer_outcome_is_passed_on() {
    assert_eq!(normalized_outcome(Ok("a: 1\n".to_string())), Ok("a: 1\n".to_string()));
    let e = normalized_outcome(Err("broken".to_string())).unwrap_err();
    assert_eq!(
        e,
        ComposeError::Write {
            reason: "broken".to_string()
        }
    );
    assert_eq!(e.message(), "Failed to serialize normalized YAML: broken");
}

#[test]
fn sort_is_stable_and_counts_other_nodes_as_empty() {
    let one: Value = serde_yaml::from_str("KEY: 1").unwrap();
    let two: Value = serde_yaml::from_str("KEY: 2").unwrap();
    let mut items = vec![
        text("b"),
        one.clone(),
        text("a"),
        Value::Null,
        text(""),
        two.clone(),
        text("a"),
        Value::Bool(true),
    ];
    let mut expected = items.clone();
    expected.sort_by(|a, b| a.as_str().unwrap_or("").cmp(b.as_str().unwrap_or("")));
    sort_entries(&mut items);
    assert_eq!(items, expected);
    assert_eq!(
        items,
        vec![
            one,
            Value::Null,
            text(""),
            two,
            Value::Bool(true),
            text("a"),
            text("a"),
            text("b"),
        ]
    );
}

#[test]
fn sort_of_few_items() {
    let mut none: Vec<Value> = vec![];
    sort_entries(&mut none);
    assert_eq!(none, Vec::<Value>::new());
    let mut single = vec![text("x")];
    sort_entries(&mut single);
    assert_eq!(single, vec![text("x")]);
    let mut pair = vec![text("y"), text("x")];
    sort_entries(&mut pair);
    assert_eq!(pair, vec![text("x"), text("y")]);
}

#[test]
fn orders_compare_by_variant() {
    assert!(same_order(EntryOrder::Before, EntryOrder::Before));
    assert!(same_order(EntryOrder::Same, EntryOrder::Same));
    assert!(same_order(EntryOrder::After, EntryOrder::After));
    assert!(!same_order(EntryOrder::Before, EntryOrder::After));
    assert!(!same_order(EntryOrder::Same, EntryOrder::Before));
    assert!(!same_order(EntryOrder::After, EntryOrder::Same));
}
