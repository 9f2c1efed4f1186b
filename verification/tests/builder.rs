use netgene::builder::{BuilderEngine, BuilderError, NodeTemplate};
use netgene::json::{JsonNumber, JsonValue};
use std::collections::HashSet;

#[test]
fn test_provision_single_edge_node() {
    let mut engine = BuilderEngine::new();
    let nodes = engine.provision(NodeTemplate::Edge, 1).unwrap();
    assert_eq!(nodes.len(), 1);
    assert!(nodes[0].id.starts_with("edge-"));
    assert_eq!(nodes[0].status, "running");
}

#[test]
fn test_provision_multiple_nodes() {
    let mut engine = BuilderEngine::new();
    let nodes = engine.provision(NodeTemplate::Quantum, 3).unwrap();
    assert_eq!(nodes.len(), 3);
    assert_eq!(engine.list().len(), 3);
    let ids: HashSet<_> = nodes.iter().map(|n| &n.id).collect();
    assert_eq!(ids.len(), 3);
}

#[test]
fn test_from_intent_quantum() {
    let mut engine = BuilderEngine::new();
    let result = engine.from_intent("spawn 2 quantum nodes").unwrap();
    assert!(result.contains("Provisioned"));
    assert_eq!(engine.list().len(), 2);
}

#[test]
fn test_from_intent_gateway() {
    let mut engine = BuilderEngine::new();
    let result = engine.from_intent("create 1 gateway node").unwrap();
    assert!(result.contains("Provisioned"));
    assert!(engine.list().iter().any(|n| n.id.starts_with("gateway-")));
}

#[test]
fn test_from_intent_defaults_to_edge() {
    let mut engine = BuilderEngine::new();
    engine.from_intent("provision some nodes").unwrap();
    assert!(engine.list().iter().any(|n| n.id.starts_with("edge-")));
}

#[test]
fn test_node_config_contains_zero_trust() {
    let mut engine = BuilderEngine::new();
    let nodes = engine.provision(NodeTemplate::Core, 1).unwrap();
    let config = &nodes[0].config;
    assert_eq!(config.get("zero_trust"), Some(&JsonValue::Bool(true)));
    assert_eq!(config.get("mtls"), Some(&JsonValue::Bool(true)));
}

#[test]
fn test_node_template_display() {
    assert_eq!(NodeTemplate::Edge.to_text(), "edge");
    assert_eq!(NodeTemplate::Core.to_text(), "core");
    assert_eq!(NodeTemplate::Gateway.to_text(), "gateway");
    assert_eq!(NodeTemplate::Quantum.to_text(), "quantum");
    assert_eq!(NodeTemplate::Custom("ai".to_string()).to_text(), "custom:ai");
}

#[test]
fn test_list_grows_with_provisioning() {
    let mut engine = BuilderEngine::new();
    assert_eq!(engine.list().len(), 0);
    engine.provision(NodeTemplate::Edge, 2).unwrap();
    assert_eq!(engine.list().len(), 2);
    engine.provision(NodeTemplate::Core, 1).unwrap();
    assert_eq!(engine.list().len(), 3);
}

#[test]
fn provisioned_nodes_get_addresses_ports_and_sequence_numbers() {
    let mut engine = BuilderEngine::new();
    let first = engine.provision(NodeTemplate::Edge, 3).unwrap();
    let ips: Vec<&str> = first.iter().map(|n| n.ip.as_str()).collect();
    assert_eq!(ips, vec!["10.42.0.0", "10.42.0.1", "10.42.0.2"]);
    let ports: Vec<u16> = first.iter().map(|n| n.port).collect();
    assert_eq!(ports, vec![7000, 7001, 7002]);
    let seqs: Vec<Option<&JsonValue>> = first.iter().map(|n| n.config.get("sequence")).collect();
    assert_eq!(seqs[0], Some(&JsonValue::Number(JsonNumber::PosInt(0))));
    assert_eq!(seqs[1], Some(&JsonValue::Number(JsonNumber::PosInt(2))));
    assert_eq!(seqs[2], Some(&JsonValue::Number(JsonNumber::PosInt(4))));
    let second = engine.provision(NodeTemplate::Core, 1).unwrap();
    assert_eq!(second[0].ip, "10.42.0.3");
    assert_eq!(second[0].port, 7003);
    assert_eq!(second[0].config.get("sequence"), Some(&JsonValue::Number(JsonNumber::PosInt(3))));
    assert_eq!(second[0].config.get("auto_scale"), Some(&JsonValue::Bool(true)));
}

#[test]
fn node_ids_are_template_dash_eight_hex_digits() {
    let mut engine = BuilderEngine::new();
    let nodes = engine.provision(NodeTemplate::Custom("ai".to_string()), 1).unwrap();
    let id = &nodes[0].id;
    assert!(id.starts_with("custom:ai-"));
    let tail = &id["custom:ai-".len()..];
    assert_eq!(tail.len(), 8);
    assert!(tail.chars().all(|c| c.is_ascii_hexdigit() && !c.is_ascii_uppercase()));
}

#[test]
fn from_intent_reports_the_ids_it_provisioned() {
    let mut engine = BuilderEngine::new();
    let result = engine.from_intent("Spawn 2 CORE nodes").unwrap();
    let ids: Vec<String> = engine.list().iter().map(|n| n.id.clone()).collect();
    assert_eq!(result, format!("\u{2705} Provisioned 2 node(s): {}, {}", ids[0], ids[1]));
    assert!(ids.iter().all(|i| i.starts_with("core-")));
}

#[test]
fn from_intent_quantum_wins_over_gateway_and_core() {
    let mut engine = BuilderEngine::new();
    engine.from_intent("make a gateway core quantum node").unwrap();
    assert_eq!(engine.list().len(), 1);
    assert!(engine.list()[0].id.starts_with("quantum-"));
}

#[test]
fn from_intent_refuses_counts_past_the_port_range() {
    let mut engine = BuilderEngine::new();
    assert_eq!(engine.from_intent("spawn 70000 nodes"), Err(BuilderError::PortRangeExhausted));
    assert_eq!(engine.list().len(), 0);
}

#[test]
fn template_from_cli_name_defaults_to_edge() {
    assert_eq!(NodeTemplate::from_cli_name("core").to_text(), "core");
    assert_eq!(NodeTemplate::from_cli_name("gateway").to_text(), "gateway");
    assert_eq!(NodeTemplate::from_cli_name("quantum").to_text(), "quantum");
    assert_eq!(NodeTemplate::from_cli_name("mystery").to_text(), "edge");
}
