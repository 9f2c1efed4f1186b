use netgene::kernel::intent::{IntentAction, IntentParser};

#[test]
fn test_parse_spawn_node() {
    let intent = IntentParser::parse("criar 3 nós na rede");
    assert!(matches!(intent.action, IntentAction::SpawnNode { count: 3 }));
    assert!(intent.confidence_hundredths > 50);
}

#[test]
fn test_parse_optimize() {
    let intent = IntentParser::parse("optimize routes now");
    assert_eq!(intent.action, IntentAction::OptimizeRoutes);
}

#[test]
fn test_parse_quantum() {
    let intent = IntentParser::parse("run quantum optimization");
    assert!(matches!(intent.action, IntentAction::RunQuantum { .. }));
}

#[test]
fn test_parse_status() {
    let intent = IntentParser::parse("status");
    assert_eq!(intent.action, IntentAction::StatusReport);
}

#[test]
fn parse_rules_apply_in_order_with_their_confidence() {
    let i = IntentParser::parse("Spawn nodes");
    assert_eq!(i.action, IntentAction::SpawnNode { count: 1 });
    assert_eq!(i.confidence_hundredths, 92);
    let i = IntentParser::parse("spawn an optimizer agent");
    assert_eq!(i.action, IntentAction::SpawnAgent { agent_type: "optimizer".to_string() });
    assert_eq!(i.confidence_hundredths, 88);
    let i = IntentParser::parse("create agent");
    assert_eq!(i.action, IntentAction::SpawnAgent { agent_type: "builder".to_string() });
    let i = IntentParser::parse("otimizar rota quântica");
    assert_eq!(i.action, IntentAction::RunQuantum { problem: "routing".to_string() });
    assert_eq!(i.confidence_hundredths, 85);
    assert_eq!(IntentParser::parse("show topology").action, IntentAction::ShowNetwork);
    assert_eq!(IntentParser::parse("reparar tudo").action, IntentAction::HealNetwork);
    let i = IntentParser::parse("Hello There");
    assert_eq!(i.action, IntentAction::Unknown { raw: "Hello There".to_string() });
    assert_eq!(i.raw, "Hello There");
    assert_eq!(i.confidence_hundredths, 0);
}

#[test]
fn numbers_are_whole_words() {
    assert_eq!(IntentParser::extract_number("spawn x3 nodes 7 more 9"), Some(7));
    assert_eq!(IntentParser::extract_number("+5 nodes"), Some(5));
    assert_eq!(IntentParser::extract_number("-5 nodes"), None);
    assert_eq!(IntentParser::extract_number("4294967296 4294967295"), Some(4294967295));
    assert_eq!(IntentParser::extract_number(""), None);
}
