use netgene::json::{JsonNumber, JsonValue};
use netgene::llm::client::{OllamaClient, DEFAULT_MODEL, DEFAULT_OLLAMA_URL, REQUEST_TIMEOUT_SECS};
use netgene::llm::intent::{extract_json, json_span_is_defined, LlmIntentEngine, LlmParsedIntent};

fn engine() -> LlmIntentEngine {
    let client = OllamaClient::new(Some("http://localhost:59999"), None);
    LlmIntentEngine::new(client)
}

fn num(n: u64) -> Option<&'static JsonValue> {
    Some(Box::leak(Box::new(JsonValue::Number(JsonNumber::PosInt(n)))))
}

fn text(s: &str) -> Option<&'static JsonValue> {
    Some(Box::leak(Box::new(JsonValue::Str(s.to_string()))))
}

#[test]
fn test_fallback_provision_nodes() {
    let e = engine();
    let intent = e.parse_reply("spawn 3 quantum nodes with HA", None);
    assert_eq!(intent.action, "provision_nodes");
    assert_eq!(intent.parameters.get("count"), num(3));
    assert_eq!(intent.parameters.get("template"), text("quantum"));
}

#[test]
fn test_fallback_optimize_network() {
    let e = engine();
    let intent = e.parse_reply("optimize routes for 10 nodes", None);
    assert_eq!(intent.action, "optimize_network");
    assert_eq!(intent.parameters.get("nodes"), num(10));
}

#[test]
fn test_fallback_anomaly_scan() {
    let e = engine();
    let intent = e.parse_reply("heal the network now", None);
    assert_eq!(intent.action, "trigger_anomaly_scan");
}

#[test]
fn test_fallback_system_status() {
    let e = engine();
    let intent = e.parse_reply("what is the system doing?", None);
    assert_eq!(intent.action, "system_status");
}

#[test]
fn test_fallback_create_gateway() {
    let e = engine();
    let intent = e.parse_reply("create 2 gateway nodes", None);
    assert_eq!(intent.action, "provision_nodes");
    assert_eq!(intent.parameters.get("template"), text("gateway"));
    assert_eq!(intent.parameters.get("count"), num(2));
}

#[test]
fn test_fallback_route_optimization_without_count() {
    let e = engine();
    let intent = e.parse_reply("quantum route optimization please", None);
    assert_eq!(intent.action, "optimize_network");
}

#[test]
fn fallback_explanations_and_defaults() {
    let e = engine();
    let i = e.fallback_parse("Provision CORE nodes");
    assert_eq!(i.explanation, "Fallback: provision 1 core node(s)");
    let i = e.fallback_parse("optimize");
    assert_eq!(i.parameters.get("nodes"), num(8));
    assert_eq!(i.explanation, "Fallback: optimize routing for network of 8 nodes");
    assert_eq!(e.fallback_parse("scan").explanation, "Fallback: run safeguard anomaly scan");
    assert_eq!(e.fallback_parse("hi").explanation, "Fallback: query system status");
}

#[test]
fn model_reading_wins_when_there_is_one() {
    let e = engine();
    let read = LlmParsedIntent {
        action: "custom".to_string(),
        parameters: JsonValue::Null,
        explanation: "why".to_string(),
    };
    let i = e.parse_reply("spawn 3 nodes", Some(read));
    assert_eq!(i.action, "custom");
    assert_eq!(i.explanation, "why");
}

#[test]
fn json_is_cut_from_the_first_brace_to_the_last() {
    assert_eq!(extract_json("Sure! {\"a\": {\"b\": 1}} done"), "{\"a\": {\"b\": 1}}");
    assert_eq!(extract_json("no json here"), "no json here");
    assert_eq!(extract_json("only { open"), "only { open");
    assert!(json_span_is_defined("}{"));
    assert_eq!(extract_json("}{"), "");
    assert!(!json_span_is_defined("x } y { z"));
}

#[test]
fn client_settings_default_and_trim() {
    let c = OllamaClient::new(None, None);
    assert_eq!(c.base_url(), DEFAULT_OLLAMA_URL);
    assert_eq!(c.model(), DEFAULT_MODEL);
    assert_eq!(c.timeout_secs(), REQUEST_TIMEOUT_SECS);
    let c = OllamaClient::new(Some("http://h:1//"), Some("m"));
    assert_eq!(c.base_url(), "http://h:1");
    assert_eq!(c.model(), "m");
}
