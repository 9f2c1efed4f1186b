use netgene::ids::Timestamp;
use netgene::json::{JsonField, JsonNumber, JsonValue};
use netgene::kernel::agent::{
    AgentMessage, AgentStatus, BuilderAgent, EvolutionAgent, MessageKind, MonitorAgent,
    NetworkAgent, OptimizerAgent,
};
use netgene::kernel::dispatch::{failure_intent, intent_log_line, plan_dispatch, DispatchPlan};
use netgene::kernel::error::KernelError;
use netgene::kernel::memory::KernelMemory;
use netgene::kernel::registry::{boot_agents, AgentRegistry};
use netgene::llm::client::OllamaClient;
use netgene::llm::intent::{LlmIntentEngine, LlmParsedIntent};

fn obj(fields: Vec<(&str, JsonValue)>) -> JsonValue {
    JsonValue::Object(
        fields.into_iter().map(|(k, v)| JsonField { key: k.to_string(), value: v }).collect(),
    )
}

fn text(s: &str) -> JsonValue {
    JsonValue::Str(s.to_string())
}

fn num(n: u64) -> JsonValue {
    JsonValue::Number(JsonNumber::PosInt(n))
}

fn msg(kind: MessageKind, payload: JsonValue) -> AgentMessage {
    AgentMessage::new(Some(42), None, kind, payload).unwrap()
}

/// The intent the kernel acts on when the model is unreachable.
fn offline_intent(input: &str) -> LlmParsedIntent {
    let engine = LlmIntentEngine::new(OllamaClient::new(Some("http://localhost:59999"), None));
    engine.parse_reply(input, None)
}

#[test]
fn test_kernel_boot_has_five_agents() {
    let (_core, registry) = boot_agents().unwrap();
    let agents = registry.agent_list();
    assert_eq!(agents.len(), 5, "Expected exactly 5 agents");
    let names: Vec<_> = agents.iter().map(|a| a.name.as_str()).collect();
    assert!(names.contains(&"BuilderAgent"));
    assert!(names.contains(&"MonitorAgent"));
    assert!(names.contains(&"OptimizerAgent"));
    assert!(names.contains(&"NetworkAgent"));
    assert!(names.contains(&"EvolutionAgent"));
}

#[test]
fn test_kernel_dispatch_spawn_intent() {
    let input = "spawn 2 nodes";
    let plan = plan_dispatch(input, &offline_intent(input));
    let result = match plan {
        DispatchPlan::Send { reply, .. } => reply,
        DispatchPlan::Answer { reply } => reply,
    };
    assert!(result.contains("Intent dispatched") || result.contains("acknowledged"));
}

#[test]
fn test_kernel_dispatch_unknown_intent() {
    let input = "xyzzy plugh";
    let plan = plan_dispatch(input, &offline_intent(input));
    let result = match plan {
        DispatchPlan::Send { reply, .. } => reply,
        DispatchPlan::Answer { reply } => reply,
    };
    assert!(result.contains("not recognized") || result.contains("Intent"));
}

#[test]
fn test_kernel_dispatch_optimize_intent() {
    let input = "optimize routes";
    let plan = plan_dispatch(input, &offline_intent(input));
    let result = match plan {
        DispatchPlan::Send { reply, .. } => reply,
        DispatchPlan::Answer { reply } => reply,
    };
    assert!(result.contains("dispatched") || result.contains("acknowledged"));
}

#[test]
fn test_kernel_memory_log_event() {
    let mut mem = KernelMemory::new();
    assert!(mem.log_event("test-event-alpha".to_string()));
    assert!(mem.log_event("test-event-beta".to_string()));
    let recent = mem.recent_events(5);
    assert!(recent.iter().any(|e| e.contains("test-event-beta")));
}

#[test]
fn test_kernel_memory_store_and_retrieve() {
    let mut mem = KernelMemory::new();
    let id = mem.store("intent", obj(vec![("action", text("spawn_node"))]), vec!["spawn".to_string()]).unwrap();
    let entry = mem.get(&id);
    assert!(entry.is_some());
    assert_eq!(entry.unwrap().kind, "intent");
}

#[test]
fn test_kernel_memory_search_by_tag() {
    let mut mem = KernelMemory::new();
    mem.store("event", text("data"), vec!["anomaly".to_string(), "critical".to_string()]).unwrap();
    let results = mem.search_by_tag("anomaly");
    assert!(!results.is_empty());
}

#[test]
fn memory_search_finds_exactly_the_matching_entries() {
    let mut mem = KernelMemory::new();
    let a = mem.store("event", text("a"), vec!["anomaly".to_string()]).unwrap();
    let b = mem.store("intent", text("b"), vec!["spawn".to_string(), "anomaly".to_string()]).unwrap();
    let _c = mem.store("event", text("c"), vec!["spawn".to_string()]).unwrap();
    assert_eq!(mem.entry_count(), 3);
    let mut tagged: Vec<u128> = mem.search_by_tag("anomaly").iter().map(|e| e.id).collect();
    tagged.sort();
    let mut expected = vec![a, b];
    expected.sort();
    assert_eq!(tagged, expected);
    assert_eq!(mem.search_by_kind("intent").len(), 1);
    assert_eq!(mem.search_by_kind("event").len(), 2);
    assert!(mem.search_by_tag("missing").is_empty());
    assert!(mem.get(&a.wrapping_add(1)).is_none() || a.wrapping_add(1) == b);
}

#[test]
fn memory_log_lines_carry_the_time_of_day_newest_first() {
    let mut mem = KernelMemory::new();
    mem.log_event_at("first".to_string(), Timestamp { secs: 3_661, nanos: 0 });
    mem.log_event_at("second".to_string(), Timestamp { secs: 86_399, nanos: 1_500_000_000 });
    mem.log_event_at("third".to_string(), Timestamp { secs: -1, nanos: 0 });
    let recent = mem.recent_events(2);
    assert_eq!(recent.len(), 2);
    assert_eq!(recent[0], "[23:59:59] third");
    assert_eq!(recent[1], "[23:59:60] second");
    let all = mem.recent_events(10);
    assert_eq!(all.len(), 3);
    assert_eq!(all[2], "[01:01:01] first");
    assert!(mem.recent_events(0).is_empty());
}

#[test]
fn builder_agent_provisions_on_spawn_intents() {
    let mut agent = BuilderAgent::new().unwrap();
    let reply = agent.handle(msg(MessageKind::Intent, obj(vec![("action", text("spawn_node"))]))).unwrap().unwrap();
    assert_eq!(reply.kind, MessageKind::Response);
    assert_eq!(reply.from, Some(agent.id));
    assert_eq!(reply.to, Some(42));
    assert_eq!(agent.provisioned_nodes.len(), 1);
    let node = agent.provisioned_nodes[0].clone();
    assert!(node.starts_with("node-") && node.len() == 13);
    assert_eq!(reply.payload, obj(vec![("node_id", text(&node)), ("status", text("ok"))]));
    assert!(agent.handle(msg(MessageKind::Intent, obj(vec![("action", text("dance"))]))).unwrap().is_none());
    let beat = agent.handle(msg(MessageKind::Heartbeat, obj(vec![]))).unwrap().unwrap();
    assert_eq!(beat.kind, MessageKind::StatusReport);
    assert_eq!(beat.payload, obj(vec![("nodes_provisioned", num(1)), ("status", text("alive"))]));
    let sync = agent.handle(msg(MessageKind::SwarmSync, obj(vec![]))).unwrap().unwrap();
    assert_eq!(
        sync.payload,
        obj(vec![("agent", text("BuilderAgent")), ("local_knowledge", JsonValue::Array(vec![text(&node)]))])
    );
    assert!(agent.handle(msg(MessageKind::FederatedUpdate, obj(vec![]))).unwrap().is_none());
    assert_eq!(agent.messages_processed, 5);
    assert_eq!(agent.status, AgentStatus::Idle);
    assert_eq!(agent.info().name, "BuilderAgent");
    assert_eq!(agent.info().agent_type, "builder");
}

#[test]
fn monitor_agent_records_alerts() {
    let mut agent = MonitorAgent::new().unwrap();
    let reply = agent.handle(msg(MessageKind::Alert, obj(vec![("message", text("disk full"))]))).unwrap().unwrap();
    assert_eq!(reply.payload, obj(vec![("acknowledged", JsonValue::Bool(true)), ("alert", text("disk full"))]));
    let reply = agent.handle(msg(MessageKind::Alert, obj(vec![]))).unwrap().unwrap();
    assert_eq!(reply.payload, obj(vec![("acknowledged", JsonValue::Bool(true)), ("alert", text("Unknown alert"))]));
    let beat = agent.handle(msg(MessageKind::Heartbeat, obj(vec![]))).unwrap().unwrap();
    assert_eq!(beat.payload, obj(vec![("alerts_total", num(2)), ("status", text("monitoring"))]));
    assert_eq!(agent.alerts, vec!["disk full".to_string(), "Unknown alert".to_string()]);
}

#[test]
fn optimizer_agent_reports_improvements() {
    let mut agent = OptimizerAgent::new().unwrap();
    let reply = agent.handle(msg(MessageKind::Intent, obj(vec![("action", text("optimize_routes"))]))).unwrap().unwrap();
    assert_eq!(
        reply.payload,
        obj(vec![("algorithm", text("QAOA-sim")), ("improvement_pct", num(16)), ("status", text("optimized"))])
    );
    agent.handle(msg(MessageKind::Intent, obj(vec![("action", text("optimize_network"))]))).unwrap().unwrap();
    assert!(agent.handle(msg(MessageKind::Intent, obj(vec![("action", text("spawn_node"))]))).unwrap().is_none());
    let beat = agent.handle(msg(MessageKind::Heartbeat, obj(vec![]))).unwrap().unwrap();
    assert_eq!(beat.payload, obj(vec![("optimizations_run", num(2)), ("status", text("ready"))]));
}

#[test]
fn network_agent_answers_heartbeats_only() {
    let mut agent = NetworkAgent::new().unwrap();
    let beat = agent.handle(msg(MessageKind::Heartbeat, obj(vec![]))).unwrap().unwrap();
    assert_eq!(
        beat.payload,
        obj(vec![("active_peers", num(1)), ("protocol", text("libp2p/netgene-mesh-v1"))])
    );
    assert!(agent.handle(msg(MessageKind::Intent, obj(vec![]))).unwrap().is_none());
    assert_eq!(agent.messages_processed, 2);
}

#[test]
fn evolution_agent_executes_directives() {
    let mut agent = EvolutionAgent::new().unwrap();
    let reply = agent.handle(msg(MessageKind::Request, obj(vec![("command", text("grow"))]))).unwrap().unwrap();
    assert_eq!(
        reply.payload,
        obj(vec![
            ("command", text("grow")),
            ("details", text("EvolutionAgent executed directive: 'grow'")),
            ("fitness_score", JsonValue::Number(JsonNumber::Float("0.992".to_string()))),
            ("mutation_id", text("MUT-1")),
            ("status", text("EXECUTED")),
        ])
    );
    let reply = agent.handle(msg(MessageKind::Intent, obj(vec![("command", num(3)), ("action", text("x"))]))).unwrap().unwrap();
    assert_eq!(reply.payload.get("command"), Some(&text("Custom Evolution Directive")));
    let reply = agent.handle(msg(MessageKind::Intent, obj(vec![("message", text("m"))]))).unwrap().unwrap();
    assert_eq!(reply.payload.get("mutation_id"), Some(&text("MUT-3")));
    let beat = agent.handle(msg(MessageKind::Heartbeat, obj(vec![]))).unwrap().unwrap();
    assert_eq!(
        beat.payload,
        obj(vec![
            ("executed_commands_count", num(3)),
            ("fitness_score", JsonValue::Number(JsonNumber::Float("0.985".to_string()))),
            ("system_generation", num(4)),
        ])
    );
}

#[test]
fn dispatch_sends_the_agents_their_messages() {
    let input = "spawn 2 nodes";
    match plan_dispatch(input, &offline_intent(input)) {
        DispatchPlan::Send { kind, payload, reply } => {
            assert_eq!(kind, MessageKind::Intent);
            assert_eq!(payload, obj(vec![("action", text("spawn_node")), ("count", num(2))]));
            assert_eq!(
                reply,
                "\u{1f9e0} BDI Reasoning: Fallback: provision 2 edge node(s)\n\u{2705} Intent dispatched: provision_nodes"
            );
        },
        other => panic!("unexpected plan {:?}", other),
    }
    let input = "xyzzy plugh";
    match plan_dispatch(input, &offline_intent(input)) {
        DispatchPlan::Send { kind, payload, .. } => {
            assert_eq!(kind, MessageKind::Heartbeat);
            assert_eq!(payload, obj(vec![]));
        },
        other => panic!("unexpected plan {:?}", other),
    }
    let input = "heal everything";
    match plan_dispatch(input, &offline_intent(input)) {
        DispatchPlan::Send { kind, payload, .. } => {
            assert_eq!(kind, MessageKind::Alert);
            assert_eq!(payload, obj(vec![("message", text("Self-heal requested by operator"))]));
        },
        other => panic!("unexpected plan {:?}", other),
    }
}

#[test]
fn dispatch_answers_unknown_model_actions_from_the_parser() {
    let llm = failure_intent("connection refused");
    assert_eq!(llm.explanation, "Erro LLM: connection refused");
    match plan_dispatch("xyzzy plugh", &llm) {
        DispatchPlan::Answer { reply } => assert_eq!(
            reply,
            "\u{26a0}\u{fe0f} Intent not recognized by BDI: 'xyzzy plugh'\nLLM Output: Erro LLM: connection refused"
        ),
        other => panic!("unexpected plan {:?}", other),
    }
    match plan_dispatch("spawn 3 nodes", &llm) {
        DispatchPlan::Answer { reply } => assert_eq!(
            reply,
            "\u{2705} Intent dispatched by Fallback: SpawnNode { count: 3 }\nBDI Explanation: Erro LLM: connection refused"
        ),
        other => panic!("unexpected plan {:?}", other),
    }
    match plan_dispatch("spawn a monitor agent", &llm) {
        DispatchPlan::Answer { reply } => assert!(reply.contains("SpawnAgent { agent_type: \"monitor\" }")),
        other => panic!("unexpected plan {:?}", other),
    }
    assert_eq!(intent_log_line("go", "unknown"), "BDI Intent: go (Action: unknown)");
}

#[test]
fn registry_counts_installed_agents() {
    let (core, mut registry) = boot_agents().unwrap();
    assert_eq!(registry.len(), 5);
    let id = registry.inject_marketplace_agent("sentinel-guard-v2".to_string(), "Sentinel Guard".to_string()).unwrap();
    assert_eq!(registry.len(), 6);
    let list = registry.agent_list();
    let installed = list.iter().find(|a| a.id == id).unwrap();
    assert_eq!(installed.agent_type, "sentinel-guard-v2");
    assert_eq!(installed.name, "Sentinel Guard");
    assert_eq!(installed.messages_processed, 0);
    assert!(list.iter().any(|a| a.id == core.builder.id && a.name == "BuilderAgent"));
    let empty = AgentRegistry::new();
    assert_eq!(empty.len(), 0);
}

#[test]
fn kernel_error_messages() {
    assert_eq!(KernelError::AgentNotFound { id: "a1".to_string() }.message(), "Agent not found: a1");
    assert_eq!(KernelError::BusSend.message(), "Bus send error");
    assert_eq!(KernelError::IntentParse("bad".to_string()).message(), "Intent parse error: bad");
    assert_eq!(AgentStatus::Error("x".to_string()).to_text(), "ERROR: x");
    assert_eq!(AgentStatus::Stopped.to_text(), "STOPPED");
}
