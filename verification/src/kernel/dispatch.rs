//! What the kernel does with an intent: which message goes on the bus and
//! what the user is told. The model's reading of the command comes in as
//! an argument; asking the model and sending on the bus are the caller's.

use vstd::prelude::*;
use crate::json::{JsonField, JsonNumber, JsonValue, lookup_from, count_entry_is, empty_object, field, field_count, str_field, text_entry_is};
use crate::kernel::agent::{MessageKind, action_of, alert_text, is_optimize_action, is_spawn_action};
use crate::kernel::intent::{Intent, IntentAction, IntentParser, intent_for};
use crate::llm::intent::LlmParsedIntent;
use crate::text::{decimal, lowercase_of, push_decimal, push_str, str_eq, string_from_chars};

verus! {

/// The kernel's answer to an intent.
#[derive(Debug)]
pub enum DispatchPlan {
    /// Put a message of kind `kind` with `payload` on the bus, as a
    /// broadcast from the kernel, then answer `reply`.
    Send { kind: MessageKind, payload: JsonValue, reply: String },
    /// Answer `reply`; nothing is sent.
    Answer { reply: String },
}

/// The line the kernel logs for an intent.
pub open spec fn intent_log_text(input: Seq<char>, action: Seq<char>) -> Seq<char> {
    "BDI Intent: "@ + input + " (Action: "@ + action + ")"@
}

/// The intent used when the model's reading failed with `err`.
pub open spec fn failure_intent_is(err: Seq<char>, i: LlmParsedIntent) -> bool {
    &&& i.action@ == "unknown"@
    &&& field_count(i.parameters) == 0
    &&& i.explanation@ == "Erro LLM: "@ + err
}

/// The node count a provisioning intent asks for: its `count` parameter
/// when that is a non-negative integer, one otherwise.
pub open spec fn requested_nodes(params: JsonValue) -> u64 {
    match params.member("count"@) {
        Some(v) => match v.u64_value() {
            Some(n) => n,
            None => 1,
        },
        None => 1,
    }
}

/// The text Rust's derived `Debug` writes for an action, for actions whose
/// strings are plain words (as the parser makes them).
pub open spec fn action_debug_text(a: IntentAction) -> Seq<char> {
    match a {
        IntentAction::SpawnNode { count } => "SpawnNode { count: "@ + decimal(count as nat) + " }"@,
        IntentAction::OptimizeRoutes => "OptimizeRoutes"@,
        IntentAction::StatusReport => "StatusReport"@,
        IntentAction::SpawnAgent { agent_type } => "SpawnAgent { agent_type: \""@ + agent_type@ + "\" }"@,
        IntentAction::ShowNetwork => "ShowNetwork"@,
        IntentAction::RunQuantum { problem } => "RunQuantum { problem: \""@ + problem@ + "\" }"@,
        IntentAction::HealNetwork => "HealNetwork"@,
        IntentAction::Unknown { raw } => "Unknown { raw: \""@ + raw@ + "\" }"@,
    }
}

/// What the user is told when the model's action is none the kernel knows
/// and the rule-based parser read the command as `a`.
pub open spec fn fallback_answer(a: IntentAction, explanation: Seq<char>) -> Seq<char> {
    match a {
        IntentAction::Unknown { raw } => "\u{26a0}\u{fe0f} Intent not recognized by BDI: '"@ + raw@ + "'\nLLM Output: "@
            + explanation,
        _ => "\u{2705} Intent dispatched by Fallback: "@ + action_debug_text(a) + "\nBDI Explanation: "@ + explanation,
    }
}

/// What the user is told once a message went on the bus.
pub open spec fn sent_answer(explanation: Seq<char>, action: Seq<char>) -> Seq<char> {
    "\u{1f9e0} BDI Reasoning: "@ + explanation + "\n\u{2705} Intent dispatched: "@ + action
}

/// The plan for the command `input` that the model read as `llm`.
pub open spec fn plan_for(input: Seq<char>, llm: LlmParsedIntent, p: DispatchPlan) -> bool {
    let a = llm.action@;
    if a == "provision_nodes"@ {
        p matches DispatchPlan::Send { kind, payload, reply } && kind == MessageKind::Intent
            && field_count(payload) == 2 && text_entry_is(payload, 0, "action"@, "spawn_node"@)
            && count_entry_is(payload, 1, "count"@, requested_nodes(llm.parameters) as nat)
            && reply@ == sent_answer(llm.explanation@, a)
    } else if a == "optimize_network"@ {
        p matches DispatchPlan::Send { kind, payload, reply } && kind == MessageKind::Intent
            && field_count(payload) == 1 && text_entry_is(payload, 0, "action"@, "optimize_routes"@)
            && reply@ == sent_answer(llm.explanation@, a)
    } else if a == "system_status"@ {
        p matches DispatchPlan::Send { kind, payload, reply } && kind == MessageKind::Heartbeat
            && field_count(payload) == 0 && reply@ == sent_answer(llm.explanation@, a)
    } else if a == "trigger_anomaly_scan"@ {
        p matches DispatchPlan::Send { kind, payload, reply } && kind == MessageKind::Alert
            && field_count(payload) == 1
            && text_entry_is(payload, 0, "message"@, "Self-heal requested by operator"@)
            && reply@ == sent_answer(llm.explanation@, a)
    } else {
        p matches DispatchPlan::Answer { reply } && exists|i: Intent|
            #[trigger] intent_for(lowercase_of(input), input, i) && reply@ == fallback_answer(
                i.action,
                llm.explanation@,
            )
    }
}

/// The line the kernel logs for the command `input` read as `action`.
pub fn intent_log_line(input: &str, action: &str) -> (r: String)
    ensures
        r@ == intent_log_text(input@, action@),
{
    let mut v: Vec<char> = Vec::new();
    push_str(&mut v, "BDI Intent: ");
    push_str(&mut v, input);
    push_str(&mut v, " (Action: ");
    push_str(&mut v, action);
    push_str(&mut v, ")");
    string_from_chars(v.as_slice())
}

/// The intent the kernel goes on with when the model's reading failed.
pub fn failure_intent(err: &str) -> (i: LlmParsedIntent)
    ensures
        failure_intent_is(err@, i),
{
    let mut v: Vec<char> = Vec::new();
    push_str(&mut v, "Erro LLM: ");
    push_str(&mut v, err);
    LlmParsedIntent {
        action: "unknown".to_string(),
        parameters: empty_object(),
        explanation: string_from_chars(v.as_slice()),
    }
}

fn push_debug(out: &mut Vec<char>, a: &IntentAction)
    ensures
        final(out)@ == old(out)@ + action_debug_text(*a),
{
    match a {
        IntentAction::SpawnNode { count } => {
            push_str(out, "SpawnNode { count: ");
            push_decimal(out, *count as u64);
            push_str(out, " }");
        },
        IntentAction::OptimizeRoutes => push_str(out, "OptimizeRoutes"),
        IntentAction::StatusReport => push_str(out, "StatusReport"),
        IntentAction::SpawnAgent { agent_type } => {
            push_str(out, "SpawnAgent { agent_type: \"");
            push_str(out, agent_type.as_str());
            push_str(out, "\" }");
        },
        IntentAction::ShowNetwork => push_str(out, "ShowNetwork"),
        IntentAction::RunQuantum { problem } => {
            push_str(out, "RunQuantum { problem: \"");
            push_str(out, problem.as_str());
            push_str(out, "\" }");
        },
        IntentAction::HealNetwork => push_str(out, "HealNetwork"),
        IntentAction::Unknown { raw } => {
            push_str(out, "Unknown { raw: \"");
            push_str(out, raw.as_str());
            push_str(out, "\" }");
        },
    }
    proof {
        let o = old(out)@;
        match a {
            IntentAction::SpawnNode { count } => {
                assert(o + "SpawnNode { count: "@ + decimal(count as nat) + " }"@ =~= o + action_debug_text(*a));
            },
            IntentAction::SpawnAgent { agent_type } => {
                assert(o + "SpawnAgent { agent_type: \""@ + agent_type@ + "\" }"@ =~= o + action_debug_text(*a));
            },
            IntentAction::RunQuantum { problem } => {
                assert(o + "RunQuantum { problem: \""@ + problem@ + "\" }"@ =~= o + action_debug_text(*a));
            },
            IntentAction::Unknown { raw } => {
                assert(o + "Unknown { raw: \""@ + raw@ + "\" }"@ =~= o + action_debug_text(*a));
            },
            _ => {},
        }
    }
}

fn answer_for(a: &IntentAction, explanation: &str) -> (r: String)
    ensures
        r@ == fallback_answer(*a, explanation@),
{
    let mut v: Vec<char> = Vec::new();
    match a {
        IntentAction::Unknown { raw } => {
            push_str(&mut v, "\u{26a0}\u{fe0f} Intent not recognized by BDI: '");
            push_str(&mut v, raw.as_str());
            push_str(&mut v, "'\nLLM Output: ");
            push_str(&mut v, explanation);
        },
        _ => {
            push_str(&mut v, "\u{2705} Intent dispatched by Fallback: ");
            push_debug(&mut v, a);
            push_str(&mut v, "\nBDI Explanation: ");
            push_str(&mut v, explanation);
        },
    }
    string_from_chars(v.as_slice())
}

fn sent(explanation: &str, action: &str) -> (r: String)
    ensures
        r@ == sent_answer(explanation@, action@),
{
    let mut v: Vec<char> = Vec::new();
    push_str(&mut v, "\u{1f9e0} BDI Reasoning: ");
    push_str(&mut v, explanation);
    push_str(&mut v, "\n\u{2705} Intent dispatched: ");
    push_str(&mut v, action);
    string_from_chars(v.as_slice())
}

/// Decide what to do with the command `input`, which the model read as
/// `llm`: the four actions the agents serve become a message on the bus;
/// any other is answered from the rule-based parser's reading.
pub fn plan_dispatch(input: &str, llm: &LlmParsedIntent) -> (p: DispatchPlan)
    ensures
        plan_for(input@, *llm, p),
{
    let a = llm.action.as_str();
    let e = llm.explanation.as_str();
    if str_eq(a, "provision_nodes") {
        let count: u64 = match llm.parameters.get("count") {
            Some(v) => match v.as_u64() {
                Some(n) => n,
                None => 1,
            },
            None => 1,
        };
        let mut fs: Vec<JsonField> = Vec::new();
        fs.push(str_field("action", "spawn_node".to_string()));
        fs.push(field("count", JsonValue::Number(JsonNumber::PosInt(count))));
        DispatchPlan::Send { kind: MessageKind::Intent, payload: JsonValue::Object(fs), reply: sent(e, a) }
    } else if str_eq(a, "optimize_network") {
        let mut fs: Vec<JsonField> = Vec::new();
        fs.push(str_field("action", "optimize_routes".to_string()));
        DispatchPlan::Send { kind: MessageKind::Intent, payload: JsonValue::Object(fs), reply: sent(e, a) }
    } else if str_eq(a, "system_status") {
        DispatchPlan::Send { kind: MessageKind::Heartbeat, payload: empty_object(), reply: sent(e, a) }
    } else if str_eq(a, "trigger_anomaly_scan") {
        let mut fs: Vec<JsonField> = Vec::new();
        fs.push(str_field("message", "Self-heal requested by operator".to_string()));
        DispatchPlan::Send { kind: MessageKind::Alert, payload: JsonValue::Object(fs), reply: sent(e, a) }
    } else {
        let fallback = IntentParser::parse(input);
        let reply = answer_for(&fallback.action, e);
        assert(intent_for(lowercase_of(input@), input@, fallback));
        DispatchPlan::Answer { reply }
    }
}

/// The kernel's message reaches the agent meant to act on it: a
/// provisioning intent is a request the builder agent acts on (and the
/// optimizer ignores), carrying the node count asked for; an optimization
/// intent is one the optimizer acts on and the builder ignores; a status
/// query is a heartbeat; an anomaly scan is an alert the monitor records as
/// a self-heal request; any other action sends nothing.
pub proof fn lemma_dispatch_reaches_the_right_agent(input: Seq<char>, llm: LlmParsedIntent, p: DispatchPlan)
    requires
        plan_for(input, llm, p),
    ensures
        llm.action@ == "provision_nodes"@ ==> (p matches DispatchPlan::Send { kind, payload, .. }
            && kind == MessageKind::Intent && is_spawn_action(action_of(payload))
            && !is_optimize_action(action_of(payload))
            && payload.member("count"@) == Some(JsonValue::Number(JsonNumber::PosInt(requested_nodes(llm.parameters))))),
        llm.action@ == "optimize_network"@ ==> (p matches DispatchPlan::Send { kind, payload, .. }
            && kind == MessageKind::Intent && is_optimize_action(action_of(payload))
            && !is_spawn_action(action_of(payload))),
        llm.action@ == "system_status"@ ==> (p matches DispatchPlan::Send { kind, .. } && kind
            == MessageKind::Heartbeat),
        llm.action@ == "trigger_anomaly_scan"@ ==> (p matches DispatchPlan::Send { kind, payload, .. }
            && kind == MessageKind::Alert && alert_text(payload) == "Self-heal requested by operator"@),
        llm.action@ != "provision_nodes"@ && llm.action@ != "optimize_network"@ && llm.action@
            != "system_status"@ && llm.action@ != "trigger_anomaly_scan"@ ==> p is Answer,
{
    reveal_strlit("spawn_node");
    reveal_strlit("provision_nodes");
    reveal_strlit("optimize_routes");
    reveal_strlit("optimize_network");
    assert("spawn_node"@[0] != "optimize_routes"@[0]);
    assert("provision_nodes"@[0] != "optimize_routes"@[0]);
    assert("spawn_node"@[0] != "optimize_network"@[0]);
    assert("provision_nodes"@[0] != "optimize_network"@[0]);
    reveal_strlit("system_status");
    reveal_strlit("trigger_anomaly_scan");
    assert("system_status"@[0] != "provision_nodes"@[0]);
    assert("system_status"@[0] != "optimize_network"@[0]);
    assert("trigger_anomaly_scan"@[0] != "provision_nodes"@[0]);
    assert("trigger_anomaly_scan"@[0] != "optimize_network"@[0]);
    assert("trigger_anomaly_scan"@[0] != "system_status"@[0]);
    if llm.action@ == "provision_nodes"@ {
        if let DispatchPlan::Send { payload, .. } = p {
            if let JsonValue::Object(fs) = payload {
                assert(lookup_from(fs@, "action"@, 0) == Some(fs@[0].value));
                assert(fs@[0].key@ != "count"@) by {
                    reveal_strlit("action");
                    reveal_strlit("count");
                    assert("action"@[0] != "count"@[0]);
                }
                assert(lookup_from(fs@, "count"@, 1) == Some(fs@[1].value));
            }
        }
    }
    if llm.action@ == "optimize_network"@ {
        if let DispatchPlan::Send { payload, .. } = p {
            if let JsonValue::Object(fs) = payload {
                assert(lookup_from(fs@, "action"@, 0) == Some(fs@[0].value));
            }
        }
    }
    if llm.action@ == "trigger_anomaly_scan"@ {
        if let DispatchPlan::Send { payload, .. } = p {
            if let JsonValue::Object(fs) = payload {
                assert(lookup_from(fs@, "message"@, 0) == Some(fs@[0].value));
            }
        }
    }
}

} // verus!
