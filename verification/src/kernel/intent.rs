//! Natural-language intent parsing: maps a free-form command, in English or
//! Portuguese, to a structured action by the words it contains.

use vstd::prelude::*;
use crate::text::{contains_str, first_u32, first_u32_in, has_sub, lowercase_of, str_chars, to_lowercase};

verus! {

/// Structured action derived from a parsed intent.
#[derive(Debug, Clone, PartialEq, Eq)]
pub enum IntentAction {
    SpawnNode { count: u32 },
    OptimizeRoutes,
    StatusReport,
    SpawnAgent { agent_type: String },
    ShowNetwork,
    RunQuantum { problem: String },
    HealNetwork,
    Unknown { raw: String },
}

/// A parsed user intent. The confidence is held in hundredths (92 stands
/// for 0.92).
#[derive(Debug, Clone)]
pub struct Intent {
    pub raw: String,
    pub action: IntentAction,
    pub confidence_hundredths: u8,
}

/// Intent parser that maps natural language to structured actions.
pub struct IntentParser;

pub open spec fn spawn_words(l: Seq<char>) -> bool {
    has_sub(l, "spawn"@) || has_sub(l, "criar"@) || has_sub(l, "create"@)
}

pub open spec fn node_words(l: Seq<char>) -> bool {
    has_sub(l, "node"@) || has_sub(l, "nó"@) || has_sub(l, "no"@)
}

pub open spec fn agent_words(l: Seq<char>) -> bool {
    has_sub(l, "agent"@) || has_sub(l, "agente"@)
}

pub open spec fn optimize_words(l: Seq<char>) -> bool {
    has_sub(l, "optim"@) || has_sub(l, "route"@) || has_sub(l, "rota"@)
}

pub open spec fn quantum_words(l: Seq<char>) -> bool {
    has_sub(l, "quantum"@) || has_sub(l, "quântic"@)
}

pub open spec fn status_words(l: Seq<char>) -> bool {
    has_sub(l, "status"@) || has_sub(l, "estado"@) || has_sub(l, "info"@) || has_sub(l, "list"@)
}

pub open spec fn network_words(l: Seq<char>) -> bool {
    has_sub(l, "rede"@) || has_sub(l, "network"@) || has_sub(l, "topology"@) || has_sub(
        l,
        "topologia"@,
    )
}

pub open spec fn heal_words(l: Seq<char>) -> bool {
    has_sub(l, "heal"@) || has_sub(l, "recover"@) || has_sub(l, "fix"@) || has_sub(l, "reparar"@)
}

/// The kind of agent a spawn-agent command asks for.
pub open spec fn agent_type_for(l: Seq<char>) -> Seq<char> {
    if has_sub(l, "monitor"@) {
        "monitor"@
    } else if has_sub(l, "optim"@) {
        "optimizer"@
    } else {
        "builder"@
    }
}

/// The intent that `lower` (the lowercased command) and `raw` (the command
/// as given) denote: the first rule that matches, in order, decides.
pub open spec fn intent_for(lower: Seq<char>, raw: Seq<char>, i: Intent) -> bool {
    &&& i.raw@ == raw
    &&& if spawn_words(lower) && node_words(lower) {
        &&& i.action matches IntentAction::SpawnNode { count } && count == match first_u32(lower) {
            Some(n) => n,
            None => 1,
        }
        &&& i.confidence_hundredths == 92
    } else if spawn_words(lower) && agent_words(lower) {
        &&& i.action matches IntentAction::SpawnAgent { agent_type } && agent_type@
            == agent_type_for(lower)
        &&& i.confidence_hundredths == 88
    } else if optimize_words(lower) && quantum_words(lower) {
        &&& i.action matches IntentAction::RunQuantum { problem } && problem@ == "routing"@
        &&& i.confidence_hundredths == 85
    } else if optimize_words(lower) {
        &&& i.action is OptimizeRoutes
        &&& i.confidence_hundredths == 90
    } else if status_words(lower) {
        &&& i.action is StatusReport
        &&& i.confidence_hundredths == 95
    } else if network_words(lower) {
        &&& i.action is ShowNetwork
        &&& i.confidence_hundredths == 87
    } else if heal_words(lower) {
        &&& i.action is HealNetwork
        &&& i.confidence_hundredths == 83
    } else {
        &&& i.action matches IntentAction::Unknown { raw: r } && r@ == raw
        &&& i.confidence_hundredths == 0
    }
}

fn intent(input: &str, action: IntentAction, confidence_hundredths: u8) -> (i: Intent)
    ensures
        i.raw@ == input@,
        i.action == action,
        i.confidence_hundredths == confidence_hundredths,
{
    Intent { raw: input.to_string(), action, confidence_hundredths }
}

impl IntentParser {
    /// Parse a user command into an Intent: the command is lowercased, then
    /// read as `parse_lowered` reads it.
    pub fn parse(input: &str) -> (i: Intent)
        ensures
            intent_for(lowercase_of(input@), input@, i),
    {
        let lower = to_lowercase(input);
        Self::parse_lowered(input, lower.as_str())
    }

    /// Parse a command given as typed (`input`) and lowercased (`lower`).
    pub fn parse_lowered(input: &str, lower: &str) -> (i: Intent)
        ensures
            intent_for(lower@, input@, i),
    {
        let l = str_chars(lower);
        let l = l.as_slice();
        let spawn = contains_str(l, "spawn") || contains_str(l, "criar") || contains_str(l, "create");
        if spawn {
            if contains_str(l, "node") || contains_str(l, "nó") || contains_str(l, "no") {
                let count = match first_u32_in(l) {
                    Some(n) => n,
                    None => 1,
                };
                return intent(input, IntentAction::SpawnNode { count }, 92);
            }
            if contains_str(l, "agent") || contains_str(l, "agente") {
                let agent_type = if contains_str(l, "monitor") {
                    "monitor"
                } else if contains_str(l, "optim") {
                    "optimizer"
                } else {
                    "builder"
                };
                return intent(
                    input,
                    IntentAction::SpawnAgent { agent_type: agent_type.to_string() },
                    88,
                );
            }
        }
        if contains_str(l, "optim") || contains_str(l, "route") || contains_str(l, "rota") {
            if contains_str(l, "quantum") || contains_str(l, "quântic") {
                return intent(input, IntentAction::RunQuantum { problem: "routing".to_string() }, 85);
            }
            return intent(input, IntentAction::OptimizeRoutes, 90);
        }
        if contains_str(l, "status") || contains_str(l, "estado") || contains_str(l, "info")
            || contains_str(l, "list") {
            return intent(input, IntentAction::StatusReport, 95);
        }
        if contains_str(l, "rede") || contains_str(l, "network") || contains_str(l, "topology")
            || contains_str(l, "topologia") {
            return intent(input, IntentAction::ShowNetwork, 87);
        }
        if contains_str(l, "heal") || contains_str(l, "recover") || contains_str(l, "fix")
            || contains_str(l, "reparar") {
            return intent(input, IntentAction::HealNetwork, 83);
        }
        intent(input, IntentAction::Unknown { raw: input.to_string() }, 0)
    }

    /// The first whitespace-separated word of `s` that parses as a `u32`.
    pub fn extract_number(s: &str) -> (r: Option<u32>)
        ensures
            r == first_u32(s@),
    {
        let cs = str_chars(s);
        first_u32_in(cs.as_slice())
    }
}

/// No word of the spawn rule (`spawn`, `criar`, `create`) occurs in `l`.
pub open spec fn names_no_spawn(l: Seq<char>) -> bool {
    !has_sub(l, "spawn"@) && !has_sub(l, "criar"@) && !has_sub(l, "create"@)
}

/// No word of the optimization rule (`optim`, `route`, `rota`) occurs.
pub open spec fn names_no_optimization(l: Seq<char>) -> bool {
    !has_sub(l, "optim"@) && !has_sub(l, "route"@) && !has_sub(l, "rota"@)
}

/// No word of the status rule (`status`, `estado`, `info`, `list`) occurs.
pub open spec fn names_no_status(l: Seq<char>) -> bool {
    !has_sub(l, "status"@) && !has_sub(l, "estado"@) && !has_sub(l, "info"@) && !has_sub(l, "list"@)
}

/// No word of the network rule (`rede`, `network`, `topology`,
/// `topologia`) occurs.
pub open spec fn names_no_network(l: Seq<char>) -> bool {
    !has_sub(l, "rede"@) && !has_sub(l, "network"@) && !has_sub(l, "topology"@) && !has_sub(l, "topologia"@)
}

/// What each word of a command selects, in the parser's order of rules:
/// a spawn word (`spawn`, `criar`, `create`) with a node word (`node`,
/// `nó`, `no`) spawns nodes, with the first number as count (one
/// otherwise); a spawn word with an agent word (`agent`, `agente`) spawns
/// a monitor, optimizer or builder agent; an optimization word (`optim`,
/// `route`, `rota`) with a quantum word (`quantum`, `quântic`) runs a
/// quantum routing problem, without one optimizes routes; then a status
/// word (`status`, `estado`, `info`, `list`) asks for the status, a
/// network word (`rede`, `network`, `topology`, `topologia`) shows the
/// network, a healing word (`heal`, `recover`, `fix`, `reparar`) heals it;
/// a command with none of these words is not recognized. The parsed
/// intent keeps the command as given.
pub proof fn lemma_words_select_actions(lower: Seq<char>, raw: Seq<char>, i: Intent)
    requires
        intent_for(lower, raw, i),
    ensures
        i.raw@ == raw,
        (has_sub(lower, "spawn"@) || has_sub(lower, "criar"@) || has_sub(lower, "create"@)) && (has_sub(
            lower,
            "node"@,
        ) || has_sub(lower, "nó"@) || has_sub(lower, "no"@)) ==> i.action == (IntentAction::SpawnNode {
            count: match first_u32(lower) {
                Some(n) => n,
                None => 1,
            },
        }) && i.confidence_hundredths == 92,
        (has_sub(lower, "spawn"@) || has_sub(lower, "criar"@) || has_sub(lower, "create"@)) && !has_sub(
            lower,
            "node"@,
        ) && !has_sub(lower, "nó"@) && !has_sub(lower, "no"@) && (has_sub(lower, "agent"@) || has_sub(
            lower,
            "agente"@,
        )) ==> (i.action matches IntentAction::SpawnAgent { agent_type } && (if has_sub(lower, "monitor"@) {
            agent_type@ == "monitor"@
        } else if has_sub(lower, "optim"@) {
            agent_type@ == "optimizer"@
        } else {
            agent_type@ == "builder"@
        })) && i.confidence_hundredths == 88,
        names_no_spawn(lower) && (has_sub(lower, "optim"@) || has_sub(lower, "route"@) || has_sub(
            lower,
            "rota"@,
        )) && (has_sub(lower, "quantum"@) || has_sub(lower, "quântic"@)) ==> (i.action matches IntentAction::RunQuantum {
            problem,
        } && problem@ == "routing"@) && i.confidence_hundredths == 85,
        names_no_spawn(lower) && (has_sub(lower, "optim"@) || has_sub(lower, "route"@) || has_sub(
            lower,
            "rota"@,
        )) && !has_sub(lower, "quantum"@) && !has_sub(lower, "quântic"@) ==> i.action
            == IntentAction::OptimizeRoutes && i.confidence_hundredths == 90,
        names_no_spawn(lower) && names_no_optimization(lower) && (has_sub(lower, "status"@) || has_sub(
            lower,
            "estado"@,
        ) || has_sub(lower, "info"@) || has_sub(lower, "list"@)) ==> i.action == IntentAction::StatusReport
            && i.confidence_hundredths == 95,
        names_no_spawn(lower) && names_no_optimization(lower) && names_no_status(lower) && (has_sub(
            lower,
            "rede"@,
        ) || has_sub(lower, "network"@) || has_sub(lower, "topology"@) || has_sub(lower, "topologia"@))
            ==> i.action == IntentAction::ShowNetwork && i.confidence_hundredths == 87,
        names_no_spawn(lower) && names_no_optimization(lower) && names_no_status(lower) && names_no_network(
            lower,
        ) && (has_sub(lower, "heal"@) || has_sub(lower, "recover"@) || has_sub(lower, "fix"@) || has_sub(
            lower,
            "reparar"@,
        )) ==> i.action == IntentAction::HealNetwork && i.confidence_hundredths == 83,
        names_no_spawn(lower) && names_no_optimization(lower) && names_no_status(lower) && names_no_network(
            lower,
        ) && !has_sub(lower, "heal"@) && !has_sub(lower, "recover"@) && !has_sub(lower, "fix"@) && !has_sub(
            lower,
            "reparar"@,
        ) ==> (i.action matches IntentAction::Unknown { raw: r } && r@ == raw) && i.confidence_hundredths == 0,
{
}

} // verus!
