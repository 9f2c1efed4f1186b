//! The core agents of the kernel and the messages they exchange.
//!
//! Each agent reads one message at a time and may answer it; what an agent
//! answers, and how its own state moves, is stated for every kind of
//! message. The loop that feeds the agents from the bus is the caller's.

use vstd::prelude::*;
use crate::ids::{Stamp, Timestamp, fresh_stamp, new_uuid_v4, push_uuid, uuid_text, uuid_variant, uuid_version};
use crate::kernel::error::KernelError;
use crate::json::{
    JsonField, JsonNumber, JsonValue, count_entry_is, entry_is, field, field_count, float_entry_is, member_text,
    member_str, str_field, text_array, text_array_is, text_entry_is,
};
use crate::text::{decimal, push_decimal, push_str, str_eq, string_from_chars, texts};

verus! {

/// An agent identifier: the 128-bit value of a UUID.
pub type AgentId = u128;

/// Operational status of an agent.
#[derive(Debug, Clone, PartialEq, Eq)]
pub enum AgentStatus {
    Idle,
    Processing,
    Waiting,
    Error(String),
    Stopped,
}

/// The text a status displays.
pub open spec fn status_text(s: AgentStatus) -> Seq<char> {
    match s {
        AgentStatus::Idle => "IDLE"@,
        AgentStatus::Processing => "PROCESSING"@,
        AgentStatus::Waiting => "WAITING"@,
        AgentStatus::Error(e) => "ERROR: "@ + e@,
        AgentStatus::Stopped => "STOPPED"@,
    }
}

impl AgentStatus {
    /// The display text: `IDLE`, `PROCESSING`, `WAITING`, `ERROR: <why>`
    /// or `STOPPED`.
    pub fn to_text(&self) -> (r: String)
        ensures
            r@ == status_text(*self),
    {
        let mut v: Vec<char> = Vec::new();
        match self {
            AgentStatus::Idle => push_str(&mut v, "IDLE"),
            AgentStatus::Processing => push_str(&mut v, "PROCESSING"),
            AgentStatus::Waiting => push_str(&mut v, "WAITING"),
            AgentStatus::Error(e) => {
                push_str(&mut v, "ERROR: ");
                push_str(&mut v, e.as_str());
            },
            AgentStatus::Stopped => push_str(&mut v, "STOPPED"),
        }
        string_from_chars(v.as_slice())
    }

    /// A copy of the status.
    pub fn copy(&self) -> (r: AgentStatus)
        ensures
            r == *self,
    {
        match self {
            AgentStatus::Idle => AgentStatus::Idle,
            AgentStatus::Processing => AgentStatus::Processing,
            AgentStatus::Waiting => AgentStatus::Waiting,
            AgentStatus::Error(e) => AgentStatus::Error(e.clone()),
            AgentStatus::Stopped => AgentStatus::Stopped,
        }
    }
}

/// Classification of messages.
#[derive(Debug, Clone, Copy, PartialEq, Eq, Structural)]
pub enum MessageKind {
    /// Intent from the user or system to perform an action.
    Intent,
    /// Status report from an agent.
    StatusReport,
    /// Request from one agent to another.
    Request,
    /// Response to a request.
    Response,
    /// Alert or anomaly detected.
    Alert,
    /// Keep-alive.
    Heartbeat,
    /// Shutdown signal.
    Shutdown,
    /// Swarm knowledge sync request.
    SwarmSync,
    /// Swarm knowledge update from the kernel.
    FederatedUpdate,
}

/// A message passed between agents or from the kernel to agents.
#[derive(Debug)]
pub struct AgentMessage {
    pub id: u128,
    /// The sender (none for the kernel itself).
    pub from: Option<AgentId>,
    /// The addressee (none for a broadcast).
    pub to: Option<AgentId>,
    pub kind: MessageKind,
    pub payload: JsonValue,
    pub timestamp: Timestamp,
}

impl AgentMessage {
    /// A new message with a fresh random ID, stamped now; `None` where the
    /// random source or the clock fails.
    pub fn new(from: Option<AgentId>, to: Option<AgentId>, kind: MessageKind, payload: JsonValue) -> (r: Option<Self>)
        ensures
            r matches Some(m) ==> m.from == from && m.to == to && m.kind == kind && m.payload == payload
                && uuid_version(m.id) == 4 && uuid_variant(m.id) == 2,
    {
        match fresh_stamp() {
            Some(stamp) => Some(AgentMessage::new_at(from, to, kind, payload, stamp)),
            None => None,
        }
    }

    /// The message with the ID and instant of `stamp`.
    pub fn new_at(from: Option<AgentId>, to: Option<AgentId>, kind: MessageKind, payload: JsonValue, stamp: Stamp) -> (m: Self)
        ensures
            m.id == stamp.id,
            m.timestamp == stamp.at,
            m.from == from,
            m.to == to,
            m.kind == kind,
            m.payload == payload,
    {
        AgentMessage { id: stamp.id, from, to, kind, payload, timestamp: stamp.at }
    }
}

/// Agent metadata snapshot, for display.
#[derive(Debug)]
pub struct AgentInfo {
    pub id: AgentId,
    pub name: String,
    pub agent_type: String,
    pub status: AgentStatus,
    pub messages_processed: u64,
    pub started_at: Timestamp,
}

/// The text of the `action` member of a payload, or the empty text.
pub open spec fn action_of(payload: JsonValue) -> Seq<char> {
    match member_text(payload, "action"@) {
        Some(t) => t,
        None => Seq::empty(),
    }
}

/// `m` answers `msg` from agent `me` with a message of kind `kind`.
pub open spec fn answers(m: AgentMessage, me: AgentId, msg: AgentMessage, kind: MessageKind) -> bool {
    m.from == Some(me) && m.to == msg.from && m.kind == kind
}

/// `info` describes the agent `id` named `name` of type `agent_type`.
pub open spec fn info_is(
    info: AgentInfo,
    id: AgentId,
    name: Seq<char>,
    agent_type: Seq<char>,
    status: AgentStatus,
    processed: u64,
    started_at: Timestamp,
) -> bool {
    &&& info.id == id
    &&& info.name@ == name
    &&& info.agent_type@ == agent_type
    &&& info.status == status
    &&& info.messages_processed == processed
    &&& info.started_at == started_at
}

fn make_info(
    id: AgentId,
    name: &str,
    agent_type: &str,
    status: &AgentStatus,
    processed: u64,
    started_at: Timestamp,
) -> (info: AgentInfo)
    ensures
        info_is(info, id, name@, agent_type@, *status, processed, started_at),
{
    AgentInfo {
        id,
        name: name.to_string(),
        agent_type: agent_type.to_string(),
        status: status.copy(),
        messages_processed: processed,
        started_at,
    }
}

fn reply(me: AgentId, msg: &AgentMessage, kind: MessageKind, payload: JsonValue, stamp: Stamp) -> (m: AgentMessage)
    ensures
        answers(m, me, *msg, kind),
        m.payload == payload,
        stamped(m, stamp),
{
    AgentMessage::new_at(Some(me), msg.from, kind, payload, stamp)
}

/// `m` carries the ID and instant of `stamp`.
pub open spec fn stamped(m: AgentMessage, stamp: Stamp) -> bool {
    m.id == stamp.id && m.timestamp == stamp.at
}

/// The stamp handed to a step that answers nothing; it is not used.
fn unused_stamp() -> (s: Stamp) {
    Stamp { id: 0, at: Timestamp { secs: 0, nanos: 0 } }
}

fn count_field(key: &str, n: u64) -> (f: JsonField)
    ensures
        f.key@ == key@,
        f.value == JsonValue::Number(JsonNumber::PosInt(n)),
{
    field(key, JsonValue::Number(JsonNumber::PosInt(n)))
}

fn text_field(key: &str, text: &str) -> (f: JsonField)
    ensures
        f.key@ == key@,
        f.value.str_text() == Some(text@),
{
    str_field(key, text.to_string())
}

// ─── Builder agent ──────────────────────────────────────────────────────────

pub struct BuilderAgent {
    pub id: AgentId,
    pub status: AgentStatus,
    pub messages_processed: u64,
    pub started_at: Timestamp,
    pub provisioned_nodes: Vec<String>,
}

/// The action names the builder agent provisions a node for.
pub open spec fn is_spawn_action(a: Seq<char>) -> bool {
    a == "spawn_node"@ || a == "provision_nodes"@
}

/// What the builder agent does with `msg`: from state `a` to state `b`,
/// answering `r`.
pub open spec fn builder_step(a: BuilderAgent, msg: AgentMessage, b: BuilderAgent, r: Option<AgentMessage>) -> bool {
    &&& b.id == a.id
    &&& b.started_at == a.started_at
    &&& b.messages_processed == a.messages_processed + 1
    &&& b.status == AgentStatus::Idle
    &&& if msg.kind == MessageKind::Intent && is_spawn_action(action_of(msg.payload)) {
        let node = b.provisioned_nodes@.last();
        &&& b.provisioned_nodes@.len() == a.provisioned_nodes@.len() + 1
        &&& b.provisioned_nodes@.drop_last() == a.provisioned_nodes@
        &&& exists|u: u128| node@ == "node-"@ + #[trigger] uuid_text(u).take(8)
        &&& r matches Some(m) && answers(m, a.id, msg, MessageKind::Response) && field_count(m.payload) == 2
            && text_entry_is(m.payload, 0, "node_id"@, node@) && text_entry_is(m.payload, 1, "status"@, "ok"@)
    } else {
        &&& b.provisioned_nodes@ == a.provisioned_nodes@
        &&& match msg.kind {
            MessageKind::Heartbeat => r matches Some(m) && answers(m, a.id, msg, MessageKind::StatusReport)
                && field_count(m.payload) == 2
                && count_entry_is(m.payload, 0, "nodes_provisioned"@, a.provisioned_nodes@.len())
                && text_entry_is(m.payload, 1, "status"@, "alive"@),
            MessageKind::SwarmSync => r matches Some(m) && answers(m, a.id, msg, MessageKind::Response)
                && field_count(m.payload) == 2 && text_entry_is(m.payload, 0, "agent"@, "BuilderAgent"@)
                && crate::json::key_of(m.payload, 1) == "local_knowledge"@
                && text_array_is(crate::json::value_of(m.payload, 1), texts(a.provisioned_nodes@)),
            _ => r is None,
        }
    }
}

/// Whether the payload asks the builder agent for a node.
fn is_spawn_request(payload: &JsonValue) -> (r: bool)
    ensures
        r == is_spawn_action(action_of(*payload)),
{
    match member_str(payload, "action") {
        Some(a) => str_eq(a.as_str(), "spawn_node") || str_eq(a.as_str(), "provision_nodes"),
        None => {
            proof {
                reveal_strlit("spawn_node");
                reveal_strlit("provision_nodes");
                assert(action_of(*payload).len() == 0);
            }
            false
        },
    }
}

/// The node name of the UUID `u`: `"node-"` and its first eight hex digits.
pub open spec fn node_name(u: u128) -> Seq<char> {
    "node-"@ + uuid_text(u).take(8)
}

/// `"node-"` and the first eight hex digits of the UUID `u`.
fn node_id_from(u: u128) -> (r: String)
    ensures
        r@ == node_name(u),
{
    let mut uv: Vec<char> = Vec::new();
    push_uuid(&mut uv, u);
    proof {
        crate::ids::lemma_uuid_text_len(u);
    }
    let mut v: Vec<char> = Vec::new();
    push_str(&mut v, "node-");
    let mut j: usize = 0;
    while j < 8
        invariant
            uv@ == uuid_text(u),
            uv@.len() == 36,
            j <= 8,
            v@ == "node-"@ + uv@.take(j as int),
        decreases 8 - j,
    {
        v.push(uv[j]);
        assert(uv@.take(j + 1) =~= uv@.take(j as int).push(uv@[j as int]));
        assert(v@ =~= "node-"@ + uv@.take(j + 1));
        j = j + 1;
    }
    string_from_chars(v.as_slice())
}

/// A request for a node.
fn is_spawn_message(msg: &AgentMessage) -> (r: bool)
    ensures
        r == (msg.kind == MessageKind::Intent && is_spawn_action(action_of(msg.payload))),
{
    match msg.kind {
        MessageKind::Intent => is_spawn_request(&msg.payload),
        _ => false,
    }
}

/// The messages the builder agent answers.
pub open spec fn builder_replies(msg: AgentMessage) -> bool {
    (msg.kind == MessageKind::Intent && is_spawn_action(action_of(msg.payload))) || msg.kind == MessageKind::Heartbeat || msg.kind == MessageKind::SwarmSync
}

/// Whether the builder agent answers `msg`.
fn builder_answers(msg: &AgentMessage) -> (r: bool)
    ensures
        r == builder_replies(*msg),
{
    match msg.kind {
        MessageKind::Intent => is_spawn_request(&msg.payload),
        MessageKind::Heartbeat | MessageKind::SwarmSync => true,
        _ => false,
    }
}

impl BuilderAgent {
    /// A new agent with a fresh random ID, started now; `None` where the
    /// random source or the clock fails.
    pub fn new() -> (r: Option<Self>)
        ensures
            r matches Some(a) ==> uuid_version(a.id) == 4 && uuid_variant(a.id) == 2 && a.started_at.nanos
                < 1_000_000_000 && (a.status == AgentStatus::Idle && a.messages_processed == 0 && a.provisioned_nodes@.len() == 0),
    {
        match fresh_stamp() {
            Some(stamp) => Some(Self::new_at(stamp)),
            None => None,
        }
    }

    /// A new agent with the ID of `stamp`, started at its instant.
    pub fn new_at(stamp: Stamp) -> (a: Self)
        ensures
            a.id == stamp.id,
            a.started_at == stamp.at,
            a.status == AgentStatus::Idle,
            a.messages_processed == 0,
            a.provisioned_nodes@.len() == 0,
    {
        BuilderAgent {
            id: stamp.id,
            status: AgentStatus::Idle,
            messages_processed: 0,
            started_at: stamp.at,
            provisioned_nodes: Vec::new(),
        }
    }

    pub fn id(&self) -> (r: AgentId)
        ensures
            r == self.id,
    {
        self.id
    }

    pub fn name(&self) -> (r: &'static str)
        ensures
            r@ == "BuilderAgent"@,
    {
        "BuilderAgent"
    }

    pub fn agent_type(&self) -> (r: &'static str)
        ensures
            r@ == "builder"@,
    {
        "builder"
    }

    pub fn status(&self) -> (r: AgentStatus)
        ensures
            r == self.status,
    {
        self.status.copy()
    }

    pub fn info(&self) -> (r: AgentInfo)
        ensures
            info_is(r, self.id, "BuilderAgent"@, "builder"@, self.status, self.messages_processed, self.started_at),
    {
        make_info(self.id, "BuilderAgent", "builder", &self.status, self.messages_processed, self.started_at)
    }

    /// Process one message, answering (where it answers) with a message that
    /// carries the ID and instant of `stamp`.
    pub fn handle_at(&mut self, msg: AgentMessage, stamp: Stamp, node: u128) -> (r: Option<AgentMessage>)
        requires
            old(self).messages_processed < u64::MAX,
        ensures
            builder_step(*old(self), msg, *final(self), r),
            r matches Some(m) ==> stamped(m, stamp),
            msg.kind == MessageKind::Intent && is_spawn_action(action_of(msg.payload))
                ==> final(self).provisioned_nodes@.last()@ == node_name(node),
    {
        self.status = AgentStatus::Processing;
        self.messages_processed = self.messages_processed + 1;
        let result = match msg.kind {
            MessageKind::Intent => {
                let spawn = is_spawn_request(&msg.payload);
                if spawn {
                    let node_id = node_id_from(node);
                    let ghost before = self.provisioned_nodes@;
                    self.provisioned_nodes.push(node_id.clone());
                    assert(self.provisioned_nodes@.drop_last() =~= before);
                    let mut fs: Vec<JsonField> = Vec::new();
                    fs.push(str_field("node_id", node_id));
                    fs.push(text_field("status", "ok"));
                    Some(reply(self.id, &msg, MessageKind::Response, JsonValue::Object(fs), stamp))
                } else {
                    None
                }
            },
            MessageKind::Heartbeat => {
                let mut fs: Vec<JsonField> = Vec::new();
                fs.push(count_field("nodes_provisioned", self.provisioned_nodes.len() as u64));
                fs.push(text_field("status", "alive"));
                Some(reply(self.id, &msg, MessageKind::StatusReport, JsonValue::Object(fs), stamp))
            },
            MessageKind::SwarmSync => {
                let mut fs: Vec<JsonField> = Vec::new();
                fs.push(text_field("agent", "BuilderAgent"));
                fs.push(field("local_knowledge", text_array(&self.provisioned_nodes)));
                Some(reply(self.id, &msg, MessageKind::Response, JsonValue::Object(fs), stamp))
            },
            _ => None,
        };
        self.status = AgentStatus::Idle;
        result
    }

    /// Process one message, answering (where it answers) with a message
    /// that has a fresh random ID and is stamped now. `Err`, with the agent
    /// unchanged, only where it would answer and the random source or the
    /// clock fails.
    pub fn handle(&mut self, msg: AgentMessage) -> (r: Result<Option<AgentMessage>, KernelError>)
        requires
            old(self).messages_processed < u64::MAX,
        ensures
            match r {
                Ok(o) => builder_step(*old(self), msg, *final(self), o),
                Err(e) => e == KernelError::Unavailable && *final(self) == *old(self) && builder_replies(msg),
            },
    {
        let node = if is_spawn_message(&msg) {
            match new_uuid_v4() {
                Some(u) => u,
                None => return Err(KernelError::Unavailable),
            }
        } else {
            0
        };
        let stamp = if builder_answers(&msg) {
            match fresh_stamp() {
                Some(s) => s,
                None => return Err(KernelError::Unavailable),
            }
        } else {
            unused_stamp()
        };
        Ok(self.handle_at(msg, stamp, node))
    }
}


// ─── Monitor agent ──────────────────────────────────────────────────────────

pub struct MonitorAgent {
    pub id: AgentId,
    pub status: AgentStatus,
    pub messages_processed: u64,
    pub started_at: Timestamp,
    pub alerts: Vec<String>,
}

/// The text of an alert: the `message` member of its payload, or
/// `Unknown alert`.
pub open spec fn alert_text(payload: JsonValue) -> Seq<char> {
    match member_text(payload, "message"@) {
        Some(t) => t,
        None => "Unknown alert"@,
    }
}

/// What the monitor agent does with `msg`.
pub open spec fn monitor_step(a: MonitorAgent, msg: AgentMessage, b: MonitorAgent, r: Option<AgentMessage>) -> bool {
    &&& b.id == a.id
    &&& b.started_at == a.started_at
    &&& b.messages_processed == a.messages_processed + 1
    &&& b.status == AgentStatus::Idle
    &&& if msg.kind == MessageKind::Alert {
        &&& b.alerts@.len() == a.alerts@.len() + 1
        &&& b.alerts@.drop_last() == a.alerts@
        &&& b.alerts@.last()@ == alert_text(msg.payload)
        &&& r matches Some(m) && answers(m, a.id, msg, MessageKind::Response) && field_count(m.payload) == 2
            && entry_is(m.payload, 0, "acknowledged"@, JsonValue::Bool(true))
            && text_entry_is(m.payload, 1, "alert"@, alert_text(msg.payload))
    } else {
        &&& b.alerts@ == a.alerts@
        &&& match msg.kind {
            MessageKind::Heartbeat => r matches Some(m) && answers(m, a.id, msg, MessageKind::StatusReport)
                && field_count(m.payload) == 2
                && count_entry_is(m.payload, 0, "alerts_total"@, a.alerts@.len())
                && text_entry_is(m.payload, 1, "status"@, "monitoring"@),
            MessageKind::SwarmSync => r matches Some(m) && answers(m, a.id, msg, MessageKind::Response)
                && field_count(m.payload) == 2 && text_entry_is(m.payload, 0, "agent"@, "MonitorAgent"@)
                && crate::json::key_of(m.payload, 1) == "local_knowledge"@
                && text_array_is(crate::json::value_of(m.payload, 1), texts(a.alerts@)),
            _ => r is None,
        }
    }
}

/// The messages the monitor agent answers.
pub open spec fn monitor_replies(msg: AgentMessage) -> bool {
    msg.kind == MessageKind::Alert || msg.kind == MessageKind::Heartbeat || msg.kind == MessageKind::SwarmSync
}

/// Whether the monitor agent answers `msg`.
fn monitor_answers(msg: &AgentMessage) -> (r: bool)
    ensures
        r == monitor_replies(*msg),
{
    match msg.kind {
        MessageKind::Alert | MessageKind::Heartbeat | MessageKind::SwarmSync => true,
        _ => false,
    }
}

impl MonitorAgent {
    /// A new agent with a fresh random ID, started now; `None` where the
    /// random source or the clock fails.
    pub fn new() -> (r: Option<Self>)
        ensures
            r matches Some(a) ==> uuid_version(a.id) == 4 && uuid_variant(a.id) == 2 && a.started_at.nanos
                < 1_000_000_000 && (a.status == AgentStatus::Idle && a.messages_processed == 0 && a.alerts@.len() == 0),
    {
        match fresh_stamp() {
            Some(stamp) => Some(Self::new_at(stamp)),
            None => None,
        }
    }

    /// A new agent with the ID of `stamp`, started at its instant.
    pub fn new_at(stamp: Stamp) -> (a: Self)
        ensures
            a.id == stamp.id,
            a.started_at == stamp.at,
            a.status == AgentStatus::Idle,
            a.messages_processed == 0,
            a.alerts@.len() == 0,
    {
        MonitorAgent {
            id: stamp.id,
            status: AgentStatus::Idle,
            messages_processed: 0,
            started_at: stamp.at,
            alerts: Vec::new(),
        }
    }

    pub fn id(&self) -> (r: AgentId)
        ensures
            r == self.id,
    {
        self.id
    }

    pub fn name(&self) -> (r: &'static str)
        ensures
            r@ == "MonitorAgent"@,
    {
        "MonitorAgent"
    }

    pub fn agent_type(&self) -> (r: &'static str)
        ensures
            r@ == "monitor"@,
    {
        "monitor"
    }

    pub fn status(&self) -> (r: AgentStatus)
        ensures
            r == self.status,
    {
        self.status.copy()
    }

    pub fn info(&self) -> (r: AgentInfo)
        ensures
            info_is(r, self.id, "MonitorAgent"@, "monitor"@, self.status, self.messages_processed, self.started_at),
    {
        make_info(self.id, "MonitorAgent", "monitor", &self.status, self.messages_processed, self.started_at)
    }

    /// Process one message, answering (where it answers) with a message that
    /// carries the ID and instant of `stamp`.
    pub fn handle_at(&mut self, msg: AgentMessage, stamp: Stamp) -> (r: Option<AgentMessage>)
        requires
            old(self).messages_processed < u64::MAX,
        ensures
            monitor_step(*old(self), msg, *final(self), r),
            r matches Some(m) ==> stamped(m, stamp),
    {
        self.status = AgentStatus::Processing;
        self.messages_processed = self.messages_processed + 1;
        let result = match msg.kind {
            MessageKind::Alert => {
                let alert = match member_str(&msg.payload, "message") {
                    Some(t) => t,
                    None => "Unknown alert".to_string(),
                };
                let ghost before = self.alerts@;
                self.alerts.push(alert.clone());
                assert(self.alerts@.drop_last() =~= before);
                let mut fs: Vec<JsonField> = Vec::new();
                fs.push(field("acknowledged", JsonValue::Bool(true)));
                fs.push(str_field("alert", alert));
                Some(reply(self.id, &msg, MessageKind::Response, JsonValue::Object(fs), stamp))
            },
            MessageKind::Heartbeat => {
                let mut fs: Vec<JsonField> = Vec::new();
                fs.push(count_field("alerts_total", self.alerts.len() as u64));
                fs.push(text_field("status", "monitoring"));
                Some(reply(self.id, &msg, MessageKind::StatusReport, JsonValue::Object(fs), stamp))
            },
            MessageKind::SwarmSync => {
                let mut fs: Vec<JsonField> = Vec::new();
                fs.push(text_field("agent", "MonitorAgent"));
                fs.push(field("local_knowledge", text_array(&self.alerts)));
                Some(reply(self.id, &msg, MessageKind::Response, JsonValue::Object(fs), stamp))
            },
            _ => None,
        };
        self.status = AgentStatus::Idle;
        result
    }

    /// Process one message, answering (where it answers) with a message
    /// that has a fresh random ID and is stamped now. `Err`, with the agent
    /// unchanged, only where it would answer and the random source or the
    /// clock fails.
    pub fn handle(&mut self, msg: AgentMessage) -> (r: Result<Option<AgentMessage>, KernelError>)
        requires
            old(self).messages_processed < u64::MAX,
        ensures
            match r {
                Ok(o) => monitor_step(*old(self), msg, *final(self), o),
                Err(e) => e == KernelError::Unavailable && *final(self) == *old(self) && monitor_replies(msg),
            },
    {
        let stamp = if monitor_answers(&msg) {
            match fresh_stamp() {
                Some(s) => s,
                None => return Err(KernelError::Unavailable),
            }
        } else {
            unused_stamp()
        };
        Ok(self.handle_at(msg, stamp))
    }
}

// ─── Optimizer agent ────────────────────────────────────────────────────────

pub struct OptimizerAgent {
    pub id: AgentId,
    pub status: AgentStatus,
    pub messages_processed: u64,
    pub started_at: Timestamp,
    pub optimizations_run: u64,
}

/// The action names the optimizer agent runs an optimization for.
pub open spec fn is_optimize_action(a: Seq<char>) -> bool {
    a == "optimize_routes"@ || a == "optimize_network"@
}

/// The improvement, in percent, that the `n`-th optimization reports.
pub open spec fn improvement_pct(n: u64) -> nat {
    (15 + n % 20) as nat
}

/// What the optimizer agent does with `msg`.
pub open spec fn optimizer_step(a: OptimizerAgent, msg: AgentMessage, b: OptimizerAgent, r: Option<AgentMessage>) -> bool {
    &&& b.id == a.id
    &&& b.started_at == a.started_at
    &&& b.messages_processed == a.messages_processed + 1
    &&& b.status == AgentStatus::Idle
    &&& if msg.kind == MessageKind::Intent && is_optimize_action(action_of(msg.payload)) {
        &&& b.optimizations_run == a.optimizations_run + 1
        &&& r matches Some(m) && answers(m, a.id, msg, MessageKind::Response) && field_count(m.payload) == 3
            && text_entry_is(m.payload, 0, "algorithm"@, "QAOA-sim"@)
            && count_entry_is(m.payload, 1, "improvement_pct"@, improvement_pct(b.optimizations_run))
            && text_entry_is(m.payload, 2, "status"@, "optimized"@)
    } else {
        &&& b.optimizations_run == a.optimizations_run
        &&& match msg.kind {
            MessageKind::Heartbeat => r matches Some(m) && answers(m, a.id, msg, MessageKind::StatusReport)
                && field_count(m.payload) == 2
                && count_entry_is(m.payload, 0, "optimizations_run"@, a.optimizations_run as nat)
                && text_entry_is(m.payload, 1, "status"@, "ready"@),
            _ => r is None,
        }
    }
}

/// Whether the payload asks the optimizer agent for an optimization.
fn is_optimize_request(payload: &JsonValue) -> (r: bool)
    ensures
        r == is_optimize_action(action_of(*payload)),
{
    match member_str(payload, "action") {
        Some(a) => str_eq(a.as_str(), "optimize_routes") || str_eq(a.as_str(), "optimize_network"),
        None => {
            proof {
                reveal_strlit("optimize_routes");
                reveal_strlit("optimize_network");
                assert(action_of(*payload).len() == 0);
            }
            false
        },
    }
}

/// The messages the optimizer agent answers.
pub open spec fn optimizer_replies(msg: AgentMessage) -> bool {
    (msg.kind == MessageKind::Intent && is_optimize_action(action_of(msg.payload))) || msg.kind == MessageKind::Heartbeat
}

/// Whether the optimizer agent answers `msg`.
fn optimizer_answers(msg: &AgentMessage) -> (r: bool)
    ensures
        r == optimizer_replies(*msg),
{
    match msg.kind {
        MessageKind::Intent => is_optimize_request(&msg.payload),
        MessageKind::Heartbeat => true,
        _ => false,
    }
}

impl OptimizerAgent {
    /// A new agent with a fresh random ID, started now; `None` where the
    /// random source or the clock fails.
    pub fn new() -> (r: Option<Self>)
        ensures
            r matches Some(a) ==> uuid_version(a.id) == 4 && uuid_variant(a.id) == 2 && a.started_at.nanos
                < 1_000_000_000 && (a.status == AgentStatus::Idle && a.messages_processed == 0 && a.optimizations_run == 0),
    {
        match fresh_stamp() {
            Some(stamp) => Some(Self::new_at(stamp)),
            None => None,
        }
    }

    /// A new agent with the ID of `stamp`, started at its instant.
    pub fn new_at(stamp: Stamp) -> (a: Self)
        ensures
            a.id == stamp.id,
            a.started_at == stamp.at,
            a.status == AgentStatus::Idle,
            a.messages_processed == 0,
            a.optimizations_run == 0,
    {
        OptimizerAgent {
            id: stamp.id,
            status: AgentStatus::Idle,
            messages_processed: 0,
            started_at: stamp.at,
            optimizations_run: 0,
        }
    }

    pub fn id(&self) -> (r: AgentId)
        ensures
            r == self.id,
    {
        self.id
    }

    pub fn name(&self) -> (r: &'static str)
        ensures
            r@ == "OptimizerAgent"@,
    {
        "OptimizerAgent"
    }

    pub fn agent_type(&self) -> (r: &'static str)
        ensures
            r@ == "optimizer"@,
    {
        "optimizer"
    }

    pub fn status(&self) -> (r: AgentStatus)
        ensures
            r == self.status,
    {
        self.status.copy()
    }

    pub fn info(&self) -> (r: AgentInfo)
        ensures
            info_is(r, self.id, "OptimizerAgent"@, "optimizer"@, self.status, self.messages_processed, self.started_at),
    {
        make_info(self.id, "OptimizerAgent", "optimizer", &self.status, self.messages_processed, self.started_at)
    }

    /// Process one message, answering (where it answers) with a message that
    /// carries the ID and instant of `stamp`.
    pub fn handle_at(&mut self, msg: AgentMessage, stamp: Stamp) -> (r: Option<AgentMessage>)
        requires
            old(self).messages_processed < u64::MAX,
            old(self).optimizations_run < u64::MAX,
        ensures
            optimizer_step(*old(self), msg, *final(self), r),
            r matches Some(m) ==> stamped(m, stamp),
    {
        self.status = AgentStatus::Processing;
        self.messages_processed = self.messages_processed + 1;
        let result = match msg.kind {
            MessageKind::Intent => {
                if is_optimize_request(&msg.payload) {
                    self.optimizations_run = self.optimizations_run + 1;
                    let improvement: u64 = 15 + self.optimizations_run % 20;
                    let mut fs: Vec<JsonField> = Vec::new();
                    fs.push(text_field("algorithm", "QAOA-sim"));
                    fs.push(count_field("improvement_pct", improvement));
                    fs.push(text_field("status", "optimized"));
                    Some(reply(self.id, &msg, MessageKind::Response, JsonValue::Object(fs), stamp))
                } else {
                    None
                }
            },
            MessageKind::Heartbeat => {
                let mut fs: Vec<JsonField> = Vec::new();
                fs.push(count_field("optimizations_run", self.optimizations_run));
                fs.push(text_field("status", "ready"));
                Some(reply(self.id, &msg, MessageKind::StatusReport, JsonValue::Object(fs), stamp))
            },
            _ => None,
        };
        self.status = AgentStatus::Idle;
        result
    }

    /// Process one message, answering (where it answers) with a message
    /// that has a fresh random ID and is stamped now. `Err`, with the agent
    /// unchanged, only where it would answer and the random source or the
    /// clock fails.
    pub fn handle(&mut self, msg: AgentMessage) -> (r: Result<Option<AgentMessage>, KernelError>)
        requires
            old(self).messages_processed < u64::MAX,
            old(self).optimizations_run < u64::MAX,
        ensures
            match r {
                Ok(o) => optimizer_step(*old(self), msg, *final(self), o),
                Err(e) => e == KernelError::Unavailable && *final(self) == *old(self) && optimizer_replies(msg),
            },
    {
        let stamp = if optimizer_answers(&msg) {
            match fresh_stamp() {
                Some(s) => s,
                None => return Err(KernelError::Unavailable),
            }
        } else {
            unused_stamp()
        };
        Ok(self.handle_at(msg, stamp))
    }
}

// ─── Network agent ──────────────────────────────────────────────────────────

pub struct NetworkAgent {
    pub id: AgentId,
    pub status: AgentStatus,
    pub messages_processed: u64,
    pub started_at: Timestamp,
    pub active_peers: usize,
}

/// What the network agent does with `msg`.
pub open spec fn network_step(a: NetworkAgent, msg: AgentMessage, b: NetworkAgent, r: Option<AgentMessage>) -> bool {
    &&& b.id == a.id
    &&& b.started_at == a.started_at
    &&& b.messages_processed == a.messages_processed + 1
    &&& b.status == AgentStatus::Idle
    &&& b.active_peers == a.active_peers
    &&& match msg.kind {
        MessageKind::Heartbeat => r matches Some(m) && answers(m, a.id, msg, MessageKind::StatusReport)
            && field_count(m.payload) == 2
            && count_entry_is(m.payload, 0, "active_peers"@, a.active_peers as nat)
            && text_entry_is(m.payload, 1, "protocol"@, "libp2p/netgene-mesh-v1"@),
        _ => r is None,
    }
}

/// The messages the network agent answers.
pub open spec fn network_replies(msg: AgentMessage) -> bool {
    msg.kind == MessageKind::Heartbeat
}

/// Whether the network agent answers `msg`.
fn network_answers(msg: &AgentMessage) -> (r: bool)
    ensures
        r == network_replies(*msg),
{
    match msg.kind {
        MessageKind::Heartbeat => true,
        _ => false,
    }
}

impl NetworkAgent {
    /// A new network agent; it counts the local seed node as its one peer.
    /// A new agent with a fresh random ID, started now; `None` where the
    /// random source or the clock fails.
    pub fn new() -> (r: Option<Self>)
        ensures
            r matches Some(a) ==> uuid_version(a.id) == 4 && uuid_variant(a.id) == 2 && a.started_at.nanos
                < 1_000_000_000 && (a.status == AgentStatus::Idle && a.messages_processed == 0 && a.active_peers == 1),
    {
        match fresh_stamp() {
            Some(stamp) => Some(Self::new_at(stamp)),
            None => None,
        }
    }

    /// A new agent with the ID of `stamp`, started at its instant.
    pub fn new_at(stamp: Stamp) -> (a: Self)
        ensures
            a.id == stamp.id,
            a.started_at == stamp.at,
            a.status == AgentStatus::Idle,
            a.messages_processed == 0,
            a.active_peers == 1,
    {
        NetworkAgent {
            id: stamp.id,
            status: AgentStatus::Idle,
            messages_processed: 0,
            started_at: stamp.at,
            active_peers: 1,
        }
    }

    pub fn id(&self) -> (r: AgentId)
        ensures
            r == self.id,
    {
        self.id
    }

    pub fn name(&self) -> (r: &'static str)
        ensures
            r@ == "NetworkAgent"@,
    {
        "NetworkAgent"
    }

    pub fn agent_type(&self) -> (r: &'static str)
        ensures
            r@ == "network"@,
    {
        "network"
    }

    pub fn status(&self) -> (r: AgentStatus)
        ensures
            r == self.status,
    {
        self.status.copy()
    }

    pub fn info(&self) -> (r: AgentInfo)
        ensures
            info_is(r, self.id, "NetworkAgent"@, "network"@, self.status, self.messages_processed, self.started_at),
    {
        make_info(self.id, "NetworkAgent", "network", &self.status, self.messages_processed, self.started_at)
    }

    /// Process one message, answering (where it answers) with a message that
    /// carries the ID and instant of `stamp`.
    pub fn handle_at(&mut self, msg: AgentMessage, stamp: Stamp) -> (r: Option<AgentMessage>)
        requires
            old(self).messages_processed < u64::MAX,
        ensures
            network_step(*old(self), msg, *final(self), r),
            r matches Some(m) ==> stamped(m, stamp),
    {
        self.status = AgentStatus::Processing;
        self.messages_processed = self.messages_processed + 1;
        let result = match msg.kind {
            MessageKind::Heartbeat => {
                let mut fs: Vec<JsonField> = Vec::new();
                fs.push(count_field("active_peers", self.active_peers as u64));
                fs.push(text_field("protocol", "libp2p/netgene-mesh-v1"));
                Some(reply(self.id, &msg, MessageKind::StatusReport, JsonValue::Object(fs), stamp))
            },
            _ => None,
        };
        self.status = AgentStatus::Idle;
        result
    }

    /// Process one message, answering (where it answers) with a message
    /// that has a fresh random ID and is stamped now. `Err`, with the agent
    /// unchanged, only where it would answer and the random source or the
    /// clock fails.
    pub fn handle(&mut self, msg: AgentMessage) -> (r: Result<Option<AgentMessage>, KernelError>)
        requires
            old(self).messages_processed < u64::MAX,
        ensures
            match r {
                Ok(o) => network_step(*old(self), msg, *final(self), o),
                Err(e) => e == KernelError::Unavailable && *final(self) == *old(self) && network_replies(msg),
            },
    {
        let stamp = if network_answers(&msg) {
            match fresh_stamp() {
                Some(s) => s,
                None => return Err(KernelError::Unavailable),
            }
        } else {
            unused_stamp()
        };
        Ok(self.handle_at(msg, stamp))
    }
}

// ─── Evolution agent ────────────────────────────────────────────────────────

pub struct EvolutionAgent {
    pub id: AgentId,
    pub status: AgentStatus,
    pub messages_processed: u64,
    pub started_at: Timestamp,
    pub mutations_proposed: u64,
    pub executed_commands: Vec<String>,
}

/// The directive a message carries: the first of its `command`, `action`
/// and `message` members that exists, if that one is a string, and
/// `Custom Evolution Directive` otherwise.
pub open spec fn directive_of(payload: JsonValue) -> Seq<char> {
    let picked = if payload.member("command"@) is Some {
        payload.member("command"@)
    } else if payload.member("action"@) is Some {
        payload.member("action"@)
    } else {
        payload.member("message"@)
    };
    match picked {
        Some(v) => match v.str_text() {
            Some(t) => t,
            None => "Custom Evolution Directive"@,
        },
        None => "Custom Evolution Directive"@,
    }
}

/// What the evolution agent does with `msg`.
pub open spec fn evolution_step(a: EvolutionAgent, msg: AgentMessage, b: EvolutionAgent, r: Option<AgentMessage>) -> bool {
    &&& b.id == a.id
    &&& b.started_at == a.started_at
    &&& b.messages_processed == a.messages_processed + 1
    &&& b.status == AgentStatus::Idle
    &&& match msg.kind {
        MessageKind::Intent | MessageKind::Request => {
            let cmd = directive_of(msg.payload);
            &&& b.mutations_proposed == a.mutations_proposed + 1
            &&& b.executed_commands@.len() == a.executed_commands@.len() + 1
            &&& b.executed_commands@.drop_last() == a.executed_commands@
            &&& b.executed_commands@.last()@ == cmd
            &&& r matches Some(m) && answers(m, a.id, msg, MessageKind::Response) && field_count(m.payload) == 5
                && text_entry_is(m.payload, 0, "command"@, cmd)
                && text_entry_is(m.payload, 1, "details"@, "EvolutionAgent executed directive: '"@ + cmd + "'"@)
                && float_entry_is(m.payload, 2, "fitness_score"@, "0.992"@)
                && text_entry_is(m.payload, 3, "mutation_id"@, "MUT-"@ + decimal(b.mutations_proposed as nat))
                && text_entry_is(m.payload, 4, "status"@, "EXECUTED"@)
        },
        MessageKind::Heartbeat => {
            &&& b.mutations_proposed == a.mutations_proposed + 1
            &&& b.executed_commands@ == a.executed_commands@
            &&& r matches Some(m) && answers(m, a.id, msg, MessageKind::StatusReport) && field_count(m.payload) == 3
                && count_entry_is(m.payload, 0, "executed_commands_count"@, a.executed_commands@.len())
                && float_entry_is(m.payload, 1, "fitness_score"@, "0.985"@)
                && count_entry_is(m.payload, 2, "system_generation"@, b.mutations_proposed as nat)
        },
        _ => {
            &&& b.mutations_proposed == a.mutations_proposed
            &&& b.executed_commands@ == a.executed_commands@
            &&& r is None
        },
    }
}

/// The directive of a payload, as `directive_of` reads it.
fn directive(payload: &JsonValue) -> (r: String)
    ensures
        r@ == directive_of(*payload),
{
    let picked = match payload.get("command") {
        Some(v) => Some(v),
        None => match payload.get("action") {
            Some(v) => Some(v),
            None => payload.get("message"),
        },
    };
    match picked {
        Some(v) => match v.as_str() {
            Some(t) => t.clone(),
            None => "Custom Evolution Directive".to_string(),
        },
        None => "Custom Evolution Directive".to_string(),
    }
}

/// The messages the evolution agent answers.
pub open spec fn evolution_replies(msg: AgentMessage) -> bool {
    msg.kind == MessageKind::Intent || msg.kind == MessageKind::Request || msg.kind == MessageKind::Heartbeat
}

/// Whether the evolution agent answers `msg`.
fn evolution_answers(msg: &AgentMessage) -> (r: bool)
    ensures
        r == evolution_replies(*msg),
{
    match msg.kind {
        MessageKind::Intent | MessageKind::Request | MessageKind::Heartbeat => true,
        _ => false,
    }
}

impl EvolutionAgent {
    /// A new agent with a fresh random ID, started now; `None` where the
    /// random source or the clock fails.
    pub fn new() -> (r: Option<Self>)
        ensures
            r matches Some(a) ==> uuid_version(a.id) == 4 && uuid_variant(a.id) == 2 && a.started_at.nanos
                < 1_000_000_000 && (a.status == AgentStatus::Idle && a.messages_processed == 0 && a.mutations_proposed == 0 && a.executed_commands@.len() == 0),
    {
        match fresh_stamp() {
            Some(stamp) => Some(Self::new_at(stamp)),
            None => None,
        }
    }

    /// A new agent with the ID of `stamp`, started at its instant.
    pub fn new_at(stamp: Stamp) -> (a: Self)
        ensures
            a.id == stamp.id,
            a.started_at == stamp.at,
            a.status == AgentStatus::Idle,
            a.messages_processed == 0,
            a.mutations_proposed == 0,
            a.executed_commands@.len() == 0,
    {
        EvolutionAgent {
            id: stamp.id,
            status: AgentStatus::Idle,
            messages_processed: 0,
            started_at: stamp.at,
            mutations_proposed: 0,
            executed_commands: Vec::new(),
        }
    }

    pub fn id(&self) -> (r: AgentId)
        ensures
            r == self.id,
    {
        self.id
    }

    pub fn name(&self) -> (r: &'static str)
        ensures
            r@ == "EvolutionAgent"@,
    {
        "EvolutionAgent"
    }

    pub fn agent_type(&self) -> (r: &'static str)
        ensures
            r@ == "evolution"@,
    {
        "evolution"
    }

    pub fn status(&self) -> (r: AgentStatus)
        ensures
            r == self.status,
    {
        self.status.copy()
    }

    pub fn info(&self) -> (r: AgentInfo)
        ensures
            info_is(r, self.id, "EvolutionAgent"@, "evolution"@, self.status, self.messages_processed, self.started_at),
    {
        make_info(self.id, "EvolutionAgent", "evolution", &self.status, self.messages_processed, self.started_at)
    }

    /// Process one message, answering (where it answers) with a message that
    /// carries the ID and instant of `stamp`.
    pub fn handle_at(&mut self, msg: AgentMessage, stamp: Stamp) -> (r: Option<AgentMessage>)
        requires
            old(self).messages_processed < u64::MAX,
            old(self).mutations_proposed < u64::MAX,
        ensures
            evolution_step(*old(self), msg, *final(self), r),
            r matches Some(m) ==> stamped(m, stamp),
    {
        self.status = AgentStatus::Processing;
        self.messages_processed = self.messages_processed + 1;
        let result = match msg.kind {
            MessageKind::Intent | MessageKind::Request => {
                self.mutations_proposed = self.mutations_proposed + 1;
                let cmd = directive(&msg.payload);
                let ghost before = self.executed_commands@;
                self.executed_commands.push(cmd.clone());
                assert(self.executed_commands@.drop_last() =~= before);
                let mut details: Vec<char> = Vec::new();
                push_str(&mut details, "EvolutionAgent executed directive: '");
                push_str(&mut details, cmd.as_str());
                push_str(&mut details, "'");
                let mut mutation: Vec<char> = Vec::new();
                push_str(&mut mutation, "MUT-");
                push_decimal(&mut mutation, self.mutations_proposed);
                let mut fs: Vec<JsonField> = Vec::new();
                fs.push(str_field("command", cmd));
                fs.push(str_field("details", string_from_chars(details.as_slice())));
                fs.push(field("fitness_score", JsonValue::Number(JsonNumber::Float("0.992".to_string()))));
                fs.push(str_field("mutation_id", string_from_chars(mutation.as_slice())));
                fs.push(text_field("status", "EXECUTED"));
                Some(reply(self.id, &msg, MessageKind::Response, JsonValue::Object(fs), stamp))
            },
            MessageKind::Heartbeat => {
                self.mutations_proposed = self.mutations_proposed + 1;
                let mut fs: Vec<JsonField> = Vec::new();
                fs.push(count_field("executed_commands_count", self.executed_commands.len() as u64));
                fs.push(field("fitness_score", JsonValue::Number(JsonNumber::Float("0.985".to_string()))));
                fs.push(count_field("system_generation", self.mutations_proposed));
                Some(reply(self.id, &msg, MessageKind::StatusReport, JsonValue::Object(fs), stamp))
            },
            _ => None,
        };
        self.status = AgentStatus::Idle;
        result
    }

    /// Process one message, answering (where it answers) with a message
    /// that has a fresh random ID and is stamped now. `Err`, with the agent
    /// unchanged, only where it would answer and the random source or the
    /// clock fails.
    pub fn handle(&mut self, msg: AgentMessage) -> (r: Result<Option<AgentMessage>, KernelError>)
        requires
            old(self).messages_processed < u64::MAX,
            old(self).mutations_proposed < u64::MAX,
        ensures
            match r {
                Ok(o) => evolution_step(*old(self), msg, *final(self), o),
                Err(e) => e == KernelError::Unavailable && *final(self) == *old(self) && evolution_replies(msg),
            },
    {
        let stamp = if evolution_answers(&msg) {
            match fresh_stamp() {
                Some(s) => s,
                None => return Err(KernelError::Unavailable),
            }
        } else {
            unused_stamp()
        };
        Ok(self.handle_at(msg, stamp))
    }
}

/// Which messages make the agents act. The builder provisions exactly one
/// node, and answers, on an intent whose action is `spawn_node` or
/// `provision_nodes`, and on no other message; the optimizer runs one
/// optimization, and answers, on an intent whose action is
/// `optimize_routes` or `optimize_network`, and on no other message; the
/// monitor records one alert on each alert message, with the alert's
/// `message` text (or `Unknown alert`), and on no other message; the
/// network agent answers heartbeats only. Every agent counts each message
/// it handles once and is idle afterwards.
pub proof fn lemma_agents_act_on_their_messages(
    msg: AgentMessage,
    b0: BuilderAgent,
    b1: BuilderAgent,
    rb: Option<AgentMessage>,
    o0: OptimizerAgent,
    o1: OptimizerAgent,
    ro: Option<AgentMessage>,
    m0: MonitorAgent,
    m1: MonitorAgent,
    rm: Option<AgentMessage>,
    n0: NetworkAgent,
    n1: NetworkAgent,
    rn: Option<AgentMessage>,
)
    requires
        builder_step(b0, msg, b1, rb),
        optimizer_step(o0, msg, o1, ro),
        monitor_step(m0, msg, m1, rm),
        network_step(n0, msg, n1, rn),
    ensures
        b1.messages_processed == b0.messages_processed + 1 && b1.status == AgentStatus::Idle,
        o1.messages_processed == o0.messages_processed + 1 && o1.status == AgentStatus::Idle,
        m1.messages_processed == m0.messages_processed + 1 && m1.status == AgentStatus::Idle,
        n1.messages_processed == n0.messages_processed + 1 && n1.status == AgentStatus::Idle,
        msg.kind == MessageKind::Intent && (action_of(msg.payload) == "spawn_node"@ || action_of(msg.payload)
            == "provision_nodes"@) ==> b1.provisioned_nodes@.len() == b0.provisioned_nodes@.len() + 1
            && b1.provisioned_nodes@.drop_last() == b0.provisioned_nodes@ && rb is Some,
        !(msg.kind == MessageKind::Intent && (action_of(msg.payload) == "spawn_node"@ || action_of(msg.payload)
            == "provision_nodes"@)) ==> b1.provisioned_nodes@ == b0.provisioned_nodes@,
        msg.kind == MessageKind::Intent && (action_of(msg.payload) == "optimize_routes"@ || action_of(
            msg.payload,
        ) == "optimize_network"@) ==> o1.optimizations_run == o0.optimizations_run + 1 && ro is Some,
        !(msg.kind == MessageKind::Intent && (action_of(msg.payload) == "optimize_routes"@ || action_of(
            msg.payload,
        ) == "optimize_network"@)) ==> o1.optimizations_run == o0.optimizations_run,
        msg.kind == MessageKind::Alert ==> m1.alerts@.len() == m0.alerts@.len() + 1 && m1.alerts@.drop_last()
            == m0.alerts@ && m1.alerts@.last()@ == (match member_text(msg.payload, "message"@) {
            Some(t) => t,
            None => "Unknown alert"@,
        }) && rm is Some,
        msg.kind != MessageKind::Alert ==> m1.alerts@ == m0.alerts@,
        rn is Some <==> msg.kind == MessageKind::Heartbeat,
{
}

/// The evolution agent executes every intent or request as a directive: it
/// records the text of the payload's `command` member (or else its
/// `action`, or else its `message`; `Custom Evolution Directive` where the
/// member found is no string or none is there), counts one more mutation
/// and answers; a heartbeat counts one more mutation and executes nothing;
/// any other message changes nothing and gets no answer.
pub proof fn lemma_evolution_executes_directives(a: EvolutionAgent, msg: AgentMessage, b: EvolutionAgent, r: Option<AgentMessage>)
    requires
        evolution_step(a, msg, b, r),
    ensures
        msg.kind == MessageKind::Intent || msg.kind == MessageKind::Request ==> {
            &&& b.executed_commands@.len() == a.executed_commands@.len() + 1
            &&& b.executed_commands@.drop_last() == a.executed_commands@
            &&& b.executed_commands@.last()@ == match (if msg.payload.member("command"@) is Some {
                msg.payload.member("command"@)
            } else if msg.payload.member("action"@) is Some {
                msg.payload.member("action"@)
            } else {
                msg.payload.member("message"@)
            }) {
                Some(JsonValue::Str(t)) => t@,
                _ => "Custom Evolution Directive"@,
            }
            &&& b.mutations_proposed == a.mutations_proposed + 1
            &&& r is Some
        },
        msg.kind == MessageKind::Heartbeat ==> b.executed_commands@ == a.executed_commands@
            && b.mutations_proposed == a.mutations_proposed + 1 && r is Some,
        msg.kind != MessageKind::Intent && msg.kind != MessageKind::Request && msg.kind != MessageKind::Heartbeat
            ==> b.executed_commands@ == a.executed_commands@ && b.mutations_proposed == a.mutations_proposed
            && r is None,
{
}

} // verus!
