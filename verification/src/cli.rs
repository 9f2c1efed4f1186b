//! The commands of the `netgene` command line, as plain data. Parsing the
//! arguments into them is the program's; each value names one action of a
//! layer of the system and carries that action's settings.

use vstd::prelude::*;

verus! {

/// Agent management on the kernel.
#[derive(Debug, Clone, PartialEq, Eq)]
pub enum AgentCommand {
    /// List all active agents.
    List,
    /// Dispatch a natural-language intent to the agents.
    Dispatch { intent: String },
    /// Show the agent system status.
    Status,
}

/// The builder engine.
#[derive(Debug, Clone, PartialEq, Eq)]
pub enum BuilderCommand {
    /// Provision `count` nodes from a template (edge, core, gateway, quantum).
    Provision { template: String, count: u32 },
    /// Carry out a natural-language build intent.
    Intent { intent: String },
    /// List all provisioned nodes.
    List,
}

/// The cloud mesh node.
#[derive(Debug, Clone, PartialEq, Eq)]
pub enum CloudCommand {
    /// Start a cloud mesh node on `port`.
    Start { port: u16 },
    /// Connect to a peer.
    Connect { address: String },
}

/// Governance and proof-of-utility rewards.
#[derive(Debug, Clone, PartialEq, Eq)]
pub enum DaoCommand {
    /// Submit an evolution proposal.
    Propose { title: String, proposer: String },
    /// Compute a node's proof-of-utility reward.
    Reward { node: String, qpu_shots: usize, packets: u64 },
    /// Show the governance status.
    Status,
}

/// The kernel socket probes.
#[derive(Debug, Clone, PartialEq, Eq)]
pub enum EbpfCommand {
    /// Sample probe telemetry on an interface.
    Sample { interface: String },
    /// Show the probe subsystem status.
    Status,
}

/// Identities and their keys.
#[derive(Debug, Clone, PartialEq, Eq)]
pub enum GeneCommand {
    /// Generate a new master gene.
    Init { name: String },
    /// Show all stored genes.
    Show,
    /// Spawn a sub-gene of `parent` with a role (node, agent, observer).
    Spawn { parent: String, name: String, role: String },
    /// Verify a gene by ID.
    Verify { id: String },
}

/// The Kubernetes operator.
#[derive(Debug, Clone, PartialEq, Eq)]
pub enum K8sCommand {
    /// Print the manifest of a GeneNode resource.
    Manifest { name: String, namespace: String },
    /// Reconcile a GeneNode resource.
    Reconcile { name: String },
    /// Show the operator status.
    Status,
}

/// IoT lite nodes.
#[derive(Debug, Clone, PartialEq, Eq)]
pub enum LiteCommand {
    /// Start a lite node in relay mode.
    Relay { id: String },
    /// Start a lite node in sensor mode.
    Sensor { id: String },
}

/// The local language model.
#[derive(Debug, Clone, PartialEq, Eq)]
pub enum LlmCommand {
    /// Check the model server.
    Status,
    /// Read an intent out of a prompt.
    Parse { prompt: String },
    /// Chat with the model.
    Chat { message: String },
}

/// The mobile bridge and passkeys.
#[derive(Debug, Clone, PartialEq, Eq)]
pub enum MobileCommand {
    /// Issue a passkey challenge for `user`.
    Challenge { user: String },
    /// Start the mobile bridge server on `port`.
    Bridge { port: u16 },
    /// Show the mobile subsystem status.
    Status,
}

/// Local nodes.
#[derive(Debug, Clone, PartialEq, Eq)]
pub enum NodeCommand {
    /// Start a local node.
    Start { name: String, port: u16 },
    /// Show the node status.
    Status,
    /// List the nodes of the mesh.
    List,
}

/// The peer-to-peer mesh.
#[derive(Debug, Clone, PartialEq, Eq)]
pub enum P2pCommand {
    /// Join the mesh, listening on `port`.
    Listen { port: u16 },
    /// Dial a peer by its multiaddress, binding `port`.
    Connect { addr: String, port: u16 },
    /// Broadcast a message over the mesh.
    Broadcast { msg: String },
}

/// Hardware quantum processors.
#[derive(Debug, Clone, PartialEq, Eq)]
pub enum QpuCommand {
    /// Transpile the routing problem to OpenQASM 3.0.
    Qasm { qubits: usize, layers: usize },
    /// Submit a task to a hardware backend.
    Submit { backend: String, shots: usize },
    /// Show the connectors' status.
    Status,
}

/// Quantum-inspired optimisation.
#[derive(Debug, Clone, PartialEq, Eq)]
pub enum QuantumCommand {
    /// Optimise the routes of a demo network of `nodes` nodes.
    Optimize { nodes: usize, layers: usize },
    /// Run QAOA on a problem of `size` variables.
    Qaoa { size: usize },
    /// Run simulated annealing on a problem of `size` variables.
    Anneal { size: usize },
    /// Show the module information.
    Info,
}

/// Demo data.
#[derive(Debug, Clone, PartialEq, Eq)]
pub enum SeedCommand {
    /// Seed the system with demo data.
    Data,
}

/// The persistent store.
#[derive(Debug, Clone, PartialEq, Eq)]
pub enum StoreCommand {
    /// Show the store's status and path.
    Status,
    /// List the stored nodes.
    Nodes,
    /// Save a node.
    SaveNode { id: String, name: String, template: String, ip: String, port: u16 },
    /// Dump all records.
    Dump,
}

/// The hardware enclave.
#[derive(Debug, Clone, PartialEq, Eq)]
pub enum TpmCommand {
    /// Show the enclave status.
    Status,
    /// Seal a payload.
    Seal { payload: String },
}

/// The encrypted vault.
#[derive(Debug, Clone, PartialEq, Eq)]
pub enum VaultCommand {
    /// Store a file.
    Store { filename: String, data: String },
    /// List the stored files.
    List,
}

/// The WASM sandbox.
#[derive(Debug, Clone, PartialEq, Eq)]
pub enum WasmCommand {
    /// Run a gene module.
    Run { name: String },
    /// Show the sandbox limits.
    Status,
}

} // verus!
