//! The kernel's registry of agents, and the boot that creates the five
//! core agents and registers them. Running the agents and the bus is the
//! caller's.

use vstd::prelude::*;
use std::collections::HashMap;
use crate::ids::{Stamp, Timestamp, fresh_stamp};
use crate::kernel::memory::lemma_push_fresh;
use crate::kernel::agent::{
    AgentId, AgentInfo, AgentStatus, BuilderAgent, EvolutionAgent, MonitorAgent, NetworkAgent,
    OptimizerAgent, info_is,
};

verus! {

broadcast use vstd::std_specs::hash::group_hash_axioms;

/// The agents the kernel knows, by ID.
pub struct AgentRegistry {
    agents: HashMap<AgentId, AgentInfo>,
}

/// The five core agents.
pub struct CoreAgents {
    pub builder: BuilderAgent,
    pub monitor: MonitorAgent,
    pub optimizer: OptimizerAgent,
    pub network: NetworkAgent,
    pub evolution: EvolutionAgent,
}

impl AgentInfo {
    /// A copy of the snapshot.
    pub fn copy(&self) -> (r: AgentInfo)
        ensures
            r == *self,
    {
        AgentInfo {
            id: self.id,
            name: self.name.clone(),
            agent_type: self.agent_type.clone(),
            status: self.status.copy(),
            messages_processed: self.messages_processed,
            started_at: self.started_at,
        }
    }
}

/// The snapshot of an agent installed from the marketplace: a fresh ID,
/// its manifest's name, its manifest's ID as its type, idle, started `at`.
pub open spec fn installed_info_is(info: AgentInfo, manifest_id: Seq<char>, name: Seq<char>, at: Timestamp) -> bool {
    &&& info.name@ == name
    &&& info.agent_type@ == manifest_id
    &&& info.status == AgentStatus::Idle
    &&& info.messages_processed == 0
    &&& info.started_at == at
}

/// `r` holds the snapshots of `m`, under the IDs `ks`, each once.
pub open spec fn listed_by(r: Seq<AgentInfo>, m: Map<AgentId, AgentInfo>, ks: Seq<AgentId>) -> bool {
    &&& ks.no_duplicates()
    &&& ks.to_set() == m.dom()
    &&& ks.len() == r.len()
    &&& forall|j: int| 0 <= j < ks.len() ==> r[j] == m[#[trigger] ks[j]]
}

/// `r` holds every snapshot of `m`, each registered agent once, in some
/// order.
pub open spec fn listed_once(r: Seq<AgentInfo>, m: Map<AgentId, AgentInfo>) -> bool {
    exists|ks: Seq<AgentId>| #[trigger] listed_by(r, m, ks)
}

/// A walk over all the IDs of `m`, without repeats, that collected the
/// snapshot under each lists every snapshot once.
proof fn lemma_listed_all(r: Seq<AgentInfo>, m: Map<AgentId, AgentInfo>, ks: Seq<AgentId>)
    requires
        ks.no_duplicates(),
        ks.to_set() == m.dom(),
        ks.len() == r.len(),
        forall|j: int| 0 <= j < ks.len() ==> r[j] == m[#[trigger] ks[j]],
    ensures
        listed_once(r, m),
        forall|x: AgentInfo| #[trigger] r.contains(x) <==> m.values().contains(x),
{
    assert(listed_by(r, m, ks));
    assert forall|x: AgentInfo| #[trigger] r.contains(x) <==> m.values().contains(x) by {
        if r.contains(x) {
            let j = choose|j: int| 0 <= j < r.len() && r[j] == x;
            assert(ks.to_set().contains(ks[j]));
        }
        if m.values().contains(x) {
            let k = choose|k: AgentId| m.contains_key(k) && m[k] == x;
            assert(ks.to_set().contains(k));
            let j = choose|j: int| 0 <= j < ks.len() && ks[j] == k;
            assert(r[j] == x);
        }
    }
}

impl AgentRegistry {
    /// The registered snapshots by agent ID.
    pub closed spec fn infos(&self) -> Map<AgentId, AgentInfo> {
        self.agents@
    }

    /// An empty registry.
    pub fn new() -> (r: Self)
        ensures
            r.infos() == Map::<AgentId, AgentInfo>::empty(),
    {
        AgentRegistry { agents: HashMap::new() }
    }

    /// Register (or replace) the snapshot of the agent `info.id`.
    pub fn register(&mut self, info: AgentInfo)
        ensures
            final(self).infos() == old(self).infos().insert(info.id, info),
    {
        let id = info.id;
        self.agents.insert(id, info);
    }

    /// Register an agent installed from the marketplace, under a fresh
    /// random ID, started now, and return that ID; `None`, with the
    /// registry unchanged, where the random source or the clock fails.
    pub fn inject_marketplace_agent(&mut self, id: String, name: String) -> (r: Option<AgentId>)
        ensures
            match r {
                Some(agent_id) => {
                    &&& final(self).infos() == old(self).infos().insert(agent_id, final(self).infos()[agent_id])
                    &&& final(self).infos()[agent_id].id == agent_id
                    &&& exists|t: Timestamp| #[trigger] installed_info_is(final(self).infos()[agent_id], id@, name@, t)
                },
                None => *final(self) == *old(self),
            },
    {
        match fresh_stamp() {
            Some(stamp) => {
                self.inject_marketplace_agent_at(id, name, stamp);
                Some(stamp.id)
            },
            None => None,
        }
    }

    /// Register an agent installed from the marketplace under the ID of
    /// `stamp`, started at its instant.
    pub fn inject_marketplace_agent_at(&mut self, id: String, name: String, stamp: Stamp)
        ensures
            final(self).infos() == old(self).infos().insert(stamp.id, final(self).infos()[stamp.id]),
            final(self).infos()[stamp.id].id == stamp.id,
            installed_info_is(final(self).infos()[stamp.id], id@, name@, stamp.at),
    {
        let info = AgentInfo {
            id: stamp.id,
            name,
            agent_type: id,
            status: AgentStatus::Idle,
            messages_processed: 0,
            started_at: stamp.at,
        };
        self.register(info);
    }

    /// The number of registered agents.
    pub fn len(&self) -> (r: usize)
        ensures
            r == self.infos().len(),
    {
        self.agents.len()
    }

    /// Copies of all registered snapshots: one per registered agent, in no
    /// stated order.
    pub fn agent_list(&self) -> (r: Vec<AgentInfo>)
        ensures
            r@.len() == self.infos().len(),
            listed_once(r@, self.infos()),
            forall|x: AgentInfo| #[trigger] r@.contains(x) <==> self.infos().values().contains(x),
    {
        let ghost m = self.agents@;
        let mut out: Vec<AgentInfo> = Vec::new();
        let ghost mut ks: Seq<AgentId> = Seq::empty();
        for k in it: self.agents.keys()
            invariant
                m == self.agents@,
                it.seq().unref().to_set() == m.dom(),
                it.seq().unref().no_duplicates(),
                it.seq().len() == m.dom().len(),
                ks == it.seq().unref().take(it.index()),
                out@.len() == ks.len(),
                forall|j: int| 0 <= j < ks.len() ==> out@[j] == m[#[trigger] ks[j]],
                ks.no_duplicates(),
                it.index() == it.seq().len() ==> ks.to_set() == m.dom(),
        {
            proof {
                assert(*k == it.seq().unref()[it.index()]);
                assert(it.seq().unref().take(it.index() + 1) =~= ks.push(*k));
                assert(it.seq().unref().to_set().contains(*k));
                if ks.contains(*k) {
                    let j = choose|j: int| 0 <= j < ks.len() && ks[j] == *k;
                    assert(it.seq().unref()[j] == it.seq().unref()[it.index()]);
                }
                lemma_push_fresh(ks, *k);
            }
            match self.agents.get(k) {
                Some(info) => {
                    out.push(info.copy());
                },
                None => {},
            }
            proof {
                ks = ks.push(*k);
                assert(it.index() + 1 == it.seq().len() ==> ks =~= it.seq().unref());
            }
        }
        proof {
            assert(ks.len() == m.dom().len());
            lemma_listed_all(out@, m, ks);
        }
        out
    }
}

/// The state right after boot: fresh agents, and each registered.
pub open spec fn booted(c: CoreAgents, reg: AgentRegistry) -> bool {
    &&& c.builder.messages_processed == 0 && c.builder.provisioned_nodes@.len() == 0
    &&& c.monitor.messages_processed == 0 && c.monitor.alerts@.len() == 0
    &&& c.optimizer.messages_processed == 0 && c.optimizer.optimizations_run == 0
    &&& c.network.messages_processed == 0 && c.network.active_peers == 1
    &&& c.evolution.messages_processed == 0 && c.evolution.mutations_proposed == 0
    &&& reg.infos().dom() == set![c.builder.id, c.monitor.id, c.optimizer.id, c.network.id, c.evolution.id]
    &&& boot_registered(c, reg)
}

/// Create the five core agents, each with a fresh random ID and started
/// now, and register each of them: builder, monitor, optimizer, network
/// and evolution, in that order. `None` where the random source or the
/// clock fails.
pub fn boot_agents() -> (r: Option<(CoreAgents, AgentRegistry)>)
    ensures
        r matches Some((c, reg)) ==> booted(c, reg),
{
    let b = match fresh_stamp() {
        Some(s) => s,
        None => return None,
    };
    let m = match fresh_stamp() {
        Some(s) => s,
        None => return None,
    };
    let o = match fresh_stamp() {
        Some(s) => s,
        None => return None,
    };
    let n = match fresh_stamp() {
        Some(s) => s,
        None => return None,
    };
    let e = match fresh_stamp() {
        Some(s) => s,
        None => return None,
    };
    Some(boot_agents_with(b, m, o, n, e))
}

/// The boot with the agents' IDs and start instants taken from the five
/// stamps, in the order builder, monitor, optimizer, network, evolution.
pub fn boot_agents_with(b: Stamp, m: Stamp, o: Stamp, n: Stamp, e: Stamp) -> (r: (CoreAgents, AgentRegistry))
    ensures
        booted(r.0, r.1),
        r.0.builder.id == b.id && r.0.builder.started_at == b.at,
        r.0.monitor.id == m.id && r.0.monitor.started_at == m.at,
        r.0.optimizer.id == o.id && r.0.optimizer.started_at == o.at,
        r.0.network.id == n.id && r.0.network.started_at == n.at,
        r.0.evolution.id == e.id && r.0.evolution.started_at == e.at,
{
    let builder = BuilderAgent::new_at(b);
    let monitor = MonitorAgent::new_at(m);
    let optimizer = OptimizerAgent::new_at(o);
    let network = NetworkAgent::new_at(n);
    let evolution = EvolutionAgent::new_at(e);
    let mut reg = AgentRegistry::new();
    reg.register(builder.info());
    reg.register(monitor.info());
    reg.register(optimizer.info());
    reg.register(network.info());
    reg.register(evolution.info());
    let core = CoreAgents { builder, monitor, optimizer, network, evolution };
    assert(reg.infos().dom() =~= set![
        core.builder.id,
        core.monitor.id,
        core.optimizer.id,
        core.network.id,
        core.evolution.id,
    ]);
    (core, reg)
}

/// Each core agent's snapshot is registered under its ID, unless an agent
/// registered after it drew the same random ID.
pub open spec fn boot_registered(c: CoreAgents, reg: AgentRegistry) -> bool {
    let m = reg.infos();
    let (b, mo, o, n, e) = (c.builder.id, c.monitor.id, c.optimizer.id, c.network.id, c.evolution.id);
    &&& info_is(m[e], e, "EvolutionAgent"@, "evolution"@, AgentStatus::Idle, 0, c.evolution.started_at)
    &&& n != e ==> info_is(m[n], n, "NetworkAgent"@, "network"@, AgentStatus::Idle, 0, c.network.started_at)
    &&& o != n && o != e ==> info_is(m[o], o, "OptimizerAgent"@, "optimizer"@, AgentStatus::Idle, 0, c.optimizer.started_at)
    &&& mo != o && mo != n && mo != e ==> info_is(m[mo], mo, "MonitorAgent"@, "monitor"@, AgentStatus::Idle, 0, c.monitor.started_at)
    &&& b != mo && b != o && b != n && b != e ==> info_is(m[b], b, "BuilderAgent"@, "builder"@, AgentStatus::Idle, 0, c.builder.started_at)
}

/// Five agents come up when the boot drew five different IDs.
pub proof fn lemma_boot_has_five(c: CoreAgents, reg: AgentRegistry)
    requires
        reg.infos().dom() == set![c.builder.id, c.monitor.id, c.optimizer.id, c.network.id, c.evolution.id],
        c.builder.id != c.monitor.id && c.builder.id != c.optimizer.id && c.builder.id != c.network.id
            && c.builder.id != c.evolution.id,
        c.monitor.id != c.optimizer.id && c.monitor.id != c.network.id && c.monitor.id != c.evolution.id,
        c.optimizer.id != c.network.id && c.optimizer.id != c.evolution.id,
        c.network.id != c.evolution.id,
    ensures
        reg.infos().len() == 5,
{
    let s = set![c.builder.id, c.monitor.id, c.optimizer.id, c.network.id, c.evolution.id];
    assert(s.len() == 5) by {
        let s0 = Set::<AgentId>::empty();
        let s1 = s0.insert(c.builder.id);
        let s2 = s1.insert(c.monitor.id);
        let s3 = s2.insert(c.optimizer.id);
        let s4 = s3.insert(c.network.id);
        let s5 = s4.insert(c.evolution.id);
        assert(s5 =~= s);
    }
}

} // verus!
