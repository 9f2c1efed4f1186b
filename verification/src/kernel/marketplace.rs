//! The agent marketplace: manifests of installable agents, the catalogue a
//! fresh registry is seeded with, and installation by ID.

use vstd::prelude::*;
use crate::text::{push_str, str_eq, string_from_chars, texts};

verus! {

#[derive(Debug, Clone)]
pub struct AgentManifest {
    pub id: String,
    pub name: String,
    pub version: String,
    pub description: String,
    pub author: String,
    pub capabilities: Vec<String>,
}

/// The marketplace, kept in the registry directory `registry_path`.
pub struct Marketplace {
    registry_path: String,
}

/// Why an installation failed.
#[derive(Debug, Clone, PartialEq, Eq)]
pub enum MarketplaceError {
    /// No listed agent has the ID.
    NotFound { id: String },
}

/// The text an error displays.
pub open spec fn marketplace_error_text(e: MarketplaceError) -> Seq<char> {
    match e {
        MarketplaceError::NotFound { id } => "Agent "@ + id@ + " not found in marketplace"@,
    }
}

impl MarketplaceError {
    pub fn message(&self) -> (r: String)
        ensures
            r@ == marketplace_error_text(*self),
    {
        match self {
            MarketplaceError::NotFound { id } => {
                let mut v: Vec<char> = Vec::new();
                push_str(&mut v, "Agent ");
                push_str(&mut v, id.as_str());
                push_str(&mut v, " not found in marketplace");
                string_from_chars(v.as_slice())
            },
        }
    }
}

/// The index of the first manifest in `s` whose ID is `id`, from `i` on.
pub open spec fn first_with_id(s: Seq<AgentManifest>, id: Seq<char>, i: int) -> Option<int>
    decreases s.len() - i,
{
    if i < 0 || i >= s.len() {
        None
    } else if s[i].id@ == id {
        Some(i)
    } else {
        first_with_id(s, id, i + 1)
    }
}

/// The manifest an installation picks (from index `i` on) has the
/// requested ID and no earlier one has it; when none is picked, no listed
/// manifest has the ID.
pub proof fn lemma_first_with_id(s: Seq<AgentManifest>, id: Seq<char>, i: int)
    requires
        0 <= i <= s.len(),
    ensures
        match first_with_id(s, id, i) {
            Some(j) => i <= j < s.len() && s[j].id@ == id && forall|k: int| i <= k < j ==> #[trigger] s[k].id@ != id,
            None => forall|k: int| i <= k < s.len() ==> #[trigger] s[k].id@ != id,
        },
    decreases s.len() - i,
{
    if i < s.len() {
        lemma_first_with_id(s, id, i + 1);
    }
}

/// `m` is the manifest with these fields.
pub open spec fn manifest_is(
    m: AgentManifest,
    id: Seq<char>,
    name: Seq<char>,
    version: Seq<char>,
    description: Seq<char>,
    author: Seq<char>,
    capabilities: Seq<Seq<char>>,
) -> bool {
    &&& m.id@ == id
    &&& m.name@ == name
    &&& m.version@ == version
    &&& m.description@ == description
    &&& m.author@ == author
    &&& texts(m.capabilities@) == capabilities
}

fn manifest(
    id: &str,
    name: &str,
    version: &str,
    description: &str,
    author: &str,
    cap_a: &str,
    cap_b: &str,
) -> (m: AgentManifest)
    ensures
        manifest_is(m, id@, name@, version@, description@, author@, seq![cap_a@, cap_b@]),
{
    let mut caps: Vec<String> = Vec::new();
    caps.push(cap_a.to_string());
    caps.push(cap_b.to_string());
    let m = AgentManifest {
        id: id.to_string(),
        name: name.to_string(),
        version: version.to_string(),
        description: description.to_string(),
        author: author.to_string(),
        capabilities: caps,
    };
    assert(texts(m.capabilities@) =~= seq![cap_a@, cap_b@]);
    m
}

/// The catalogue a new registry is seeded with: the file each manifest is
/// written to, and the manifest.
pub fn default_manifests() -> (r: Vec<(String, AgentManifest)>)
    ensures
        r@.len() == 4,
        r@[0].0@ == "deepseek-coder.json"@,
        manifest_is(
            r@[0].1,
            "deepseek-coder-bdi"@,
            "DeepSeek Coder Agent"@,
            "1.0.0"@,
            "Autonomous coding agent powered by DeepSeek. Generates and reviews code dynamically."@,
            "NetGene Community"@,
            seq!["code-gen"@, "review"@],
        ),
        r@[1].0@ == "sentinel-guard.json"@,
        manifest_is(
            r@[1].1,
            "sentinel-guard-v2"@,
            "Sentinel Guard"@,
            "2.1.0"@,
            "Zero-Trust network observer. Detects anomalies using Z-Score algorithms and heals routes."@,
            "CyberSec Org"@,
            seq!["anomaly-detection"@, "self-healing"@],
        ),
        r@[2].0@ == "swarm-coordinator.json"@,
        manifest_is(
            r@[2].1,
            "swarm-coordinator"@,
            "Swarm Hive-Mind Coordinator"@,
            "1.0.0"@,
            "Orquestra a inteligência distribuída entre nós locais, unificando as métricas federadas."@,
            "NetGene Core Team"@,
            seq!["federated-learning"@, "sync"@],
        ),
        r@[3].0@ == "crypto-trader-bot.json"@,
        manifest_is(
            r@[3].1,
            "crypto-trader-bot"@,
            "Quantum Arbitrage Trader"@,
            "0.5.0-beta"@,
            "Utiliza SQA e QAOA para encontrar rotas de arbitragem em micro-segundos através do Mesh."@,
            "DeFi NetGene"@,
            seq!["defi"@, "qaoa-arbitrage"@],
        ),
{
    let mut r: Vec<(String, AgentManifest)> = Vec::new();
    r.push((
        "deepseek-coder.json".to_string(),
        manifest(
            "deepseek-coder-bdi",
            "DeepSeek Coder Agent",
            "1.0.0",
            "Autonomous coding agent powered by DeepSeek. Generates and reviews code dynamically.",
            "NetGene Community",
            "code-gen",
            "review",
        ),
    ));
    r.push((
        "sentinel-guard.json".to_string(),
        manifest(
            "sentinel-guard-v2",
            "Sentinel Guard",
            "2.1.0",
            "Zero-Trust network observer. Detects anomalies using Z-Score algorithms and heals routes.",
            "CyberSec Org",
            "anomaly-detection",
            "self-healing",
        ),
    ));
    r.push((
        "swarm-coordinator.json".to_string(),
        manifest(
            "swarm-coordinator",
            "Swarm Hive-Mind Coordinator",
            "1.0.0",
            "Orquestra a inteligência distribuída entre nós locais, unificando as métricas federadas.",
            "NetGene Core Team",
            "federated-learning",
            "sync",
        ),
    ));
    r.push((
        "crypto-trader-bot.json".to_string(),
        manifest(
            "crypto-trader-bot",
            "Quantum Arbitrage Trader",
            "0.5.0-beta",
            "Utiliza SQA e QAOA para encontrar rotas de arbitragem em micro-segundos através do Mesh.",
            "DeFi NetGene",
            "defi",
            "qaoa-arbitrage",
        ),
    ));
    r
}

/// The file a published manifest is written to: its ID and `.json`.
pub fn manifest_file_name(id: &str) -> (r: String)
    ensures
        r@ == id@ + ".json"@,
{
    let mut v: Vec<char> = Vec::new();
    push_str(&mut v, id);
    push_str(&mut v, ".json");
    string_from_chars(v.as_slice())
}

impl Marketplace {
    pub closed spec fn path(&self) -> Seq<char> {
        self.registry_path@
    }

    /// The marketplace kept in `registry_path`.
    pub fn with_registry(registry_path: String) -> (m: Self)
        ensures
            m.path() == registry_path@,
    {
        Marketplace { registry_path }
    }

    /// The registry directory.
    pub fn registry_path(&self) -> (r: &str)
        ensures
            r@ == self.path(),
    {
        self.registry_path.as_str()
    }

    /// Install the agent `agent_id` from the agents the registry lists: the
    /// first listed manifest with that ID.
    pub fn install_agent(&self, agent_id: &str, available: Vec<AgentManifest>) -> (r: Result<AgentManifest, MarketplaceError>)
        ensures
            match first_with_id(available@, agent_id@, 0) {
                Some(i) => r == Ok::<AgentManifest, MarketplaceError>(available@[i]),
                None => r matches Err(MarketplaceError::NotFound { id }) && id@ == agent_id@,
            },
    {
        let mut list = available;
        let ghost all = list@;
        let n = list.len();
        let mut i: usize = 0;
        while i < n
            invariant
                n == list@.len(),
                list@ == all,
                all == available@,
                i <= n,
                first_with_id(all, agent_id@, 0) == first_with_id(all, agent_id@, i as int),
            decreases n - i,
        {
            if str_eq(list[i].id.as_str(), agent_id) {
                assert(first_with_id(all, agent_id@, i as int) == Some(i as int));
                let m = list.swap_remove(i);
                assert(m == all[i as int]);
                return Ok(m);
            }
            i = i + 1;
        }
        Err(MarketplaceError::NotFound { id: agent_id.to_string() })
    }
}

} // verus!
