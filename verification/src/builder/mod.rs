//! The builder engine: intent-based node provisioning.

use vstd::prelude::*;
use crate::ids::{Stamp, Timestamp, fresh_stamp, push_uuid, uuid_text};
use crate::json::{JsonField, JsonNumber, JsonValue, field};
use crate::text::{
    contains_str, decimal, first_u32, first_u32_in, has_sub, lowercase_of, push_decimal, push_str,
    str_chars, str_eq, string_from_chars, to_lowercase,
};

verus! {

/// Node template type.
#[derive(Debug, Clone)]
pub enum NodeTemplate {
    Edge,
    Core,
    Gateway,
    Quantum,
    Custom(String),
}

pub open spec fn template_text(t: NodeTemplate) -> Seq<char> {
    match t {
        NodeTemplate::Edge => "edge"@,
        NodeTemplate::Core => "core"@,
        NodeTemplate::Gateway => "gateway"@,
        NodeTemplate::Quantum => "quantum"@,
        NodeTemplate::Custom(s) => "custom:"@ + s@,
    }
}

impl NodeTemplate {
    fn push_text(&self, out: &mut Vec<char>)
        ensures
            final(out)@ == old(out)@ + template_text(*self),
    {
        match self {
            NodeTemplate::Edge => push_str(out, "edge"),
            NodeTemplate::Core => push_str(out, "core"),
            NodeTemplate::Gateway => push_str(out, "gateway"),
            NodeTemplate::Quantum => push_str(out, "quantum"),
            NodeTemplate::Custom(s) => {
                push_str(out, "custom:");
                push_str(out, s.as_str());
                assert(old(out)@ + "custom:"@ + s@ =~= old(out)@ + ("custom:"@ + s@));
            },
        }
    }

    /// The display text: `edge`, `core`, `gateway`, `quantum` or `custom:<label>`.
    pub fn to_text(&self) -> (r: String)
        ensures
            r@ == template_text(*self),
    {
        let mut v: Vec<char> = Vec::new();
        self.push_text(&mut v);
        assert(v@ =~= template_text(*self));
        string_from_chars(v.as_slice())
    }

    /// A copy of the template.
    pub fn copy(&self) -> (r: NodeTemplate)
        ensures
            r == *self,
    {
        match self {
            NodeTemplate::Edge => NodeTemplate::Edge,
            NodeTemplate::Core => NodeTemplate::Core,
            NodeTemplate::Gateway => NodeTemplate::Gateway,
            NodeTemplate::Quantum => NodeTemplate::Quantum,
            NodeTemplate::Custom(s) => NodeTemplate::Custom(s.clone()),
        }
    }

    /// The template a command line names: `core`, `gateway`, `quantum`,
    /// anything else `edge`.
    pub fn from_cli_name(name: &str) -> (r: NodeTemplate)
        ensures
            r == if name@ == "core"@ {
                NodeTemplate::Core
            } else if name@ == "gateway"@ {
                NodeTemplate::Gateway
            } else if name@ == "quantum"@ {
                NodeTemplate::Quantum
            } else {
                NodeTemplate::Edge
            },
    {
        if str_eq(name, "core") {
            NodeTemplate::Core
        } else if str_eq(name, "gateway") {
            NodeTemplate::Gateway
        } else if str_eq(name, "quantum") {
            NodeTemplate::Quantum
        } else {
            NodeTemplate::Edge
        }
    }
}

/// A provisioned node.
#[derive(Debug)]
pub struct ProvisionedNode {
    pub id: String,
    pub template: NodeTemplate,
    pub ip: String,
    pub port: u16,
    pub provisioned_at: Timestamp,
    pub status: String,
    pub config: JsonValue,
}

/// The builder engine and the nodes it has provisioned.
pub struct BuilderEngine {
    pub nodes: Vec<ProvisionedNode>,
}

/// Why an intent could not be carried out.
#[derive(Debug, Clone, Copy, PartialEq, Eq)]
pub enum BuilderError {
    /// A node would get a port number above 65535.
    PortRangeExhausted,
    /// The random source or the clock failed.
    Unavailable,
}

/// The configuration of the `seq`-th node: zero-trust, mutual TLS and
/// auto-scaling on, and its sequence number (fields in key order).
pub open spec fn config_is(c: JsonValue, seq: nat) -> bool {
    c matches JsonValue::Object(fs) && fs@.len() == 4 && fs@[0].key@ == "auto_scale"@ && fs@[0].value
        == JsonValue::Bool(true) && fs@[1].key@ == "mtls"@ && fs@[1].value == JsonValue::Bool(true)
        && fs@[2].key@ == "sequence"@ && fs@[2].value == JsonValue::Number(JsonNumber::PosInt(seq as u64))
        && fs@[3].key@ == "zero_trust"@ && fs@[3].value == JsonValue::Bool(true)
}

/// The address of the node provisioned when `len` nodes exist.
pub open spec fn node_ip(len: nat) -> Seq<char> {
    "10.42."@ + decimal((len / 256) % 256) + "."@ + decimal(len % 256)
}

/// `n` is the node made from template `t` when `len` nodes existed, with
/// sequence number `seq`: its ID is the template's name, a dash and the
/// first eight hex digits of a random UUID.
pub open spec fn node_made(n: ProvisionedNode, t: NodeTemplate, len: nat, seq: nat) -> bool {
    &&& exists|u: u128| n.id@ == template_text(t) + "-"@ + #[trigger] uuid_text(u).take(8)
    &&& n.template == t
    &&& n.ip@ == node_ip(len)
    &&& n.port == 7000 + len % 65536
    &&& n.status@ == "running"@
    &&& config_is(n.config, seq)
}

/// Every node provisioned from `len` existing nodes on, `count` of them,
/// gets a port number that fits in `u16`, and a sequence number that fits
/// in `usize`.
pub open spec fn ports_available(len: nat, count: nat) -> bool {
    &&& forall|k: nat| k < count ==> #[trigger] ((len + k) % 65536) <= 58535
    &&& len + 2 * count <= usize::MAX
}

/// `n`, from template `t`, carries the ID and instant of `stamp`.
pub open spec fn stamped_node(n: ProvisionedNode, t: NodeTemplate, stamp: Stamp) -> bool {
    &&& n.id@ == template_text(t) + "-"@ + uuid_text(stamp.id).take(8)
    &&& n.provisioned_at == stamp.at
}

/// `b` is `a` with `count` nodes from template `t` provisioned after its
/// own, handed back as `r`.
pub open spec fn provisioned(a: BuilderEngine, b: BuilderEngine, t: NodeTemplate, count: nat, r: Seq<ProvisionedNode>) -> bool {
    &&& b.nodes@.len() == a.nodes@.len() + count
    &&& b.nodes@.take(a.nodes@.len() as int) == a.nodes@
    &&& r.len() == count
    &&& forall|k: int|
        0 <= k < count ==> {
            &&& node_made(#[trigger] r[k], t, (a.nodes@.len() + k) as nat, (a.nodes@.len() + 2 * k) as nat)
            &&& node_made(b.nodes@[a.nodes@.len() + k], t, (a.nodes@.len() + k) as nat, (a.nodes@.len() + 2 * k) as nat)
            &&& r[k].id == b.nodes@[a.nodes@.len() + k].id
        }
}

fn node_config(seq: u64) -> (c: JsonValue)
    ensures
        config_is(c, seq as nat),
{
    let mut fs: Vec<JsonField> = Vec::new();
    fs.push(field("auto_scale", JsonValue::Bool(true)));
    fs.push(field("mtls", JsonValue::Bool(true)));
    fs.push(field("sequence", JsonValue::Number(JsonNumber::PosInt(seq))));
    fs.push(field("zero_trust", JsonValue::Bool(true)));
    JsonValue::Object(fs)
}

impl BuilderEngine {
    pub fn new() -> (e: Self)
        ensures
            e.nodes@.len() == 0,
    {
        BuilderEngine { nodes: Vec::new() }
    }

    /// Provision the node that follows `i` earlier ones of this call: it is
    /// recorded and a copy is returned.
    pub fn provision_node(&mut self, template: &NodeTemplate, i: u32, stamp: Stamp) -> (r: ProvisionedNode)
        requires
            old(self).nodes@.len() % 65536 <= 58535,
            old(self).nodes@.len() + i <= usize::MAX,
        ensures
            final(self).nodes@.len() == old(self).nodes@.len() + 1,
            final(self).nodes@.take(old(self).nodes@.len() as int) == old(self).nodes@,
            node_made(final(self).nodes@.last(), *template, old(self).nodes@.len(), (old(self).nodes@.len() + i) as nat),
            node_made(r, *template, old(self).nodes@.len(), (old(self).nodes@.len() + i) as nat),
            r.id == final(self).nodes@.last().id,
            stamped_node(r, *template, stamp),
            stamped_node(final(self).nodes@.last(), *template, stamp),
    {
        let len = self.nodes.len();
        let u = stamp.id;
        let mut idv: Vec<char> = Vec::new();
        template.push_text(&mut idv);
        push_str(&mut idv, "-");
        let mut uv: Vec<char> = Vec::new();
        push_uuid(&mut uv, u);
        proof {
            crate::ids::lemma_uuid_text_len(u);
        }
        let k: usize = 0;
        let mut j: usize = 0;
        while j < 8
            invariant
                uv@ == uuid_text(u),
                uv@.len() == 36,
                j <= 8,
                idv@ == template_text(*template) + "-"@ + uv@.take(j as int),
            decreases 8 - j,
        {
            idv.push(uv[j]);
            assert(uv@.take(j + 1) =~= uv@.take(j as int).push(uv@[j as int]));
            assert(idv@ =~= template_text(*template) + "-"@ + uv@.take(j + 1));
            j = j + 1;
        }
        let id = string_from_chars(idv.as_slice());
        let mut ipv: Vec<char> = Vec::new();
        push_str(&mut ipv, "10.42.");
        push_decimal(&mut ipv, ((len / 256) % 256) as u64);
        push_str(&mut ipv, ".");
        push_decimal(&mut ipv, (len % 256) as u64);
        let ip = string_from_chars(ipv.as_slice());
        let port: u16 = 7000 + ((len % 65536) as u16);
        let at = stamp.at;
        let seq: usize = len + i as usize;
        let stored = ProvisionedNode {
            id: id.clone(),
            template: template.copy(),
            ip: ip.clone(),
            port,
            provisioned_at: at,
            status: "running".to_string(),
            config: node_config(seq as u64),
        };
        let node = ProvisionedNode {
            id,
            template: template.copy(),
            ip,
            port,
            provisioned_at: at,
            status: "running".to_string(),
            config: node_config(seq as u64),
        };
        let ghost before = self.nodes@;
        self.nodes.push(stored);
        assert(self.nodes@.take(before.len() as int) =~= before);
        node
    }

    /// Provision `count` nodes from `template`, each under a fresh random
    /// ID, provisioned now. `Err(Unavailable)`, with nothing provisioned,
    /// where the random source or the clock fails.
    pub fn provision(&mut self, template: NodeTemplate, count: u32) -> (r: Result<Vec<ProvisionedNode>, BuilderError>)
        requires
            ports_available(old(self).nodes@.len(), count as nat),
        ensures
            match r {
                Ok(nodes) => provisioned(*old(self), *final(self), template, count as nat, nodes@),
                Err(e) => e == BuilderError::Unavailable && final(self).nodes@ == old(self).nodes@,
            },
    {
        let mut stamps: Vec<Stamp> = Vec::new();
        let mut i: u32 = 0;
        while i < count
            invariant
                i <= count,
                stamps@.len() == i,
            decreases count - i,
        {
            match fresh_stamp() {
                Some(s) => stamps.push(s),
                None => return Err(BuilderError::Unavailable),
            }
            i = i + 1;
        }
        Ok(self.provision_with(template, &stamps))
    }

    /// Provision one node from `template` for each stamp, under its ID and
    /// at its instant.
    pub fn provision_with(&mut self, template: NodeTemplate, stamps: &Vec<Stamp>) -> (r: Vec<ProvisionedNode>)
        requires
            stamps@.len() <= u32::MAX,
            ports_available(old(self).nodes@.len(), stamps@.len()),
        ensures
            provisioned(*old(self), *final(self), template, stamps@.len(), r@),
            forall|k: int| 0 <= k < stamps@.len() ==> stamped_node(#[trigger] r@[k], template, stamps@[k]),
    {
        let count = stamps.len() as u32;
        let ghost start = self.nodes@;
        let mut out: Vec<ProvisionedNode> = Vec::new();
        let mut i: u32 = 0;
        while i < count
            invariant
                i <= count,
                ports_available(start.len(), count as nat),
                self.nodes@.len() == start.len() + i,
                self.nodes@.take(start.len() as int) == start,
                out@.len() == i,
                forall|k: int|
                    0 <= k < i ==> {
                        &&& node_made(#[trigger] out@[k], template, (start.len() + k) as nat, (start.len() + 2 * k) as nat)
                        &&& node_made(self.nodes@[start.len() + k], template, (start.len() + k) as nat, (start.len() + 2 * k) as nat)
                        &&& out@[k].id == self.nodes@[start.len() + k].id
                        &&& stamped_node(out@[k], template, stamps@[k])
                    },
                count == stamps@.len(),
            decreases count - i,
        {
            assert(((start.len() + i as nat) % 65536) <= 58535);
            assert(start.len() + i + i <= usize::MAX);
            let ghost before = self.nodes@;
            let node = self.provision_node(&template, i, stamps[i as usize]);
            out.push(node);
            assert forall|j: int| 0 <= j < before.len() implies #[trigger] self.nodes@[j] == before[j] by {
                assert(self.nodes@.take(before.len() as int)[j] == self.nodes@[j]);
            }
            assert(self.nodes@.take(start.len() as int) =~= start) by {
                assert forall|k: int| 0 <= k < start.len() implies self.nodes@[k] == start[k] by {
                    assert(self.nodes@.take(before.len() as int)[k] == self.nodes@[k]);
                    assert(before.take(start.len() as int)[k] == before[k]);
                }
            }
            i = i + 1;
        }
        out
    }

    /// All provisioned nodes.
    pub fn list(&self) -> (r: &[ProvisionedNode])
        ensures
            r@ == self.nodes@,
    {
        self.nodes.as_slice()
    }

    /// Carry out a natural-language build intent, read in lowercase.
    pub fn from_intent(&mut self, intent: &str) -> (r: Result<String, BuilderError>)
        ensures
            ports_available(old(self).nodes@.len(), requested_count(lowercase_of(intent@)) as nat)
                ==> (r is Ok && intent_carried_out(*old(self), *final(self), lowercase_of(intent@), r)) || (r
                == Err::<String, BuilderError>(BuilderError::Unavailable) && final(self).nodes@ == old(self).nodes@),
            !ports_available(old(self).nodes@.len(), requested_count(lowercase_of(intent@)) as nat)
                ==> r == Err::<String, BuilderError>(BuilderError::PortRangeExhausted) && final(self).nodes@ == old(self).nodes@,
    {
        let lower = to_lowercase(intent);
        let cs = str_chars(lower.as_str());
        let count = match first_u32_in(cs.as_slice()) {
            Some(n) => n,
            None => 1,
        };
        if !ports_fit(self.nodes.len(), count) {
            return Err(BuilderError::PortRangeExhausted);
        }
        self.from_intent_lowered(lower.as_str())
    }

    /// Carry out a lowercased build intent: the template is the first of
    /// quantum, gateway, core that the text names (edge otherwise), the count
    /// the first number in it (one otherwise).
    /// `Err(Unavailable)`, with nothing provisioned, where the random source
    /// or the clock fails.
    pub fn from_intent_lowered(&mut self, lower: &str) -> (r: Result<String, BuilderError>)
        requires
            ports_available(old(self).nodes@.len(), requested_count(lower@) as nat),
        ensures
            r is Ok ==> intent_carried_out(*old(self), *final(self), lower@, r),
            r is Err ==> r == Err::<String, BuilderError>(BuilderError::Unavailable) && final(self).nodes@
                == old(self).nodes@,
    {
        let cs = str_chars(lower);
        let l = cs.as_slice();
        let template = if contains_str(l, "quantum") {
            NodeTemplate::Quantum
        } else if contains_str(l, "gateway") {
            NodeTemplate::Gateway
        } else if contains_str(l, "core") {
            NodeTemplate::Core
        } else {
            NodeTemplate::Edge
        };
        let count = match first_u32_in(l) {
            Some(n) => n,
            None => 1,
        };
        assert(template == requested_template(lower@));
        assert(count == requested_count(lower@));
        let ghost before = self.nodes@;
        let nodes = match self.provision(template, count) {
            Ok(n) => n,
            Err(e) => return Err(e),
        };
        proof {
            lemma_made_ids(before, self.nodes@, nodes@);
        }
        let r = provision_report(&nodes);
        assert(self.nodes@.len() == before.len() + count);
        assert(self.nodes@.take(before.len() as int) == before);
        assert forall|k: int|
            0 <= k < count implies node_made(#[trigger] self.nodes@[before.len() + k], template, (before.len() + k) as nat, (before.len() + 2 * k) as nat) by {
            assert(node_made(nodes@[k], template, (before.len() + k) as nat, (before.len() + 2 * k) as nat));
        }
        assert(r@ == "\u{2705} Provisioned "@ + decimal(count as nat) + " node(s): "@
        + joined_ids(self.nodes@.subrange(before.len() as int, self.nodes@.len() as int)));
        Ok(r)
    }
}

/// The report of a provisioning: how many nodes, and their IDs.
fn provision_report(nodes: &Vec<ProvisionedNode>) -> (r: String)
    ensures
        r@ == "\u{2705} Provisioned "@ + decimal(nodes@.len()) + " node(s): "@ + joined_ids(nodes@),
{
    let mut v: Vec<char> = Vec::new();
    push_str(&mut v, "\u{2705} Provisioned ");
    push_decimal(&mut v, nodes.len() as u64);
    push_str(&mut v, " node(s): ");
    let ghost head = v@;
    let n = nodes.len();
    let mut k: usize = 0;
    while k < n
        invariant
            n == nodes@.len(),
            k <= n,
            v@ == head + joined_ids(nodes@.take(k as int)),
        decreases n - k,
    {
        if k > 0 {
            push_str(&mut v, ", ");
        }
        push_str(&mut v, nodes[k].id.as_str());
        assert(nodes@.take(k + 1).drop_last() =~= nodes@.take(k as int));
        k = k + 1;
    }
    assert(nodes@.take(n as int) =~= nodes@);
    string_from_chars(v.as_slice())
}

/// The nodes handed back carry the IDs of those recorded.
proof fn lemma_made_ids(before: Seq<ProvisionedNode>, after: Seq<ProvisionedNode>, made: Seq<ProvisionedNode>)
    requires
        after.len() == before.len() + made.len(),
        forall|k: int| 0 <= k < made.len() ==> #[trigger] made[k].id == after[before.len() + k].id,
    ensures
        joined_ids(made) == joined_ids(after.subrange(before.len() as int, after.len() as int)),
{
    let rest = after.subrange(before.len() as int, after.len() as int);
    assert forall|k: int| 0 <= k < made.len() implies #[trigger] made[k].id == rest[k].id by {
        assert(made[k].id == after[before.len() + k].id);
    }
    lemma_joined_ids_by_id(made, rest);
}

/// Whether `count` nodes can be provisioned after `len` existing ones.
pub fn ports_fit(len: usize, count: u32) -> (r: bool)
    ensures
        r == ports_available(len as nat, count as nat),
{
    if count as usize > (usize::MAX - len) / 2 {
        return false;
    }
    let mut k: u32 = 0;
    while k < count
        invariant
            k <= count,
            len + 2 * count <= usize::MAX,
            ports_available(len as nat, k as nat),
        decreases count - k,
    {
        if (len % 65536 + (k as usize) % 65536) % 65536 > 58535 {
            assert(((len + k) % 65536) > 58535) by (nonlinear_arith)
                requires
                    (len % 65536 + (k as usize) % 65536) % 65536 > 58535;
            assert(!ports_available(len as nat, count as nat)) by {
                assert(k < count);
                assert(((len as nat + k as nat) % 65536) > 58535);
            }
            return false;
        }
        assert(((len + k) % 65536) <= 58535) by (nonlinear_arith)
            requires
                (len % 65536 + (k as usize) % 65536) % 65536 <= 58535;
        k = k + 1;
    }
    true
}

/// The node count an intent asks for: its first number, one otherwise.
pub open spec fn requested_count(lower: Seq<char>) -> u32 {
    match first_u32(lower) {
        Some(n) => n,
        None => 1,
    }
}

/// The template an intent names.
pub open spec fn requested_template(lower: Seq<char>) -> NodeTemplate {
    if has_sub(lower, "quantum"@) {
        NodeTemplate::Quantum
    } else if has_sub(lower, "gateway"@) {
        NodeTemplate::Gateway
    } else if has_sub(lower, "core"@) {
        NodeTemplate::Core
    } else {
        NodeTemplate::Edge
    }
}

/// The IDs of nodes, separated by `, `.
pub open spec fn joined_ids(nodes: Seq<ProvisionedNode>) -> Seq<char>
    decreases nodes.len(),
{
    if nodes.len() == 0 {
        Seq::empty()
    } else if nodes.len() == 1 {
        nodes[0].id@
    } else {
        joined_ids(nodes.drop_last()) + ", "@ + nodes.last().id@
    }
}

/// The joined IDs depend on the IDs alone.
proof fn lemma_joined_ids_by_id(s: Seq<ProvisionedNode>, t: Seq<ProvisionedNode>)
    requires
        s.len() == t.len(),
        forall|k: int| 0 <= k < s.len() ==> #[trigger] s[k].id == t[k].id,
    ensures
        joined_ids(s) == joined_ids(t),
    decreases s.len(),
{
    if s.len() > 1 {
        assert forall|k: int| 0 <= k < s.drop_last().len() implies #[trigger] s.drop_last()[k].id == t.drop_last()[k].id by {
            assert(s[k].id == t[k].id);
        }
        lemma_joined_ids_by_id(s.drop_last(), t.drop_last());
        assert(s.last().id == t[t.len() - 1].id);
    } else if s.len() == 1 {
        assert(s[0].id == t[0].id);
    }
}

/// The engine went from `a` to `b` carrying out the lowercased intent
/// `lower`, and reported `r`.
pub open spec fn intent_carried_out(a: BuilderEngine, b: BuilderEngine, lower: Seq<char>, r: Result<String, BuilderError>) -> bool {
    let count = requested_count(lower);
    let t = requested_template(lower);
    &&& b.nodes@.len() == a.nodes@.len() + count
    &&& b.nodes@.take(a.nodes@.len() as int) == a.nodes@
    &&& forall|k: int|
        0 <= k < count ==> node_made(#[trigger] b.nodes@[a.nodes@.len() + k], t, (a.nodes@.len() + k) as nat, (a.nodes@.len() + 2 * k) as nat)
    &&& r matches Ok(m) && m@ == "\u{2705} Provisioned "@ + decimal(count as nat) + " node(s): "@
        + joined_ids(b.nodes@.subrange(a.nodes@.len() as int, b.nodes@.len() as int))
}

/// What a build intent provisions: as many nodes as the first number in
/// the command says (one where it has none), each appended after the
/// existing ones, running, on port 7000 plus its position, of the template
/// the command names: `quantum` first, then `gateway`, then `core`, else
/// `edge`. Existing nodes are kept.
pub proof fn lemma_build_intent_provisions(a: BuilderEngine, b: BuilderEngine, lower: Seq<char>, r: Result<String, BuilderError>)
    requires
        intent_carried_out(a, b, lower, r),
    ensures
        b.nodes@.len() == a.nodes@.len() + match first_u32(lower) {
            Some(n) => n as nat,
            None => 1nat,
        },
        forall|k: int| 0 <= k < a.nodes@.len() ==> #[trigger] b.nodes@[k] == a.nodes@[k],
        forall|k: int|
            a.nodes@.len() <= k < b.nodes@.len() ==> {
                &&& (#[trigger] b.nodes@[k]).status@ == "running"@
                &&& b.nodes@[k].port == 7000 + k % 65536
                &&& b.nodes@[k].template == if has_sub(lower, "quantum"@) {
                    NodeTemplate::Quantum
                } else if has_sub(lower, "gateway"@) {
                    NodeTemplate::Gateway
                } else if has_sub(lower, "core"@) {
                    NodeTemplate::Core
                } else {
                    NodeTemplate::Edge
                }
            },
        r is Ok,
{
    assert forall|k: int| 0 <= k < a.nodes@.len() implies #[trigger] b.nodes@[k] == a.nodes@[k] by {
        assert(b.nodes@.take(a.nodes@.len() as int)[k] == b.nodes@[k]);
    }
    assert forall|k: int| a.nodes@.len() <= k < b.nodes@.len() implies {
        &&& (#[trigger] b.nodes@[k]).status@ == "running"@
        &&& b.nodes@[k].port == 7000 + k % 65536
        &&& b.nodes@[k].template == requested_template(lower)
    } by {
        let j = k - a.nodes@.len();
        assert(node_made(b.nodes@[a.nodes@.len() + j], requested_template(lower), (a.nodes@.len() + j) as nat, (a.nodes@.len() + 2 * j) as nat));
    }
}

} // verus!
