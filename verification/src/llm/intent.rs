//! The intent an LLM reply carries, and the rule-based reading of a
//! command used when no reply can be had.

use vstd::prelude::*;
use crate::json::{JsonField, JsonNumber, JsonValue, empty_object, field, lookup_from, str_field};
use crate::llm::client::OllamaClient;
use crate::text::{
    contains_str, decimal, first_u32, first_u32_in, has_sub, lowercase_of, push_decimal, push_str,
    str_chars, string_from_chars, to_lowercase,
};

verus! {

/// A structured intent: an action name, its parameters and why.
#[derive(Debug)]
pub struct LlmParsedIntent {
    pub action: String,
    pub parameters: JsonValue,
    pub explanation: String,
}

/// Turns commands into intents, by the model or by rules.
#[derive(Clone)]
pub struct LlmIntentEngine {
    client: OllamaClient,
}

/// The first whitespace-separated word of `s` that parses as a `u32`.
pub fn extract_number(s: &str) -> (r: Option<u32>)
    ensures
        r == first_u32(s@),
{
    let cs = str_chars(s);
    first_u32_in(cs.as_slice())
}

/// Index of the first `c` in `s`.
pub open spec fn first_index(s: Seq<char>, c: char) -> Option<int> {
    if exists|i: int| 0 <= i < s.len() && s[i] == c {
        Some(choose|i: int| 0 <= i < s.len() && s[i] == c && forall|j: int| 0 <= j < i ==> s[j] != c)
    } else {
        None
    }
}

/// Index of the last `c` in `s`.
pub open spec fn last_index(s: Seq<char>, c: char) -> Option<int> {
    if exists|i: int| 0 <= i < s.len() && s[i] == c {
        Some(choose|i: int| 0 <= i < s.len() && s[i] == c && forall|j: int| i < j < s.len() ==> s[j] != c)
    } else {
        None
    }
}

/// The text between the first `{` and the last `}`, both included; the
/// whole text when either is missing. An empty result when the last `}`
/// stands just before the first `{`.
pub open spec fn json_span(raw: Seq<char>) -> Seq<char> {
    match (first_index(raw, '{'), last_index(raw, '}')) {
        (Some(a), Some(b)) => raw.subrange(a, b + 1),
        _ => raw,
    }
}

/// Slicing from the first `{` through the last `}` is possible: either is
/// missing, or the last `}` comes no earlier than just before the first `{`.
pub open spec fn json_span_defined(raw: Seq<char>) -> bool {
    match (first_index(raw, '{'), last_index(raw, '}')) {
        (Some(a), Some(b)) => a <= b + 1,
        _ => true,
    }
}

fn find_first(s: &[char], c: char) -> (r: Option<usize>)
    ensures
        match r {
            Some(i) => first_index(s@, c) == Some(i as int) && i < s@.len() && s@[i as int] == c,
            None => first_index(s@, c) is None,
        },
{
    let n = s.len();
    let mut i: usize = 0;
    while i < n
        invariant
            n == s@.len(),
            i <= n,
            forall|j: int| 0 <= j < i ==> s@[j] != c,
        decreases n - i,
    {
        if s[i] == c {
            let ghost w = choose|k: int| 0 <= k < s@.len() && s@[k] == c && forall|j: int|
                0 <= j < k ==> s@[j] != c;
            assert(0 <= i < s@.len() && s@[i as int] == c && forall|j: int|
                0 <= j < i ==> s@[j] != c);
            assert(w == i) by {
                if w < i {
                    assert(s@[w] != c);
                } else if w > i {
                    assert(s@[i as int] != c);
                }
            }
            return Some(i);
        }
        i = i + 1;
    }
    None
}

fn find_last(s: &[char], c: char) -> (r: Option<usize>)
    ensures
        match r {
            Some(i) => last_index(s@, c) == Some(i as int) && i < s@.len() && s@[i as int] == c,
            None => last_index(s@, c) is None,
        },
{
    let n = s.len();
    let mut k: usize = n;
    while k > 0
        invariant
            n == s@.len(),
            k <= n,
            forall|j: int| k <= j < n ==> s@[j] != c,
        decreases k,
    {
        let i = k - 1;
        if s[i] == c {
            let ghost w = choose|m: int| 0 <= m < s@.len() && s@[m] == c && forall|j: int|
                m < j < s@.len() ==> s@[j] != c;
            assert(0 <= i < s@.len() && s@[i as int] == c && forall|j: int|
                i < j < s@.len() ==> s@[j] != c);
            assert(w == i) by {
                if w < i {
                    assert(s@[i as int] != c);
                } else if w > i {
                    assert(s@[w] != c);
                }
            }
            return Some(i);
        }
        k = i;
    }
    None
}

/// Whether `extract_json` can slice `raw` (see `json_span_defined`).
pub fn json_span_is_defined(raw: &str) -> (r: bool)
    ensures
        r == json_span_defined(raw@),
{
    let cs = str_chars(raw);
    match (find_first(cs.as_slice(), '{'), find_last(cs.as_slice(), '}')) {
        (Some(a), Some(b)) => a <= b + 1,
        _ => true,
    }
}

/// The JSON object embedded in a model reply: from the first `{` through
/// the last `}`, or the whole reply when either is missing.
pub fn extract_json(raw: &str) -> (r: String)
    requires
        json_span_defined(raw@),
    ensures
        r@ == json_span(raw@),
{
    let cs = str_chars(raw);
    let first = find_first(cs.as_slice(), '{');
    let last = find_last(cs.as_slice(), '}');
    if let Some(a) = first {
        if let Some(b) = last {
            assert(a <= b + 1);
            return string_from_chars(copy_range(cs.as_slice(), a, b + 1).as_slice());
        }
    }
    string_from_chars(cs.as_slice())
}

/// The characters `s[from..to]`.
pub fn copy_range(s: &[char], from: usize, to: usize) -> (r: Vec<char>)
    requires
        from <= to <= s@.len(),
    ensures
        r@ == s@.subrange(from as int, to as int),
{
    let mut out: Vec<char> = Vec::new();
    let mut k = from;
    while k < to
        invariant
            from <= k <= to <= s@.len(),
            out@ == s@.subrange(from as int, k as int),
        decreases to - k,
    {
        out.push(s[k]);
        assert(s@.subrange(from as int, k + 1) =~= s@.subrange(from as int, k as int).push(
            s@[k as int],
        ));
        k = k + 1;
    }
    out
}

/// The node template a provisioning command names.
pub open spec fn template_for(l: Seq<char>) -> Seq<char> {
    if has_sub(l, "quantum"@) {
        "quantum"@
    } else if has_sub(l, "core"@) {
        "core"@
    } else if has_sub(l, "gateway"@) {
        "gateway"@
    } else {
        "edge"@
    }
}

pub open spec fn provision_words(l: Seq<char>) -> bool {
    has_sub(l, "spawn"@) || has_sub(l, "create"@) || has_sub(l, "provision"@)
}

pub open spec fn optimize_words(l: Seq<char>) -> bool {
    has_sub(l, "optimize"@) || has_sub(l, "route"@) || has_sub(l, "quantum"@)
}

pub open spec fn scan_words(l: Seq<char>) -> bool {
    has_sub(l, "scan"@) || has_sub(l, "safeguard"@) || has_sub(l, "heal"@)
}

pub open spec fn string_value_is(v: JsonValue, s: Seq<char>) -> bool {
    v matches JsonValue::Str(t) && t@ == s
}

/// The rule-based intent of the lowercased command `l`.
pub open spec fn fallback_intent_for(l: Seq<char>, i: LlmParsedIntent) -> bool {
    if provision_words(l) {
        let count = match first_u32(l) {
            Some(n) => n,
            None => 1u32,
        };
        &&& i.action@ == "provision_nodes"@
        &&& i.parameters matches JsonValue::Object(fs) && fs@.len() == 2
        &&& i.parameters.member("count"@) == Some(JsonValue::Number(JsonNumber::PosInt(count as u64)))
        &&& i.parameters matches JsonValue::Object(fs) && fs@[0].key@ == "count"@ && fs@[0].value
            == JsonValue::Number(JsonNumber::PosInt(count as u64)) && fs@[1].key@ == "template"@
            && string_value_is(fs@[1].value, template_for(l))
        &&& i.explanation@ == "Fallback: provision "@ + decimal(count as nat) + " "@ + template_for(l)
            + " node(s)"@
    } else if optimize_words(l) {
        let nodes = match first_u32(l) {
            Some(n) => n,
            None => 8u32,
        };
        &&& i.action@ == "optimize_network"@
        &&& i.parameters matches JsonValue::Object(fs) && fs@.len() == 1 && fs@[0].key@ == "nodes"@
            && fs@[0].value == JsonValue::Number(JsonNumber::PosInt(nodes as u64))
        &&& i.explanation@ == "Fallback: optimize routing for network of "@ + decimal(nodes as nat)
            + " nodes"@
    } else if scan_words(l) {
        &&& i.action@ == "trigger_anomaly_scan"@
        &&& i.parameters matches JsonValue::Object(fs) && fs@.len() == 0
        &&& i.explanation@ == "Fallback: run safeguard anomaly scan"@
    } else {
        &&& i.action@ == "system_status"@
        &&& i.parameters matches JsonValue::Object(fs) && fs@.len() == 0
        &&& i.explanation@ == "Fallback: query system status"@
    }
}

impl LlmIntentEngine {
    pub closed spec fn client_settings(&self) -> OllamaClient {
        self.client
    }

    pub fn new(client: OllamaClient) -> (e: Self)
        ensures
            e.client_settings() == client,
    {
        LlmIntentEngine { client }
    }

    pub fn client(&self) -> (c: &OllamaClient)
        ensures
            *c == self.client_settings(),
    {
        &self.client
    }

    /// The intent of `input`: the model's reading where one was had and
    /// parsed (`parsed`), else the rule-based one.
    pub fn parse_reply(&self, input: &str, parsed: Option<LlmParsedIntent>) -> (i: LlmParsedIntent)
        ensures
            match parsed {
                Some(p) => i == p,
                None => fallback_intent_for(lowercase_of(input@), i),
            },
    {
        match parsed {
            Some(p) => p,
            None => self.fallback_parse(input),
        }
    }

    /// The rule-based intent of `input`, read in lowercase.
    pub fn fallback_parse(&self, input: &str) -> (i: LlmParsedIntent)
        ensures
            fallback_intent_for(lowercase_of(input@), i),
    {
        let lower = to_lowercase(input);
        fallback_parse_lowered(lower.as_str())
    }
}

/// The rule-based intent of the lowercased command `lower`.
pub fn fallback_parse_lowered(lower: &str) -> (i: LlmParsedIntent)
    ensures
        fallback_intent_for(lower@, i),
{
    let l = str_chars(lower);
    let l = l.as_slice();
    if contains_str(l, "spawn") || contains_str(l, "create") || contains_str(l, "provision") {
        let count = match first_u32_in(l) {
            Some(n) => n,
            None => 1,
        };
        let template = if contains_str(l, "quantum") {
            "quantum"
        } else if contains_str(l, "core") {
            "core"
        } else if contains_str(l, "gateway") {
            "gateway"
        } else {
            "edge"
        };
        let mut fields: Vec<JsonField> = Vec::new();
        fields.push(field("count", JsonValue::Number(JsonNumber::PosInt(count as u64))));
        fields.push(str_field("template", template.to_string()));
        let mut e: Vec<char> = Vec::new();
        push_str(&mut e, "Fallback: provision ");
        push_decimal(&mut e, count as u64);
        push_str(&mut e, " ");
        push_str(&mut e, template);
        push_str(&mut e, " node(s)");
        let params = JsonValue::Object(fields);
        proof {
            assert(crate::json::lookup_from(
                match params {
                    JsonValue::Object(fs) => fs@,
                    _ => Seq::empty(),
                },
                "count"@,
                0,
            ) == Some(JsonValue::Number(JsonNumber::PosInt(count as u64))));
        }
        LlmParsedIntent {
            action: "provision_nodes".to_string(),
            parameters: params,
            explanation: string_from_chars(e.as_slice()),
        }
    } else if contains_str(l, "optimize") || contains_str(l, "route") || contains_str(l, "quantum") {
        let nodes = match first_u32_in(l) {
            Some(n) => n,
            None => 8,
        };
        let mut fields: Vec<JsonField> = Vec::new();
        fields.push(field("nodes", JsonValue::Number(JsonNumber::PosInt(nodes as u64))));
        let mut e: Vec<char> = Vec::new();
        push_str(&mut e, "Fallback: optimize routing for network of ");
        push_decimal(&mut e, nodes as u64);
        push_str(&mut e, " nodes");
        LlmParsedIntent {
            action: "optimize_network".to_string(),
            parameters: JsonValue::Object(fields),
            explanation: string_from_chars(e.as_slice()),
        }
    } else if contains_str(l, "scan") || contains_str(l, "safeguard") || contains_str(l, "heal") {
        LlmParsedIntent {
            action: "trigger_anomaly_scan".to_string(),
            parameters: empty_object(),
            explanation: "Fallback: run safeguard anomaly scan".to_string(),
        }
    } else {
        LlmParsedIntent {
            action: "system_status".to_string(),
            parameters: empty_object(),
            explanation: "Fallback: query system status".to_string(),
        }
    }
}

/// What each word of a command selects when the model is not asked: a
/// provisioning word (`spawn`, `create`, `provision`) provisions nodes, as
/// many as the first number says (one otherwise), of the template the
/// command names first among `quantum`, `core`, `gateway` (`edge`
/// otherwise); otherwise an optimization word (`optimize`, `route`,
/// `quantum`) optimizes the network, of as many nodes as the first number
/// says (eight otherwise); otherwise a scan word (`scan`, `safeguard`,
/// `heal`) runs an anomaly scan; any other command asks for the status.
pub proof fn lemma_fallback_words(l: Seq<char>, i: LlmParsedIntent)
    requires
        fallback_intent_for(l, i),
    ensures
        has_sub(l, "spawn"@) || has_sub(l, "create"@) || has_sub(l, "provision"@) ==> {
            &&& i.action@ == "provision_nodes"@
            &&& i.parameters.member("count"@) == Some(
                JsonValue::Number(
                    JsonNumber::PosInt(
                        match first_u32(l) {
                            Some(n) => n as u64,
                            None => 1u64,
                        },
                    ),
                ),
            )
            &&& i.parameters matches JsonValue::Object(fs) && fs@[1].key@ == "template"@ && string_value_is(
                fs@[1].value,
                if has_sub(l, "quantum"@) {
                    "quantum"@
                } else if has_sub(l, "core"@) {
                    "core"@
                } else if has_sub(l, "gateway"@) {
                    "gateway"@
                } else {
                    "edge"@
                },
            )
        },
        !has_sub(l, "spawn"@) && !has_sub(l, "create"@) && !has_sub(l, "provision"@) && (has_sub(
            l,
            "optimize"@,
        ) || has_sub(l, "route"@) || has_sub(l, "quantum"@)) ==> {
            &&& i.action@ == "optimize_network"@
            &&& i.parameters.member("nodes"@) == Some(
                JsonValue::Number(
                    JsonNumber::PosInt(
                        match first_u32(l) {
                            Some(n) => n as u64,
                            None => 8u64,
                        },
                    ),
                ),
            )
        },
        !has_sub(l, "spawn"@) && !has_sub(l, "create"@) && !has_sub(l, "provision"@) && !has_sub(
            l,
            "optimize"@,
        ) && !has_sub(l, "route"@) && !has_sub(l, "quantum"@) && (has_sub(l, "scan"@) || has_sub(
            l,
            "safeguard"@,
        ) || has_sub(l, "heal"@)) ==> i.action@ == "trigger_anomaly_scan"@,
        !has_sub(l, "spawn"@) && !has_sub(l, "create"@) && !has_sub(l, "provision"@) && !has_sub(
            l,
            "optimize"@,
        ) && !has_sub(l, "route"@) && !has_sub(l, "quantum"@) && !has_sub(l, "scan"@) && !has_sub(
            l,
            "safeguard"@,
        ) && !has_sub(l, "heal"@) ==> i.action@ == "system_status"@,
{
    if !provision_words(l) && optimize_words(l) {
        if let JsonValue::Object(fs) = i.parameters {
            assert(lookup_from(fs@, "nodes"@, 0) == Some(fs@[0].value));
        }
    }
}

} // verus!
