//! Kernel memory: a store of tagged entries keyed by their ID, and an
//! event log whose lines carry the UTC time of day they were written at.

use vstd::prelude::*;
use std::collections::HashMap;
use crate::ids::{Stamp, Timestamp, fresh_stamp, now};
use crate::json::JsonValue;
use crate::text::{digit_char, push_str, str_eq, string_from_chars, texts};

verus! {

broadcast use vstd::std_specs::hash::group_hash_axioms;

/// A single memory entry.
#[derive(Debug)]
pub struct MemoryEntry {
    pub id: u128,
    pub kind: String,
    pub content: JsonValue,
    pub tags: Vec<String>,
    pub timestamp: Timestamp,
}

/// The kernel's memory.
pub struct KernelMemory {
    entries: HashMap<u128, MemoryEntry>,
    event_log: Vec<String>,
}

/// Two decimal digits of `n` (below one hundred).
pub open spec fn two_digits(n: int) -> Seq<char> {
    seq![digit_char((n / 10) as nat), digit_char((n % 10) as nat)]
}

/// The second of the UTC day of the instant `t` (0 to 86399).
pub open spec fn day_second(t: Timestamp) -> int {
    t.secs as int % 86400
}

/// The UTC time of day of `t` as `HH:MM:SS`; a leap second shows as
/// second 60.
pub open spec fn clock_text(t: Timestamp) -> Seq<char> {
    let d = day_second(t);
    let s = d % 60 + if t.nanos >= 1_000_000_000 { 1int } else { 0int };
    two_digits(d / 3600) + ":"@ + two_digits((d % 3600) / 60) + ":"@ + two_digits(s)
}

/// The log line of `event` written at `t`: `[HH:MM:SS] event`.
pub open spec fn log_line(t: Timestamp, event: Seq<char>) -> Seq<char> {
    "["@ + clock_text(t) + "] "@ + event
}

/// `e` is the entry `id` of kind `kind` with `content` and `tags`.
pub open spec fn entry_holds(e: MemoryEntry, id: u128, kind: Seq<char>, content: JsonValue, tags: Seq<String>) -> bool {
    &&& e.id == id
    &&& e.kind@ == kind
    &&& e.content == content
    &&& e.tags@ == tags
}

/// `b` is `a` with the entry `id` of kind `kind`, with `content` and
/// `tags`, stored; other entries and the log stay as they were.
pub open spec fn store_step(a: KernelMemory, b: KernelMemory, id: u128, kind: Seq<char>, content: JsonValue, tags: Seq<String>) -> bool {
    &&& b.entry_map().dom() == a.entry_map().dom().insert(id)
    &&& forall|k: u128| k != id && #[trigger] a.entry_map().contains_key(k) ==> b.entry_map()[k] == a.entry_map()[k]
    &&& entry_holds(b.entry_map()[id], id, kind, content, tags)
    &&& b.events() == a.events()
}

/// `e` carries the tag `tag`.
pub open spec fn has_tag(e: MemoryEntry, tag: Seq<char>) -> bool {
    texts(e.tags@).contains(tag)
}

/// Entry `e` is selected by `key`: of kind `key` (`by_kind`), or carrying
/// the tag `key`.
pub open spec fn selects(e: MemoryEntry, key: Seq<char>, by_kind: bool) -> bool {
    if by_kind {
        e.kind@ == key
    } else {
        has_tag(e, key)
    }
}

/// The IDs of the stored entries that `key` selects.
pub open spec fn selected_keys(m: Map<u128, MemoryEntry>, key: Seq<char>, by_kind: bool) -> Set<u128> {
    Set::new(|k: u128| m.contains_key(k) && selects(m[k], key, by_kind))
}

/// `r` holds the entries of `m` under the IDs in `keys`, each once, in the
/// order of `ks`.
pub open spec fn found_by(r: Seq<&MemoryEntry>, m: Map<u128, MemoryEntry>, keys: Set<u128>, ks: Seq<u128>) -> bool {
    &&& ks.no_duplicates()
    &&& ks.to_set() == keys
    &&& ks.len() == r.len()
    &&& forall|j: int| 0 <= j < ks.len() ==> *r[j] == m[#[trigger] ks[j]]
}

/// `r` holds the entries of `m` under the IDs in `keys`, each once, in
/// some order.
pub open spec fn found_once(r: Seq<&MemoryEntry>, m: Map<u128, MemoryEntry>, keys: Set<u128>) -> bool {
    exists|ks: Seq<u128>| #[trigger] found_by(r, m, keys, ks)
}

fn push_two_digits(out: &mut Vec<char>, n: u64)
    requires
        n < 100,
    ensures
        final(out)@ == old(out)@ + two_digits(n as int),
{
    out.push(crate::text::exec_digit_char(n / 10));
    out.push(crate::text::exec_digit_char(n % 10));
}

/// The second of the UTC day of `secs`.
fn day_second_of(secs: i64) -> (r: u64)
    ensures
        r == secs as int % 86400,
        r < 86400,
{
    if secs >= 0 {
        (secs as u64) % 86400
    } else {
        let a: u64 = (-(secs + 1)) as u64;
        assert((secs as int) % 86400 == 86399 - (a as int) % 86400) by (nonlinear_arith)
            requires
                secs == -(a as int) - 1,
                a >= 0,
        {
            let q = (a as int) / 86400;
            let r = (a as int) % 86400;
            assert(a as int == 86400 * q + r);
            assert(secs as int == 86400 * (-q - 1) + (86399 - r));
        }
        86399 - a % 86400
    }
}

impl KernelMemory {
    /// The stored entries by ID.
    pub closed spec fn entry_map(&self) -> Map<u128, MemoryEntry> {
        self.entries@
    }

    /// The lines of the event log, oldest first.
    pub closed spec fn events(&self) -> Seq<Seq<char>> {
        texts(self.event_log@)
    }

    /// An empty memory.
    pub fn new() -> (m: Self)
        ensures
            m.entry_map() == Map::<u128, MemoryEntry>::empty(),
            m.events() == Seq::<Seq<char>>::empty(),
    {
        let m = KernelMemory { entries: HashMap::new(), event_log: Vec::new() };
        assert(texts(m.event_log@) =~= Seq::<Seq<char>>::empty());
        m
    }

    /// Store a new entry under a fresh random ID, stamped now, and return
    /// the ID; `None`, with the memory unchanged, where the random source or
    /// the clock fails.
    pub fn store(&mut self, kind: &str, content: JsonValue, tags: Vec<String>) -> (r: Option<u128>)
        ensures
            match r {
                Some(id) => store_step(*old(self), *final(self), id, kind@, content, tags@),
                None => *final(self) == *old(self),
            },
    {
        match fresh_stamp() {
            Some(stamp) => {
                self.store_at(kind, content, tags, stamp);
                Some(stamp.id)
            },
            None => None,
        }
    }

    /// Store a new entry under the ID of `stamp`, stamped with its instant.
    pub fn store_at(&mut self, kind: &str, content: JsonValue, tags: Vec<String>, stamp: Stamp)
        ensures
            store_step(*old(self), *final(self), stamp.id, kind@, content, tags@),
            final(self).entry_map()[stamp.id].timestamp == stamp.at,
    {
        let e = MemoryEntry { id: stamp.id, kind: kind.to_string(), content, tags, timestamp: stamp.at };
        self.entries.insert(stamp.id, e);
    }

    /// The entry stored under `id`.
    pub fn get(&self, id: &u128) -> (r: Option<&MemoryEntry>)
        ensures
            match r {
                Some(e) => self.entry_map().contains_key(*id) && self.entry_map()[*id] == *e,
                None => !self.entry_map().contains_key(*id),
            },
    {
        self.entries.get(id)
    }

    /// The entries that carry the tag `tag`: each such entry once, in no
    /// stated order.
    pub fn search_by_tag(&self, tag: &str) -> (r: Vec<&MemoryEntry>)
        ensures
            found_once(r@, self.entry_map(), selected_keys(self.entry_map(), tag@, false)),
            forall|e: MemoryEntry|
                #[trigger] r@.contains(&e) <==> (self.entry_map().values().contains(e) && has_tag(e, tag@)),
    {
        self.select(tag, false)
    }

    /// The entries of kind `kind`: each such entry once, in no stated order.
    pub fn search_by_kind(&self, kind: &str) -> (r: Vec<&MemoryEntry>)
        ensures
            found_once(r@, self.entry_map(), selected_keys(self.entry_map(), kind@, true)),
            forall|e: MemoryEntry|
                #[trigger] r@.contains(&e) <==> (self.entry_map().values().contains(e) && e.kind@ == kind@),
    {
        self.select(kind, true)
    }

    /// The entries of kind `key` (`by_kind`) or carrying the tag `key`.
    fn select(&self, key: &str, by_kind: bool) -> (r: Vec<&MemoryEntry>)
        ensures
            found_once(r@, self.entry_map(), selected_keys(self.entry_map(), key@, by_kind)),
            forall|e: MemoryEntry|
                #[trigger] r@.contains(&e) <==> (self.entry_map().values().contains(e) && selects(
                    e,
                    key@,
                    by_kind,
                )),
    {
        let ghost m = self.entries@;
        let ghost want = selected_keys(m, key@, by_kind);
        let mut out: Vec<&MemoryEntry> = Vec::new();
        let ghost mut ks: Seq<u128> = Seq::empty();
        for k in it: self.entries.keys()
            invariant
                m == self.entries@,
                want == selected_keys(m, key@, by_kind),
                it.seq().unref().to_set() == m.dom(),
                it.seq().unref().no_duplicates(),
                ks.no_duplicates(),
                forall|x: u128| #[trigger] ks.contains(x) <==> (it.seq().unref().take(it.index()).contains(x)
                    && want.contains(x)),
                out@.len() == ks.len(),
                forall|j: int| 0 <= j < ks.len() ==> *out@[j] == m[#[trigger] ks[j]],
                it.index() == it.seq().len() ==> ks.to_set() == want,
        {
            let ghost ks0 = ks;
            proof {
                assert(*k == it.seq().unref()[it.index()]);
                assert(it.seq().unref().take(it.index() + 1) =~= it.seq().unref().take(it.index()).push(*k));
                if ks.contains(*k) {
                    let j = choose|j: int| 0 <= j < it.index() && it.seq().unref().take(it.index())[j] == *k;
                    assert(it.seq().unref()[j] == it.seq().unref()[it.index()]);
                }
                assert(!ks0.contains(*k));
            }
            let ghost mut took = false;
            match self.entries.get(k) {
                Some(e) => {
                    let hit = if by_kind {
                        str_eq(e.kind.as_str(), key)
                    } else {
                        carries_tag(&e.tags, key)
                    };
                    assert(m.contains_key(*k) && m[*k] == *e);
                    assert(hit == want.contains(*k));
                    if hit {
                        out.push(e);
                        proof {
                            lemma_push_fresh(ks, *k);
                            ks = ks.push(*k);
                            took = true;
                        }
                    }
                },
                None => {
                    assert(!want.contains(*k));
                },
            }
            proof {
                assert(took == want.contains(*k));
                assert(took ==> ks == ks0.push(*k));
                assert(!took ==> ks == ks0);
                assert forall|x: u128| #[trigger] ks.contains(x) <==> (it.seq().unref().take(it.index()
                    + 1).contains(x) && want.contains(x)) by {
                    let t0 = it.seq().unref().take(it.index() as int);
                    assert(it.seq().unref().take(it.index() + 1) == t0.push(*k));
                    lemma_push_contains(t0, *k, x);
                    lemma_push_contains(ks0, *k, x);
                }
                assert(it.index() + 1 == it.seq().len() ==> it.seq().unref().take(it.index() + 1)
                    =~= it.seq().unref());
                assert forall|x: u128| it.index() + 1 == it.seq().len() implies (#[trigger] ks.to_set().contains(x)
                    <==> want.contains(x)) by {
                    assert(ks.to_set().contains(x) <==> ks.contains(x));
                    if want.contains(x) {
                        assert(it.seq().unref().to_set().contains(x));
                        assert(it.seq().unref().contains(x));
                    }
                }
                assert(it.index() + 1 == it.seq().len() ==> ks.to_set() =~= want);
            }
        }
        proof {
            assert(found_by(out@, m, want, ks));
            assert forall|e: MemoryEntry| #[trigger] out@.contains(&e) <==> (m.values().contains(e)
                && selects(e, key@, by_kind)) by {
                if out@.contains(&e) {
                    let j = choose|j: int| 0 <= j < out@.len() && out@[j] == &e;
                    assert(ks.contains(ks[j]));
                    assert(m.contains_key(ks[j]));
                }
                if m.values().contains(e) && selects(e, key@, by_kind) {
                    let k = choose|k: u128| m.contains_key(k) && m[k] == e;
                    assert(want.contains(k));
                    assert(ks.contains(k));
                    let j = choose|j: int| 0 <= j < ks.len() && ks[j] == k;
                    assert(out@[j] == &e);
                }
            }
        }
        out
    }

    /// Append `event` to the log, stamped with the current time of day, and
    /// say whether it was; nothing changes where the clock fails.
    pub fn log_event(&mut self, event: String) -> (logged: bool)
        ensures
            logged ==> exists|t: Timestamp|
                t.nanos < 2_000_000_000 && #[trigger] final(self).events() == old(self).events().push(
                    log_line(t, event@),
                ),
            !logged ==> *final(self) == *old(self),
            final(self).entry_map() == old(self).entry_map(),
    {
        match now() {
            Some(t) => {
                self.log_event_at(event, t);
                true
            },
            None => false,
        }
    }

    /// Append `event` to the log, stamped with the time of day of `t`.
    pub fn log_event_at(&mut self, event: String, t: Timestamp)
        requires
            t.nanos < 2_000_000_000,
        ensures
            final(self).events() == old(self).events().push(log_line(t, event@)),
            final(self).entry_map() == old(self).entry_map(),
    {
        let d = day_second_of(t.secs);
        let s: u64 = d % 60 + if t.nanos >= 1_000_000_000 { 1 } else { 0 };
        let mut v: Vec<char> = Vec::new();
        push_str(&mut v, "[");
        push_two_digits(&mut v, d / 3600);
        push_str(&mut v, ":");
        push_two_digits(&mut v, (d % 3600) / 60);
        push_str(&mut v, ":");
        push_two_digits(&mut v, s);
        push_str(&mut v, "] ");
        push_str(&mut v, event.as_str());
        let line = string_from_chars(v.as_slice());
        assert(line@ =~= log_line(t, event@));
        let ghost before = self.event_log@;
        self.event_log.push(line);
        assert(texts(self.event_log@) =~= texts(before).push(log_line(t, event@)));
    }

    /// The last `n` log lines, newest first.
    pub fn recent_events(&self, n: usize) -> (r: Vec<&String>)
        ensures
            r@.len() == if n < self.events().len() { n as int } else { self.events().len() as int },
            forall|i: int| 0 <= i < r@.len() ==> (#[trigger] r@[i])@ == self.events()[self.events().len() - 1 - i],
    {
        let len = self.event_log.len();
        assert(self.events().len() == len);
        let mut out: Vec<&String> = Vec::new();
        let mut i: usize = 0;
        while i < n && i < len
            invariant
                len == self.event_log@.len(),
                i <= len,
                i <= n,
                out@.len() == i,
                forall|k: int| 0 <= k < i ==> (#[trigger] out@[k])@ == self.event_log@[len - 1 - k]@,
            decreases len - i,
        {
            out.push(&self.event_log[len - 1 - i]);
            i = i + 1;
        }
        assert forall|k: int| 0 <= k < out@.len() implies (#[trigger] out@[k])@ == self.events()[self.events().len() - 1 - k] by {
            assert(self.events()[len - 1 - k] == self.event_log@[len - 1 - k]@);
        }
        out
    }

    /// The number of stored entries.
    pub fn entry_count(&self) -> (r: usize)
        ensures
            r == self.entry_map().len(),
    {
        self.entries.len()
    }
}

/// A sequence with `a` pushed holds what it held, and `a`.
pub(crate) proof fn lemma_push_contains<A>(s: Seq<A>, a: A, x: A)
    ensures
        s.push(a).contains(x) <==> (s.contains(x) || x == a),
{
    if s.push(a).contains(x) {
        let j = choose|j: int| 0 <= j < s.push(a).len() && s.push(a)[j] == x;
        if j < s.len() {
            assert(s[j] == x);
        }
    }
    if s.contains(x) {
        let j = choose|j: int| 0 <= j < s.len() && s[j] == x;
        assert(s.push(a)[j] == x);
    }
    if x == a {
        assert(s.push(a)[s.len() as int] == x);
    }
}

/// Pushing a value a sequence does not hold keeps it free of repeats.
pub(crate) proof fn lemma_push_fresh(ks: Seq<u128>, k: u128)
    requires
        ks.no_duplicates(),
        !ks.contains(k),
    ensures
        ks.push(k).no_duplicates(),
{
    assert forall|i: int, j: int| 0 <= i < ks.push(k).len() && 0 <= j < ks.push(k).len() && i != j
        implies ks.push(k)[i] != ks.push(k)[j] by {
        if i == ks.len() {
            assert(ks.contains(ks[j]));
        }
        if j == ks.len() {
            assert(ks.contains(ks[i]));
        }
    }
}

/// Whether one of `tags` is `tag`.
fn carries_tag(tags: &Vec<String>, tag: &str) -> (r: bool)
    ensures
        r == texts(tags@).contains(tag@),
{
    let mut i: usize = 0;
    while i < tags.len()
        invariant
            i <= tags@.len(),
            forall|k: int| 0 <= k < i ==> tags@[k]@ != tag@,
        decreases tags@.len() - i,
    {
        if str_eq(tags[i].as_str(), tag) {
            assert(texts(tags@)[i as int] == tag@);
            return true;
        }
        i = i + 1;
    }
    assert forall|k: int| 0 <= k < texts(tags@).len() implies texts(tags@)[k] != tag@ by {
        assert(texts(tags@)[k] == tags@[k]@);
    }
    false
}

/// A stored entry is found again under its ID: a lookup of the ID that
/// `store` returned gives back the kind, content and tags stored.
pub proof fn lemma_store_then_get(a: KernelMemory, b: KernelMemory, id: u128, kind: Seq<char>, content: JsonValue, tags: Seq<String>)
    requires
        store_step(a, b, id, kind, content, tags),
    ensures
        b.entry_map().contains_key(id),
        entry_holds(b.entry_map()[id], id, kind, content, tags),
{
}

/// A stored entry is among those a search by any of its tags, or by its
/// kind, finds.
pub proof fn lemma_store_then_search(a: KernelMemory, b: KernelMemory, id: u128, kind: Seq<char>, content: JsonValue, tags: Seq<String>, tag: Seq<char>)
    requires
        store_step(a, b, id, kind, content, tags),
        texts(tags).contains(tag),
    ensures
        b.entry_map().values().contains(b.entry_map()[id]),
        has_tag(b.entry_map()[id], tag),
        b.entry_map()[id].kind@ == kind,
{
    assert(b.entry_map().contains_key(id));
}

/// Storing keeps every other entry, and adds one to the count unless the
/// fresh ID was already in use.
pub proof fn lemma_store_count(a: KernelMemory, b: KernelMemory, id: u128, kind: Seq<char>, content: JsonValue, tags: Seq<String>)
    requires
        store_step(a, b, id, kind, content, tags),
    ensures
        b.entry_map().len() == if a.entry_map().contains_key(id) {
            a.entry_map().len()
        } else {
            a.entry_map().len() + 1
        },
{
    assert(a.entries@.dom().finite());
}

/// The newest line of the log is the event logged last: after logging
/// `event` at `t`, the first of the recent events is its line.
pub proof fn lemma_log_then_recent(a: KernelMemory, b: KernelMemory, t: Timestamp, event: Seq<char>)
    requires
        b.events() == a.events().push(log_line(t, event)),
    ensures
        b.events().len() >= 1,
        b.events()[b.events().len() - 1] == log_line(t, event),
        forall|i: int| 0 <= i < a.events().len() ==> #[trigger] b.events()[i] == a.events()[i],
{
}

} // verus!
