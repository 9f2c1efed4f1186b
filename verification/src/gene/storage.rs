//! The on-disk layout of stored genes, and what is computed on what is
//! read back: file names, the stored key's decoding, and the order genes
//! are listed in. Reading and writing the files is the caller's.

use vstd::prelude::*;
use crate::gene::crypto::{CryptoError, GeneKeyPair, base64_decode, base64_decoded, ed25519_pkcs8_accepted};
use crate::gene::identity::NetGene;
use crate::ids::{Timestamp, push_uuid, uuid_text};
use crate::text::{is_whitespace, is_ws, push_str, str_chars, string_from_chars};

verus! {

/// Why a stored key could not be loaded.
#[derive(Debug, Clone, Copy, PartialEq, Eq)]
pub enum StorageError {
    /// The key file is not base64.
    KeyEncoding,
    /// The decoded key is not a PKCS#8 document ring accepts.
    Key(CryptoError),
}

/// The name of the file a gene's identity is stored in.
pub fn gene_file_name(id: u128) -> (r: String)
    ensures
        r@ == uuid_text(id) + ".gene.json"@,
{
    let mut v: Vec<char> = Vec::new();
    push_uuid(&mut v, id);
    push_str(&mut v, ".gene.json");
    string_from_chars(v.as_slice())
}

/// The name of the file a gene's private key is stored in.
pub fn key_file_name(id: u128) -> (r: String)
    ensures
        r@ == uuid_text(id) + ".key"@,
{
    let mut v: Vec<char> = Vec::new();
    push_uuid(&mut v, id);
    push_str(&mut v, ".key");
    string_from_chars(v.as_slice())
}

/// `s` without its leading white space.
pub open spec fn trim_start(s: Seq<char>) -> Seq<char>
    decreases s.len(),
{
    if s.len() > 0 && is_ws(s[0]) {
        trim_start(s.drop_first())
    } else {
        s
    }
}

/// `s` without its trailing white space.
pub open spec fn trim_end(s: Seq<char>) -> Seq<char>
    decreases s.len(),
{
    if s.len() > 0 && is_ws(s.last()) {
        trim_end(s.drop_last())
    } else {
        s
    }
}

/// `s` without leading and trailing white space (`str::trim`).
pub open spec fn trimmed(s: Seq<char>) -> Seq<char> {
    trim_end(trim_start(s))
}

/// `s` without leading and trailing white space.
pub fn trim(s: &str) -> (r: String)
    ensures
        r@ == trimmed(s@),
{
    let cs = str_chars(s);
    let n = cs.len();
    let mut a: usize = 0;
    assert(cs@.subrange(0, n as int) =~= cs@);
    while a < n && is_whitespace(cs[a])
        invariant
            a <= n,
            n == cs@.len(),
            cs@ == s@,
            trim_start(s@) == trim_start(cs@.subrange(a as int, n as int)),
        decreases n - a,
    {
        assert(cs@.subrange(a as int, n as int).drop_first() =~= cs@.subrange(a + 1, n as int));
        a = a + 1;
    }
    let mut b: usize = n;
    assert(trim_start(s@) == cs@.subrange(a as int, n as int));
    while b > a && is_whitespace(cs[b - 1])
        invariant
            a <= b <= n,
            n == cs@.len(),
            trimmed(s@) == trim_end(cs@.subrange(a as int, b as int)),
        decreases b,
    {
        assert(cs@.subrange(a as int, b as int).drop_last() =~= cs@.subrange(a as int, b - 1));
        b = b - 1;
    }
    assert(trim_end(cs@.subrange(a as int, b as int)) == cs@.subrange(a as int, b as int));
    let mut out: Vec<char> = Vec::new();
    let mut i: usize = a;
    while i < b
        invariant
            a <= i <= b <= n,
            n == cs@.len(),
            out@ == cs@.subrange(a as int, i as int),
        decreases b - i,
    {
        out.push(cs[i]);
        assert(cs@.subrange(a as int, i + 1) =~= cs@.subrange(a as int, i as int).push(cs@[i as int]));
        i = i + 1;
    }
    string_from_chars(out.as_slice())
}

/// The key pair stored as base64 text (surrounding white space ignored).
pub fn keypair_from_text(text: &str) -> (r: Result<GeneKeyPair, StorageError>)
    ensures
        match base64_decoded(trimmed(text@)) {
            None => r == Err::<GeneKeyPair, StorageError>(StorageError::KeyEncoding),
            Some(bytes) => if ed25519_pkcs8_accepted(bytes) {
                r matches Ok(kp) && kp.pkcs8_view() == bytes
            } else {
                r == Err::<GeneKeyPair, StorageError>(StorageError::Key(CryptoError::InvalidPkcs8))
            },
        },
{
    let t = trim(text);
    match base64_decode(t.as_str()) {
        None => Err(StorageError::KeyEncoding),
        Some(bytes) => match GeneKeyPair::from_pkcs8(bytes) {
            Ok(kp) => Ok(kp),
            Err(e) => Err(StorageError::Key(e)),
        },
    }
}

/// `a` is no later than `b`.
pub open spec fn no_later(a: Timestamp, b: Timestamp) -> bool {
    a.secs < b.secs || (a.secs == b.secs && a.nanos <= b.nanos)
}

/// The genes are in order of creation.
pub open spec fn by_creation(s: Seq<NetGene>) -> bool {
    forall|i: int, j: int| 0 <= i < j < s.len() ==> no_later(#[trigger] s[i].created_at, #[trigger] s[j].created_at)
}

/// Whether a gene was created at `t`.
pub open spec fn made_at(t: Timestamp) -> spec_fn(NetGene) -> bool {
    |g: NetGene| g.created_at == t
}

/// The genes of `s` created at `t`, in their order in `s`.
pub open spec fn created_at(s: Seq<NetGene>, t: Timestamp) -> Seq<NetGene> {
    s.filter(made_at(t))
}

fn is_no_later(a: Timestamp, b: Timestamp) -> (r: bool)
    ensures
        r == no_later(a, b),
{
    a.secs < b.secs || (a.secs == b.secs && a.nanos <= b.nanos)
}

proof fn lemma_insert_keeps_order(s: Seq<NetGene>, p: int, x: NetGene)
    requires
        by_creation(s),
        0 <= p <= s.len(),
        forall|k: int| 0 <= k < p ==> no_later(#[trigger] s[k].created_at, x.created_at),
        p < s.len() ==> !no_later(s[p].created_at, x.created_at),
    ensures
        by_creation(s.insert(p, x)),
        forall|k: int| p <= k < s.len() ==> !no_later(#[trigger] s[k].created_at, x.created_at),
{
    assert forall|k: int| p <= k < s.len() implies !no_later(#[trigger] s[k].created_at, x.created_at) by {
        if k > p {
            assert(no_later(s[p].created_at, s[k].created_at));
        }
    }
    let s2 = s.insert(p, x);
    assert forall|i: int, j: int| 0 <= i < j < s2.len() implies no_later(#[trigger] s2[i].created_at, #[trigger] s2[j].created_at) by {
        if j < p {
            assert(s2[i] == s[i] && s2[j] == s[j]);
        } else if j == p {
            assert(s2[i] == s[i]);
        } else if i == p {
            assert(s2[j] == s[j - 1]);
        } else if i < p {
            assert(s2[i] == s[i] && s2[j] == s[j - 1]);
        } else {
            assert(s2[i] == s[i - 1] && s2[j] == s[j - 1]);
        }
    }
}

proof fn lemma_filter_none<A>(s: Seq<A>, pred: spec_fn(A) -> bool)
    requires
        forall|k: int| 0 <= k < s.len() ==> !pred(#[trigger] s[k]),
    ensures
        s.filter(pred) == Seq::<A>::empty(),
{
    broadcast use vstd::seq_lib::group_filter_ensures;
    if s.filter(pred).len() > 0 {
        let e = s.filter(pred)[0];
        assert(pred(e));
        assert(s.filter(pred).contains(e));
        s.lemma_filter_contains_rev(pred, e);
    }
    assert(s.filter(pred) =~= Seq::<A>::empty());
}

proof fn lemma_filter_push<A>(s: Seq<A>, x: A, pred: spec_fn(A) -> bool)
    ensures
        s.push(x).filter(pred) == if pred(x) { s.filter(pred).push(x) } else { s.filter(pred) },
{
    reveal(Seq::filter);
    assert(s.push(x).drop_last() =~= s);
}

proof fn lemma_insert_step(s: Seq<NetGene>, p: int, all: Seq<NetGene>, i: int)
    requires
        0 <= i < all.len(),
        0 <= p <= s.len(),
        s.to_multiset() == all.take(i).to_multiset(),
        forall|t: Timestamp| #[trigger] created_at(s, t) == created_at(all.take(i), t),
        forall|k: int| p <= k < s.len() ==> !no_later(#[trigger] s[k].created_at, all[i].created_at),
    ensures
        s.insert(p, all[i]).to_multiset() == all.take(i + 1).to_multiset(),
        forall|t: Timestamp| #[trigger] created_at(s.insert(p, all[i]), t) == created_at(all.take(i + 1), t),
{
    broadcast use vstd::seq_lib::group_to_multiset_ensures;
    broadcast use vstd::multiset::group_multiset_axioms;
    let x = all[i];
    let s2 = s.insert(p, x);
    assert(all.take(i + 1) =~= all.take(i).push(x));
    assert(s2.remove(p) =~= s);
    assert(s2[p] == x);
    assert(s2.to_multiset().count(x) > 0);
    assert(s2.to_multiset() =~= s.to_multiset().insert(x));
    let a = s.take(p);
    let b = s.skip(p);
    assert(s =~= a + b);
    assert(s2 =~= a + seq![x] + b);
    assert forall|t: Timestamp| #[trigger] created_at(s2, t) == created_at(all.take(i + 1), t) by {
        let pred = made_at(t);
        Seq::filter_distributes_over_add(a + seq![x], b, pred);
        Seq::filter_distributes_over_add(a, seq![x], pred);
        Seq::filter_distributes_over_add(a, b, pred);
        lemma_filter_push(all.take(i), x, pred);
        lemma_filter_push(Seq::<NetGene>::empty(), x, pred);
        assert(seq![x] =~= Seq::<NetGene>::empty().push(x));
        assert(Seq::<NetGene>::empty().filter(pred) =~= Seq::<NetGene>::empty()) by {
            reveal(Seq::filter);
        }
        assert(s2.filter(pred) == (a + seq![x]).filter(pred) + b.filter(pred));
        assert((a + seq![x]).filter(pred) == a.filter(pred) + seq![x].filter(pred));
        assert(s.filter(pred) == a.filter(pred) + b.filter(pred));
        assert(created_at(s, t) == created_at(all.take(i), t));
        assert(s.filter(pred) == all.take(i).filter(pred));
        if pred(x) {
            assert(seq![x].filter(pred) =~= seq![x]);
            assert forall|k: int| 0 <= k < b.len() implies !pred(#[trigger] b[k]) by {
                assert(b[k] == s[p + k]);
                assert(!no_later(s[p + k].created_at, x.created_at));
            }
            lemma_filter_none(b, pred);
            assert(created_at(s2, t) =~= a.filter(pred).push(x));
            assert(created_at(s, t) =~= a.filter(pred));
        } else {
            assert(seq![x].filter(pred) =~= Seq::<NetGene>::empty());
            assert(created_at(s2, t) =~= a.filter(pred) + b.filter(pred));
        }
    }
}

/// The genes in order of creation; genes created at the same instant keep
/// their order (a stable sort).
pub fn sort_by_creation(genes: Vec<NetGene>) -> (r: Vec<NetGene>)
    ensures
        by_creation(r@),
        r@.to_multiset() == genes@.to_multiset(),
        forall|t: Timestamp| #[trigger] created_at(r@, t) == created_at(genes@, t),
{
    let mut out: Vec<NetGene> = Vec::new();
    let mut rest = genes;
    let ghost all = rest@;
    let n = rest.len();
    let mut i: usize = 0;
    proof {
        assert(out@ =~= all.take(0));
        assert(rest@ =~= all.skip(0));
    }
    while i < n
        invariant
            n == all.len(),
            all == genes@,
            i <= n,
            rest@ == all.skip(i as int),
            by_creation(out@),
            out@.to_multiset() == all.take(i as int).to_multiset(),
            forall|t: Timestamp| #[trigger] created_at(out@, t) == created_at(all.take(i as int), t),
        decreases n - i,
    {
        let g = rest.remove(0);
        assert(g == all[i as int]);
        assert(rest@ =~= all.skip(i + 1));
        let mut p: usize = 0;
        while p < out.len() && is_no_later(out[p].created_at, g.created_at)
            invariant
                p <= out@.len(),
                forall|k: int| 0 <= k < p ==> no_later(#[trigger] out@[k].created_at, g.created_at),
            decreases out@.len() - p,
        {
            p = p + 1;
        }
        let ghost before = out@;
        proof {
            lemma_insert_keeps_order(before, p as int, g);
            lemma_insert_step(before, p as int, all, i as int);
        }
        out.insert(p, g);
        i = i + 1;
    }
    proof {
        assert(all.take(n as int) =~= all);
    }
    out
}

} // verus!
