//! Identifiers and instants: random UUIDs held as their 128-bit value,
//! UTC instants held as seconds and nanoseconds, and their text forms.

use vstd::prelude::*;
use rand::RngCore;
use crate::text::{push_str, string_from_chars};

verus! {

/// A UTC instant: whole seconds since the Unix epoch and the nanoseconds
/// past that second (from one billion on during a leap second).
#[derive(Clone, Copy, PartialEq, Eq, Debug)]
pub struct Timestamp {
    pub secs: i64,
    pub nanos: u32,
}

/// A reading of the system clock, `std::time::SystemTime`.
#[verifier::external_type_specification]
#[verifier::external_body]
pub struct ExSystemTime(std::time::SystemTime);

/// `SystemTime::now`: the system clock's current reading. Nothing is
/// claimed of it.
#[verifier::external_body]
fn clock_reading() -> std::time::SystemTime {
    std::time::SystemTime::now()
}

/// `SystemTime::duration_since(UNIX_EPOCH)`, as whole seconds and the
/// nanoseconds past them (below one billion, as `Duration` keeps them);
/// `None` where the reading lies before the Unix epoch.
#[verifier::external_body]
fn since_epoch(t: &std::time::SystemTime) -> (r: Option<(u64, u32)>)
    ensures
        r matches Some((_, n)) ==> n < 1_000_000_000,
{
    t.duration_since(std::time::UNIX_EPOCH).ok().map(|d| (d.as_secs(), d.subsec_nanos()))
}

/// The current UTC instant, as `chrono::Utc::now` computes it (the system
/// clock's time since the Unix epoch); `None` where the clock reads before
/// 1970 or beyond what an `i64` of seconds holds, where chrono panics.
pub fn now() -> (r: Option<Timestamp>)
    ensures
        r matches Some(t) ==> t.secs >= 0 && t.nanos < 1_000_000_000,
{
    let c = clock_reading();
    match since_epoch(&c) {
        Some((s, n)) => if s <= 0x7fff_ffff_ffff_ffff {
            Some(Timestamp { secs: s as i64, nanos: n })
        } else {
            None
        },
        None => None,
    }
}

/// An instant chrono can represent as given: nanoseconds from one billion on
/// only in the last second of a minute (a leap second).
pub open spec fn valid_instant(t: Timestamp) -> bool {
    t.nanos < 1_000_000_000 || (t.nanos < 2_000_000_000 && t.secs % 60 == 59)
}

/// Unix seconds well inside chrono's calendar (about 253,500 years either
/// side of 1970; chrono reaches the years -262143 and 262142).
pub open spec fn within_calendar(secs: int) -> bool {
    -8_000_000_000_000 <= secs <= 8_000_000_000_000
}

/// The instant `d` whole seconds after `t`, as chrono adds them: the
/// seconds add and the sub-second part stays, except that a leap second is
/// first left (its nanoseconds lose one billion, and when going back the
/// second it stood in counts as one more).
pub open spec fn instant_after(t: Timestamp, d: i64) -> Timestamp {
    if t.nanos >= 1_000_000_000 && d > 0 {
        Timestamp { secs: (t.secs + d) as i64, nanos: (t.nanos - 1_000_000_000) as u32 }
    } else if t.nanos >= 1_000_000_000 && d < 0 {
        Timestamp { secs: (t.secs + d + 1) as i64, nanos: (t.nanos - 1_000_000_000) as u32 }
    } else {
        Timestamp { secs: (t.secs + d) as i64, nanos: t.nanos }
    }
}

/// `DateTime::<Utc>::from_timestamp`, then `checked_add_signed` with a whole
/// number of seconds, read back by `timestamp` and `timestamp_subsec_nanos`.
/// Where chrono gives a result it is `instant_after(t, secs)` (its
/// `NaiveTime::overflowing_add_signed`); it gives one for every valid
/// instant whose seconds, before and after, lie within `within_calendar`.
/// Where exactly chrono's range ends is not stated here.
#[verifier::external_body]
pub(crate) fn add_seconds(t: Timestamp, secs: i64) -> (r: Option<Timestamp>)
    requires
        -(i64::MAX / 1000) <= secs <= i64::MAX / 1000,
    ensures
        r matches Some(s) ==> s == instant_after(t, secs),
        valid_instant(t) && within_calendar(t.secs as int) && within_calendar(t.secs + secs) ==> r
            is Some,
{
    match chrono::DateTime::<chrono::Utc>::from_timestamp(t.secs, t.nanos) {
        Some(d) => d.checked_add_signed(chrono::TimeDelta::seconds(secs)).map(
            |x| Timestamp { secs: x.timestamp(), nanos: x.timestamp_subsec_nanos() },
        ),
        None => None,
    }
}

/// The version number of a UUID held as its big-endian 128-bit value.
pub open spec fn uuid_version(u: u128) -> u128 {
    (u / 0x1000_0000_0000_0000_0000) % 16
}

/// The two variant bits of a UUID held as its big-endian 128-bit value.
pub open spec fn uuid_variant(u: u128) -> u128 {
    (u / 0x4000_0000_0000_0000) % 4
}

/// `OsRng::try_fill_bytes` (rand): sixteen bytes from the operating
/// system's random source, read as one big-endian number; `None` where the
/// source reports an error. Nothing is claimed of the bits.
#[verifier::external_body]
fn os_random_u128() -> Option<u128> {
    let mut b = [0u8; 16];
    rand::rngs::OsRng.try_fill_bytes(&mut b).ok().map(|_| u128::from_be_bytes(b))
}

/// The bits a version-4 UUID keeps of its random input.
pub const V4_KEEP: u128 = 0xffff_ffff_ffff_0fff_3fff_ffff_ffff_ffff;

/// The version (4) and RFC 4122 variant bits of a version-4 UUID.
pub const V4_SET: u128 = 0x0000_0000_0000_4000_8000_0000_0000_0000;

/// `uuid::Builder::from_random_bytes(..).into_uuid()`, as a 128-bit value:
/// the random bits with the version nibble set to 4 and the two variant
/// bits to the RFC 4122 variant (`with_version`, `with_variant`).
#[verifier::external_body]
fn uuid_from_random(bits: u128) -> (u: u128)
    ensures
        u == (bits & V4_KEEP) | V4_SET,
{
    uuid::Builder::from_random_bytes(bits.to_be_bytes()).into_uuid().as_u128()
}

/// A random version-4 UUID, as `uuid::Uuid::new_v4` makes one, from the
/// operating system's random source; `None` where that source fails (where
/// `new_v4` panics).
pub fn new_uuid_v4() -> (r: Option<u128>)
    ensures
        r matches Some(u) ==> uuid_version(u) == 4 && uuid_variant(u) == 2,
{
    match os_random_u128() {
        Some(bits) => {
            let u = uuid_from_random(bits);
            assert(((bits & 0xffff_ffff_ffff_0fff_3fff_ffff_ffff_ffffu128) | 0x0000_0000_0000_4000_8000_0000_0000_0000u128)
                / 0x1000_0000_0000_0000_0000u128 % 16 == 4) by (bit_vector);
            assert(((bits & 0xffff_ffff_ffff_0fff_3fff_ffff_ffff_ffffu128) | 0x0000_0000_0000_4000_8000_0000_0000_0000u128)
                / 0x4000_0000_0000_0000u128 % 4 == 2) by (bit_vector);
            Some(u)
        },
        None => None,
    }
}

/// A fresh identity for something made now: a random version-4 UUID and
/// the current instant.
#[derive(Clone, Copy, PartialEq, Eq, Debug)]
pub struct Stamp {
    pub id: u128,
    pub at: Timestamp,
}

/// A fresh version-4 UUID, then the current instant; `None` where the
/// random source or the clock fails.
pub fn fresh_stamp() -> (r: Option<Stamp>)
    ensures
        r matches Some(s) ==> uuid_version(s.id) == 4 && uuid_variant(s.id) == 2 && s.at.secs >= 0
            && s.at.nanos < 1_000_000_000,
{
    let id = match new_uuid_v4() {
        Some(u) => u,
        None => return None,
    };
    match now() {
        Some(at) => Some(Stamp { id, at }),
        None => None,
    }
}

pub open spec fn hex_char(d: nat) -> char {
    if d < 10 {
        crate::text::digit_char(d)
    } else if d == 10 {
        'a'
    } else if d == 11 {
        'b'
    } else if d == 12 {
        'c'
    } else if d == 13 {
        'd'
    } else if d == 14 {
        'e'
    } else {
        'f'
    }
}

fn exec_hex_char(d: u128) -> (c: char)
    requires
        d < 16,
    ensures
        c == hex_char(d as nat),
{
    if d == 0 {
        '0'
    } else if d == 1 {
        '1'
    } else if d == 2 {
        '2'
    } else if d == 3 {
        '3'
    } else if d == 4 {
        '4'
    } else if d == 5 {
        '5'
    } else if d == 6 {
        '6'
    } else if d == 7 {
        '7'
    } else if d == 8 {
        '8'
    } else if d == 9 {
        '9'
    } else if d == 10 {
        'a'
    } else if d == 11 {
        'b'
    } else if d == 12 {
        'c'
    } else if d == 13 {
        'd'
    } else if d == 14 {
        'e'
    } else {
        'f'
    }
}

/// The `n` lowest hexadecimal digits of `u`, lowercase, most significant first.
pub open spec fn hex_fixed(u: nat, n: nat) -> Seq<char>
    decreases n,
{
    if n == 0 {
        Seq::empty()
    } else {
        hex_fixed(u / 16, (n - 1) as nat).push(hex_char(u % 16))
    }
}

/// Appends the `n` lowest hexadecimal digits of `u` to `out`.
pub fn push_hex_fixed(out: &mut Vec<char>, u: u128, n: u32)
    ensures
        final(out)@ == old(out)@ + hex_fixed(u as nat, n as nat),
    decreases n,
{
    if n > 0 {
        push_hex_fixed(out, u / 16, n - 1);
        out.push(exec_hex_char(u % 16));
        assert(hex_fixed(u as nat, n as nat) == hex_fixed((u / 16) as nat, (n - 1) as nat).push(
            hex_char((u % 16) as nat),
        ));
    }
}

/// Lowercase hexadecimal text of a byte string, two digits per byte.
pub open spec fn hex_bytes(b: Seq<u8>) -> Seq<char>
    decreases b.len(),
{
    if b.len() == 0 {
        Seq::empty()
    } else {
        hex_bytes(b.drop_last()) + hex_fixed(b.last() as nat, 2)
    }
}

proof fn lemma_hex_fixed_len(u: nat, n: nat)
    ensures
        hex_fixed(u, n).len() == n,
    decreases n,
{
    if n > 0 {
        lemma_hex_fixed_len(u / 16, (n - 1) as nat);
    }
}

pub proof fn lemma_hex_bytes_len(b: Seq<u8>)
    ensures
        hex_bytes(b).len() == 2 * b.len(),
    decreases b.len(),
{
    if b.len() > 0 {
        lemma_hex_bytes_len(b.drop_last());
        lemma_hex_fixed_len(b.last() as nat, 2);
    }
}

/// Lowercase hexadecimal text of `b`, as `hex::encode` writes it.
pub fn hex_encode(b: &[u8]) -> (r: String)
    ensures
        r@ == hex_bytes(b@),
        r@.len() == 2 * b@.len(),
{
    let mut out: Vec<char> = Vec::new();
    let n = b.len();
    let mut i: usize = 0;
    while i < n
        invariant
            n == b@.len(),
            i <= n,
            out@ == hex_bytes(b@.take(i as int)),
        decreases n - i,
    {
        push_hex_fixed(&mut out, b[i] as u128, 2);
        assert(b@.take(i + 1).drop_last() =~= b@.take(i as int));
        i = i + 1;
    }
    assert(b@.take(n as int) =~= b@);
    proof {
        lemma_hex_bytes_len(b@);
    }
    string_from_chars(out.as_slice())
}

/// The hyphenated lowercase text of a UUID, as `uuid::Uuid`'s `Display`
/// writes it: 8-4-4-4-12 hexadecimal digits.
pub open spec fn uuid_text(u: u128) -> Seq<char> {
    uuid_prefix(hex_fixed(u as nat, 32), 32)
}

/// Appends the hyphenated text of the UUID `u` to `out`.
pub fn push_uuid(out: &mut Vec<char>, u: u128)
    ensures
        final(out)@ == old(out)@ + uuid_text(u),
{
    let mut h: Vec<char> = Vec::new();
    push_hex_fixed(&mut h, u, 32);
    proof {
        lemma_hex_fixed_len(u as nat, 32);
    }
    let ghost start = out@;
    let ghost hs = h@;
    let mut i: usize = 0;
    while i < 32
        invariant
            h@ == hs,
            hs == hex_fixed(u as nat, 32),
            hs.len() == 32,
            i <= 32,
            out@ == start + uuid_prefix(hs, i as int),
        decreases 32 - i,
    {
        if i == 8 || i == 12 || i == 16 || i == 20 {
            out.push('-');
        }
        out.push(h[i]);
        i = i + 1;
    }
}

/// The text of the first `i` digits of `h` with the UUID hyphens in place.
pub open spec fn uuid_prefix(h: Seq<char>, i: int) -> Seq<char>
    decreases i,
{
    if i <= 0 {
        Seq::empty()
    } else if i == 9 || i == 13 || i == 17 || i == 21 {
        uuid_prefix(h, i - 1).push('-').push(h[i - 1])
    } else {
        uuid_prefix(h, i - 1).push(h[i - 1])
    }
}

pub proof fn lemma_uuid_text_len(u: u128)
    ensures
        uuid_text(u).len() == 36,
{
    lemma_hex_fixed_len(u as nat, 32);
    lemma_uuid_prefix_len(hex_fixed(u as nat, 32), 32);
}

proof fn lemma_uuid_prefix_len(h: Seq<char>, i: int)
    requires
        0 <= i <= 32,
    ensures
        uuid_prefix(h, i).len() == i + (if i >= 21 {
            4int
        } else if i >= 17 {
            3int
        } else if i >= 13 {
            2int
        } else if i >= 9 {
            1int
        } else {
            0int
        }),
    decreases i,
{
    if i > 0 {
        lemma_uuid_prefix_len(h, i - 1);
    }
}

/// The hyphenated text of the UUID `u`.
pub fn uuid_to_string(u: u128) -> (r: String)
    ensures
        r@ == uuid_text(u),
{
    let mut v: Vec<char> = Vec::new();
    push_uuid(&mut v, u);
    assert(v@ =~= uuid_text(u));
    string_from_chars(v.as_slice())
}

} // verus!
