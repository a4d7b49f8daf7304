//! Probes under way, held in a concurrent map by target address, target
//! port and source port. The map's methods change it through shared
//! references; here every change takes the tracker mutably, so that what it
//! holds can be followed.

use vstd::prelude::*;
use dashmap::DashMap;
use std::time::{Duration, Instant};
use vstd::arithmetic::power2::{pow2, lemma_pow2_adds, lemma2_to64, lemma_pow2_strictly_increases};
use crate::addr::{IpAddr, Ipv4Addr};

verus! {

#[verifier::external_type_specification]
#[verifier::external_body]
#[verifier::reject_recursive_types(K)]
#[verifier::reject_recursive_types(V)]
#[verifier::reject_recursive_types(S)]
pub struct ExDashMap<K, V, S>(DashMap<K, V, S>);

#[verifier::external_type_specification]
#[verifier::external_body]
pub struct ExInstant(Instant);

/// A probe under way: its sequence number, source port, when it was sent
/// (in microseconds of the tracker's clock) and how often it was sent again.
#[derive(Debug, Clone, Copy)]
pub struct ProbeState {
    pub sequence: u32,
    pub src_port: u16,
    pub sent_at: u128,
    pub retries: u32,
}

/// The key of a probe: address tag and number, target port, source port.
pub type ProbeKey = (u8, u128, u16, u16);

/// What is held of a probe: sequence number, source port, send time,
/// retries.
pub type ProbeModel = (u32, u16, u128, u32);

/// The map of probes under way.
pub type ProbeMap = DashMap<ProbeKey, ProbeState>;

/// What the tracker holds of a probe: sequence number, source port, send
/// time and retries.
pub open spec fn probe_model(p: ProbeState) -> ProbeModel {
    (p.sequence, p.src_port, p.sent_at, p.retries)
}

/// How long before `now` a probe sent at `sent` went out, in microseconds;
/// none where the clock reads earlier than the send time.
pub open spec fn probe_age(now: u128, sent: u128) -> int {
    if now >= sent { now - sent } else { 0 }
}

/// A probe sent at `sent` is younger than `max_age_ms` milliseconds at `now`.
pub open spec fn is_fresh(now: u128, sent: u128, max_age_ms: u64) -> bool {
    probe_age(now, sent) < max_age_ms * 1000
}

/// The probes of `m` that are younger than `max_age_ms` at `now`.
pub open spec fn fresh_entries(m: Map<ProbeKey, ProbeModel>, now: u128, max_age_ms: u64) -> Map<ProbeKey, ProbeModel> {
    m.restrict(m.dom().filter(|k: ProbeKey| is_fresh(now, m[k].2, max_age_ms)))
}

/// No probe at all.
pub open spec fn no_probes() -> Map<ProbeKey, ProbeModel> {
    Map::empty()
}

/// The probes that a map holds, by key.
pub uninterp spec fn probe_entries(m: ProbeMap) -> Map<ProbeKey, ProbeModel>;

/// Calls `DashMap::new`: the map holds nothing.
#[verifier::external_body]
fn probe_map_new() -> (r: ProbeMap)
    ensures
        probe_entries(r) == no_probes(),
{
    DashMap::new()
}

/// Calls `DashMap::insert`: the key now maps to the probe, whatever it
/// mapped to before; the other keys are kept.
#[verifier::external_body]
fn probe_map_insert(m: &mut ProbeMap, key: ProbeKey, value: ProbeState)
    ensures
        probe_entries(*final(m)) == probe_entries(*old(m)).insert(key, probe_model(value)),
{
    m.insert(key, value);
}

/// Calls `DashMap::get` and clones the probe found: there is one exactly
/// where the key is held, and it is the one held.
#[verifier::external_body]
fn probe_map_get(m: &ProbeMap, key: ProbeKey) -> (r: Option<ProbeState>)
    ensures
        r is Some <==> probe_entries(*m).contains_key(key),
        r matches Some(p) ==> probe_model(p) == probe_entries(*m)[key],
{
    match m.get(&key) {
        Some(entry) => Some(entry.value().clone()),
        None => None,
    }
}

/// Calls `DashMap::remove`: the key is no longer held; the other keys are
/// kept.
#[verifier::external_body]
fn probe_map_remove(m: &mut ProbeMap, key: ProbeKey)
    ensures
        probe_entries(*final(m)) == probe_entries(*old(m)).remove(key),
{
    m.remove(&key);
}

/// Calls `DashMap::len`: the number of keys held.
#[verifier::external_body]
fn probe_map_len(m: &ProbeMap) -> (r: usize)
    ensures
        r == probe_entries(*m).len(),
{
    m.len()
}

/// Calls `DashMap::retain` with the verified test `probe_is_fresh`: the
/// map keeps exactly the probes for which the test holds, unchanged, and
/// drops the others.
#[verifier::external_body]
fn probe_map_retain_fresh(m: &mut ProbeMap, now: u128, max_age_ms: u64)
    ensures
        probe_entries(*final(m)) == fresh_entries(probe_entries(*old(m)), now, max_age_ms),
{
    m.retain(|_, p| probe_is_fresh(now, p, max_age_ms));
}

/// Calls `Instant::now`: nothing is claimed of the time it reads.
#[verifier::external_body]
fn instant_now() -> (r: Instant) {
    Instant::now()
}

/// Calls `Instant::duration_since`: nothing is claimed of the result.
#[verifier::external_body]
fn duration_since(now: Instant, earlier: Instant) -> (r: Duration) {
    now.duration_since(earlier)
}

/// Calls `Duration::as_micros`: nothing is claimed of the result.
#[verifier::external_body]
fn duration_micros(d: Duration) -> (r: u128) {
    d.as_micros()
}

/// The probe is younger than `max_age_ms` milliseconds at `now`, both
/// times in microseconds of the tracker's clock.
pub fn probe_is_fresh(now: u128, probe: &ProbeState, max_age_ms: u64) -> (r: bool)
    ensures
        r == is_fresh(now, probe.sent_at, max_age_ms),
{
    let age: u128 = if now >= probe.sent_at { now - probe.sent_at } else { 0 };
    age < (max_age_ms as u128) * 1000
}

/// The number that stands for an address in a key: the IPv4 address as a
/// 32-bit number with tag 4, or the IPv6 segments, first most significant,
/// with tag 6.
pub open spec fn address_number(ip: IpAddr) -> (u8, u128) {
    match ip {
        IpAddr::V4(a) => (4u8, (a.a as nat * 0x1000000 + a.b as nat * 0x10000 + a.c as nat * 0x100 + a.d as nat) as u128),
        IpAddr::V6(a) => (6u8, segments_number(a.segments@, 8) as u128),
    }
}

/// The first `n` segments read as one number, first most significant.
pub open spec fn segments_number(s: Seq<u16>, n: nat) -> nat
    decreases n,
{
    if n == 0 {
        0
    } else {
        segments_number(s, (n - 1) as nat) * 0x10000 + s[n - 1] as nat
    }
}

proof fn lemma_segments_number_bound(s: Seq<u16>, n: nat)
    ensures
        segments_number(s, n) < pow2(16 * n),
    decreases n,
{
    lemma2_to64();
    if n > 0 {
        let m = (n - 1) as nat;
        lemma_segments_number_bound(s, m);
        let prev = segments_number(s, m);
        let p = pow2(16 * m);
        lemma_pow2_adds(16 * m, 16);
        assert(16 * m + 16 == 16 * n);
        assert(pow2(16 * n) == p * 0x10000);
        assert(prev * 0x10000 + 0xffff < p * 0x10000) by (nonlinear_arith)
            requires prev < p;
        assert(segments_number(s, n) == prev * 0x10000 + s[n - 1] as nat);
    }
}

/// The key of a probe: the target address's number, the target port and
/// the source port.
pub open spec fn probe_key(target: IpAddr, target_port: u16, src_port: u16) -> ProbeKey {
    let (tag, n) = address_number(target);
    (tag, n, target_port, src_port)
}

fn key_of(target: IpAddr, target_port: u16, src_port: u16) -> (r: ProbeKey)
    ensures
        r == probe_key(target, target_port, src_port),
{
    match target {
        IpAddr::V4(a) => {
            let n: u128 = (a.a as u128) * 0x1000000 + (a.b as u128) * 0x10000 + (a.c as u128) * 0x100 + (a.d as u128);
            (4u8, n, target_port, src_port)
        },
        IpAddr::V6(a) => {
            let mut n: u128 = 0;
            let mut i: usize = 0;
            while i < 8
                invariant
                    i <= 8,
                    n as nat == segments_number(a.segments@, i as nat),
                decreases 8 - i,
            {
                proof {
                    lemma_segments_number_bound(a.segments@, (i + 1) as nat);
                    if 16 * (i + 1) < 128 {
                        lemma_pow2_strictly_increases((16 * (i + 1)) as nat, 128);
                    }
                    lemma_pow2_128();
                }
                n = n * 0x10000 + (a.segments[i] as u128);
                i = i + 1;
            }
            (6u8, n, target_port, src_port)
        },
    }
}

/// The probes under way, with the instant from which its clock counts.
pub struct StateTracker {
    states: ProbeMap,
    origin: Instant,
}

impl StateTracker {
    /// The probes held, by key.
    pub closed spec fn entries(&self) -> Map<ProbeKey, ProbeModel> {
        probe_entries(self.states)
    }

    /// A tracker with no probe.
    pub fn new() -> (r: Self)
        ensures
            r.entries() == no_probes(),
    {
        StateTracker { states: probe_map_new(), origin: instant_now() }
    }

    /// The tracker's clock: microseconds since it was made. What it reads
    /// depends on the time.
    pub fn clock_micros(&self) -> (r: u128) {
        let now = instant_now();
        duration_micros(duration_since(now, self.origin))
    }

    /// Notes a probe sent at `sent_at` (microseconds of the tracker's
    /// clock), with no retry yet; one noted before under the same key is
    /// replaced.
    pub fn track_probe_at(&mut self, target: IpAddr, target_port: u16, src_port: u16, sequence: u32, sent_at: u128)
        ensures
            final(self).entries() == old(self).entries().insert(
                probe_key(target, target_port, src_port),
                (sequence, src_port, sent_at, 0u32),
            ),
    {
        let state = ProbeState { sequence, src_port, sent_at, retries: 0 };
        let key = key_of(target, target_port, src_port);
        probe_map_insert(&mut self.states, key, state);
    }

    /// Notes a probe just sent, with no retry yet, at the time the clock
    /// reads; one noted before under the same key is replaced.
    pub fn track_probe(&mut self, target: IpAddr, target_port: u16, src_port: u16, sequence: u32)
        ensures
            exists|t: u128|
                final(self).entries() == #[trigger] old(self).entries().insert(
                    probe_key(target, target_port, src_port),
                    (sequence, src_port, t, 0u32),
                ),
    {
        let now = self.clock_micros();
        self.track_probe_at(target, target_port, src_port, sequence, now);
    }

    /// The probe noted under the key, if any.
    pub fn get_probe(&self, target: IpAddr, target_port: u16, src_port: u16) -> (r: Option<ProbeState>)
        ensures
            r is Some <==> self.entries().contains_key(probe_key(target, target_port, src_port)),
            r matches Some(p) ==> probe_model(p) == self.entries()[probe_key(target, target_port, src_port)],
    {
        let key = key_of(target, target_port, src_port);
        probe_map_get(&self.states, key)
    }

    /// Forgets the probe noted under the key.
    pub fn remove_probe(&mut self, target: IpAddr, target_port: u16, src_port: u16)
        ensures
            final(self).entries() == old(self).entries().remove(probe_key(target, target_port, src_port)),
    {
        let key = key_of(target, target_port, src_port);
        probe_map_remove(&mut self.states, key);
    }

    /// Forgets the probes that are `max_age_ms` milliseconds old or older
    /// at `now` (microseconds of the tracker's clock), and keeps the others
    /// as they were.
    pub fn cleanup_probes_at(&mut self, now: u128, max_age_ms: u64)
        ensures
            final(self).entries() == fresh_entries(old(self).entries(), now, max_age_ms),
    {
        probe_map_retain_fresh(&mut self.states, now, max_age_ms);
    }

    /// Forgets the probes that are `max_age_ms` milliseconds old or older
    /// at the time the clock reads, and keeps the others as they were. With
    /// no age allowed, every probe is forgotten.
    pub fn cleanup_old_probes(&mut self, max_age_ms: u64)
        ensures
            exists|now: u128| final(self).entries() == #[trigger] fresh_entries(old(self).entries(), now, max_age_ms),
            max_age_ms == 0 ==> final(self).entries() == no_probes(),
    {
        let now = self.clock_micros();
        self.cleanup_probes_at(now, max_age_ms);
        proof {
            lemma_no_age_forgets_all(old(self).entries(), now);
        }
    }

    /// How many probes are under way.
    pub fn active_probes(&self) -> (r: usize)
        ensures
            r == self.entries().len(),
    {
        probe_map_len(&self.states)
    }
}

impl Default for StateTracker {
    fn default() -> (r: Self)
        ensures
            r.entries() == no_probes(),
    {
        Self::new()
    }
}

/// A probe that was noted can be found under its key, with what was noted,
/// and noting it leaves the other probes as they were.
pub proof fn lemma_tracked_probe_found(
    before: Map<ProbeKey, ProbeModel>,
    target: IpAddr,
    target_port: u16,
    src_port: u16,
    sequence: u32,
    sent_at: u128,
    other: ProbeKey,
)
    ensures
        ({
            let k = probe_key(target, target_port, src_port);
            let after = before.insert(k, (sequence, src_port, sent_at, 0u32));
            &&& after.contains_key(k)
            &&& after[k] == (sequence, src_port, sent_at, 0u32)
            &&& other != k ==> (after.contains_key(other) == before.contains_key(other))
            &&& (other != k && before.contains_key(other)) ==> after[other] == before[other]
        }),
{
}

/// With no age allowed, a clean-up forgets every probe, whatever the clock
/// reads.
pub proof fn lemma_no_age_forgets_all(m: Map<ProbeKey, ProbeModel>, now: u128)
    ensures
        fresh_entries(m, now, 0) == no_probes(),
{
    assert(fresh_entries(m, now, 0) =~= no_probes());
}

/// A clean-up keeps exactly the probes younger than the age allowed, with
/// what was noted of them.
pub proof fn lemma_cleanup_keeps_fresh(m: Map<ProbeKey, ProbeModel>, now: u128, max_age_ms: u64, k: ProbeKey)
    ensures
        fresh_entries(m, now, max_age_ms).contains_key(k) <==> (m.contains_key(k) && is_fresh(now, m[k].2, max_age_ms)),
        fresh_entries(m, now, max_age_ms).contains_key(k) ==> fresh_entries(m, now, max_age_ms)[k] == m[k],
{
}

/// A probe that was removed is no longer found.
pub proof fn lemma_removed_probe_gone(
    before: Map<ProbeKey, ProbeModel>,
    target: IpAddr,
    target_port: u16,
    src_port: u16,
)
    ensures
        !before.remove(probe_key(target, target_port, src_port)).contains_key(probe_key(target, target_port, src_port)),
{
}

proof fn lemma_pow2_128()
    ensures
        pow2(128) == 0x1_0000_0000_0000_0000_0000_0000_0000_0000,
{
    lemma2_to64();
    lemma_pow2_adds(64, 64);
}

proof fn lemma_base256(a1: u8, b1: u8, c1: u8, d1: u8, a2: u8, b2: u8, c2: u8, d2: u8)
    by (bit_vector)
    requires
        (a1 as u64) * 0x1000000 + (b1 as u64) * 0x10000 + (c1 as u64) * 0x100 + (d1 as u64)
            == (a2 as u64) * 0x1000000 + (b2 as u64) * 0x10000 + (c2 as u64) * 0x100 + (d2 as u64),
    ensures
        a1 == a2 && b1 == b2 && c1 == c2 && d1 == d2,
{
}

proof fn lemma_digit_split(x: nat, dx: nat, y: nat, dy: nat)
    by (nonlinear_arith)
    requires
        dx < 0x10000,
        dy < 0x10000,
        x * 0x10000 + dx == y * 0x10000 + dy,
    ensures
        x == y,
        dx == dy,
{
}

proof fn lemma_segments_number_injective(s: Seq<u16>, t: Seq<u16>, n: nat)
    requires
        segments_number(s, n) == segments_number(t, n),
    ensures
        forall|i: int| 0 <= i < n ==> s[i] == t[i],
    decreases n,
{
    if n > 0 {
        lemma_digit_split(
            segments_number(s, (n - 1) as nat),
            s[n - 1] as nat,
            segments_number(t, (n - 1) as nat),
            t[n - 1] as nat,
        );
        lemma_segments_number_injective(s, t, (n - 1) as nat);
    }
}

proof fn lemma_address_number_injective(a: IpAddr, b: IpAddr)
    requires
        address_number(a) == address_number(b),
    ensures
        a == b,
{
    match (a, b) {
        (IpAddr::V4(x), IpAddr::V4(y)) => {
            lemma_base256(x.a, x.b, x.c, x.d, y.a, y.b, y.c, y.d);
            assert(x == y);
        },
        (IpAddr::V6(x), IpAddr::V6(y)) => {
            lemma_segments_number_bound(x.segments@, 8);
            lemma_segments_number_bound(y.segments@, 8);
            lemma_pow2_128();
            lemma_segments_number_injective(x.segments@, y.segments@, 8);
            assert(x.segments =~= y.segments);
            assert(x == y);
        },
        _ => {},
    }
}

/// Probes to different addresses, or from or to different ports, are held
/// under different keys.
pub proof fn lemma_probe_keys_distinct(a: IpAddr, b: IpAddr, pa: u16, pb: u16, sa: u16, sb: u16)
    requires
        a != b || pa != pb || sa != sb,
    ensures
        probe_key(a, pa, sa) != probe_key(b, pb, sb),
{
    if probe_key(a, pa, sa) == probe_key(b, pb, sb) {
        lemma_address_number_injective(a, b);
    }
}

} // verus!
