//! Nonce-based challenge-response authentication with time-based expiry.
//!
//! [`Nonce`] is a one-off random challenge that expires. [`NonceStore`] is the
//! server-side bookkeeping that prevents replay: every issued nonce is
//! recorded, and [`NonceStore::consume`] refuses bytes that were never issued or
//! were presented before. Expired entries are lazily pruned on the next
//! [`NonceStore::consume`] or [`NonceStore::cleanup_expired`] call.
//! [`SharedNonceStore`] is a store that tasks share.

use dashmap::DashMap;
use std::sync::Arc;
use std::time::{Duration, Instant};
use vstd::prelude::*;
use vstd::rwlock::{RwLock, RwLockPredicate};

use super::error::{CryptoError, CryptoResult};
use super::primitives::random_32;
use crate::time;

verus! {

broadcast use vstd::array::group_array_axioms;

/// Bytes of a nonce.
pub const NONCE_SIZE: usize = 32;

/// How long a nonce lives, in seconds.
pub const NONCE_EXPIRY_SECS: u64 = 30;

/// Whether something of the given age has outlived `ttl`, both in nanoseconds.
pub open spec fn outlived(age: nat, ttl: nat) -> bool {
    age > ttl
}

/// A random nonce with 30-second expiry for challenge-response protocols.
pub struct Nonce {
    bytes: [u8; 32],
    created_at: Instant,
}

impl View for Nonce {
    type V = Seq<u8>;

    closed spec fn view(&self) -> Seq<u8> {
        self.bytes@
    }
}

/// Whether a nonce of the given age in nanoseconds is past its expiry.
pub open spec fn is_past_expiry(age: nat) -> bool {
    outlived(age, (NONCE_EXPIRY_SECS * time::NANOS_PER_SEC) as nat)
}

/// What checking a nonce of the given age in nanoseconds gives.
pub open spec fn age_verdict(age: nat) -> CryptoResult<()> {
    if is_past_expiry(age) {
        Err(CryptoError::NonceExpired)
    } else {
        Ok(())
    }
}

/// Refuses the age of a nonce that is past its expiry.
pub fn check_age(age: Duration) -> (r: CryptoResult<()>)
    ensures
        r == age_verdict(time::nanos(age)),
{
    let limit = Duration::from_secs(NONCE_EXPIRY_SECS);
    if age.as_nanos() > limit.as_nanos() {
        return Err(CryptoError::NonceExpired);
    }
    Ok(())
}

impl Nonce {
    /// When the nonce was made.
    pub closed spec fn created(&self) -> Instant {
        self.created_at
    }

    /// Generates a new random 32-byte nonce with current timestamp.
    pub fn generate() -> (nonce: Self)
        ensures
            nonce@.len() == NONCE_SIZE,
    {
        Nonce { bytes: random_32(), created_at: Instant::now() }
    }

    /// Returns a reference to the nonce bytes.
    pub fn as_bytes(&self) -> (bytes: &[u8; 32])
        ensures
            bytes@ == self@,
    {
        &self.bytes
    }

    /// Checks if the nonce is still valid (not expired): [`Nonce::validate_at`]
    /// the present time.
    pub fn validate(&self) -> (r: CryptoResult<()>)
        ensures
            exists|now: Instant|
                r == age_verdict(#[trigger] time::nanos_between(now, self.created())),
    {
        let now = Instant::now();
        self.validate_at(&now)
    }

    /// Checks if the nonce is still valid at the given time. It is when it is made.
    pub fn validate_at(&self, now: &Instant) -> (r: CryptoResult<()>)
        ensures
            r == age_verdict(time::nanos_between(*now, self.created())),
            *now == self.created() ==> r == Ok::<(), CryptoError>(()),
    {
        check_age(now.saturating_duration_since(self.created_at))
    }

    /// Returns true if the nonce has expired (older than 30 seconds).
    pub fn is_expired(&self) -> (expired: bool)
        ensures
            exists|now: Instant|
                expired == is_past_expiry(#[trigger] time::nanos_between(now, self.created())),
    {
        let now = Instant::now();
        self.validate_at(&now).is_err()
    }
}

/// A concurrent hash map.
#[verifier::external_type_specification]
#[verifier::external_body]
#[verifier::reject_recursive_types(K)]
#[verifier::reject_recursive_types(V)]
#[verifier::reject_recursive_types(S)]
pub struct ExDashMap<K, V, S>(DashMap<K, V, S>);

/// What a map of nonces holds: the bytes of each nonce, and when it was issued.
pub uninterp spec fn nonce_entries(map: DashMap<[u8; 32], u128>) -> Map<Seq<u8>, u128>;

/// `DashMap::new`: an empty map.
#[verifier::external_body]
fn map_new() -> (made: DashMap<[u8; 32], u128>)
    ensures
        forall|key: Seq<u8>| !nonce_entries(made).contains_key(key),
{
    DashMap::new()
}

/// `DashMap::insert`: the key now has the value, other keys keep theirs.
#[verifier::external_body]
fn map_insert(map: &mut DashMap<[u8; 32], u128>, key: [u8; 32], value: u128)
    ensures
        nonce_entries(*final(map)) == nonce_entries(*old(map)).insert(key@, value),
{
    map.insert(key, value);
}

/// `DashMap::remove`: the value that the key had, and the map without the key.
#[verifier::external_body]
fn map_remove(map: &mut DashMap<[u8; 32], u128>, key: &[u8; 32]) -> (value: Option<u128>)
    ensures
        nonce_entries(*final(map)) == nonce_entries(*old(map)).remove(key@),
        value == (if nonce_entries(*old(map)).contains_key(key@) {
            Some(nonce_entries(*old(map))[key@])
        } else {
            None
        }),
{
    map.remove(key).map(|entry| entry.1)
}

/// `DashMap::iter`: every entry once, in an order that is left open.
#[verifier::external_body]
fn map_entries(map: &DashMap<[u8; 32], u128>) -> (entries: Vec<([u8; 32], u128)>)
    ensures
        forall|i: int|
            0 <= i < entries@.len() ==> nonce_entries(*map).contains_pair(
                (#[trigger] entries@[i]).0@,
                entries@[i].1,
            ),
        forall|key: Seq<u8>| #[trigger]
            nonce_entries(*map).contains_key(key) ==> exists|i: int|
                0 <= i < entries@.len() && (#[trigger] entries@[i]).0@ == key,
        forall|i: int, j: int|
            0 <= i < j < entries@.len() ==> (#[trigger] entries@[i]).0@ != (
            #[trigger] entries@[j]).0@,
{
    map.iter().map(|entry| (*entry.key(), *entry.value())).collect()
}

/// `DashMap::len`: the number of entries.
#[verifier::external_body]
fn map_len(map: &DashMap<[u8; 32], u128>) -> (n: usize)
    ensures
        n == nonce_entries(*map).len(),
{
    map.len()
}

/// The entries of `issued` that have not outlived `ttl` at `now`.
pub open spec fn unexpired(issued: Map<Seq<u8>, u128>, ttl: nat, now: u128) -> Map<Seq<u8>, u128> {
    Map::new(
        |key: Seq<u8>| issued.contains_key(key) && !outlived(age_at(issued[key], now), ttl),
        |key: Seq<u8>| issued[key],
    )
}

/// The age at `now` of what was issued at `issued`; zero if the clock ran back.
pub open spec fn age_at(issued: u128, now: u128) -> nat {
    if now > issued {
        (now - issued) as nat
    } else {
        0
    }
}

/// Server-side replay-protection store for challenge nonces.
///
/// `issue()` returns a fresh nonce and records it; `consume()` removes the
/// nonce from the store, refusing the request if the nonce was never issued,
/// has already been consumed, or has expired.
pub struct NonceStore {
    issued: DashMap<[u8; 32], u128>,
    ttl: Duration,
    origin: Instant,
}

impl View for NonceStore {
    type V = Map<Seq<u8>, u128>;

    /// The nonces that wait to be consumed, with the time of their issue in
    /// nanoseconds since the store was made.
    closed spec fn view(&self) -> Map<Seq<u8>, u128> {
        nonce_entries(self.issued)
    }
}

impl Default for NonceStore {
    fn default() -> (store: Self)
        ensures
            store@ == Map::<Seq<u8>, u128>::empty(),
            store.ttl_nanos() == NONCE_EXPIRY_SECS * time::NANOS_PER_SEC,
    {
        NonceStore::new(Duration::from_secs(NONCE_EXPIRY_SECS))
    }
}

impl NonceStore {
    /// How long a nonce of this store lives, in nanoseconds.
    pub closed spec fn ttl_nanos(&self) -> nat {
        time::nanos(self.ttl)
    }

    /// When the store was made.
    pub closed spec fn origin(&self) -> Instant {
        self.origin
    }

    /// Whether some reading of the clock is so many nanoseconds after the store
    /// was made.
    pub open spec fn is_reading(&self, now: u128) -> bool {
        exists|t: Instant| now == #[trigger] time::nanos_between(t, self.origin())
    }

    /// When a nonce was made, in nanoseconds since the store was made.
    pub open spec fn stamp_of(&self, nonce: Nonce) -> u128 {
        time::nanos_between(nonce.created(), self.origin()) as u128
    }

    /// Whether nonces live as long as in `other`, and from the same origin.
    pub open spec fn same_clock(&self, other: &Self) -> bool {
        self.ttl_nanos() == other.ttl_nanos() && self.origin() == other.origin()
    }

    /// Build a store with a custom expiry. Use [`NonceStore::default`] for the
    /// 30-second default.
    pub fn new(ttl: Duration) -> (store: Self)
        ensures
            store@ == Map::<Seq<u8>, u128>::empty(),
            store.ttl_nanos() == time::nanos(ttl),
    {
        let issued = map_new();
        assert(nonce_entries(issued) =~= Map::<Seq<u8>, u128>::empty());
        NonceStore { issued, ttl, origin: Instant::now() }
    }

    /// The nanoseconds since the store was made.
    fn clock(&self) -> (now: u128)
        ensures
            self.is_reading(now),
    {
        let present = Instant::now();
        let now: u128 = present.saturating_duration_since(self.origin).as_nanos();
        assert(now == time::nanos_between(present, self.origin()));
        now
    }

    fn record(&mut self, nonce: &Nonce, stamp: u128)
        ensures
            final(self)@ == old(self)@.insert(nonce@, stamp),
            final(self).same_clock(old(self)),
    {
        map_insert(&mut self.issued, nonce.bytes, stamp);
    }

    /// Generate, record, and return a new nonce. Its life starts when it is made.
    pub fn issue(&mut self) -> (nonce: Nonce)
        ensures
            nonce@.len() == NONCE_SIZE,
            final(self)@ == old(self)@.insert(nonce@, old(self).stamp_of(nonce)),
            final(self).same_clock(old(self)),
    {
        let nonce = Nonce::generate();
        let stamp: u128 = nonce.created_at.saturating_duration_since(self.origin).as_nanos();
        self.record(&nonce, stamp);
        nonce
    }

    /// [`NonceStore::issue`] at the given time, in nanoseconds since the store was
    /// made.
    pub fn issue_at(&mut self, now: u128) -> (nonce: Nonce)
        ensures
            nonce@.len() == NONCE_SIZE,
            final(self)@ == old(self)@.insert(nonce@, now),
            final(self).same_clock(old(self)),
    {
        let nonce = Nonce::generate();
        self.record(&nonce, now);
        nonce
    }

    /// Remove a nonce from the store, validating it was issued and has not yet
    /// expired. Other entries that have expired are pruned.
    ///
    /// Returns `CryptoError::NonceReused` if the nonce was never issued or
    /// was already consumed, and `CryptoError::NonceExpired` if it lived too
    /// long.
    pub fn consume(&mut self, bytes: &[u8; 32]) -> (r: CryptoResult<()>)
        ensures
            final(self).same_clock(old(self)),
            r == Err::<(), CryptoError>(CryptoError::NonceReused) <==> !old(self)@.contains_key(
                bytes@,
            ),
            exists|now: u128| #[trigger]
                old(self).is_reading(now) && r == consumed(
                    old(self)@,
                    old(self).ttl_nanos(),
                    bytes@,
                    now,
                ) && final(self)@ == unexpired(
                    old(self)@.remove(bytes@),
                    old(self).ttl_nanos(),
                    now,
                ),
    {
        let now: u128 = self.clock();
        self.consume_at(bytes, now)
    }

    /// [`NonceStore::consume`] at the given time, in nanoseconds since the store
    /// was made.
    pub fn consume_at(&mut self, bytes: &[u8; 32], now: u128) -> (r: CryptoResult<()>)
        ensures
            final(self)@ == unexpired(old(self)@.remove(bytes@), old(self).ttl_nanos(), now),
            final(self).same_clock(old(self)),
            r == consumed(old(self)@, old(self).ttl_nanos(), bytes@, now),
    {
        let found = map_remove(&mut self.issued, bytes);
        let _ = self.cleanup_at(now);
        match found {
            None => Err(CryptoError::NonceReused),
            Some(issued_at) => {
                if now.saturating_sub(issued_at) > self.ttl.as_nanos() {
                    Err(CryptoError::NonceExpired)
                } else {
                    Ok(())
                }
            },
        }
    }

    /// Drop entries that have aged past the TTL, and return how many there
    /// were. Safe to call periodically; not required for correctness.
    pub fn cleanup_expired(&mut self) -> (removed: usize)
        ensures
            exists|now: u128| #[trigger]
                old(self).is_reading(now) && final(self)@ == unexpired(
                    old(self)@,
                    old(self).ttl_nanos(),
                    now,
                ),
            final(self).same_clock(old(self)),
            final(self)@.len() + removed == old(self)@.len(),
    {
        let now: u128 = self.clock();
        self.cleanup_at(now)
    }

    /// [`NonceStore::cleanup_expired`] at the given time, in nanoseconds since
    /// the store was made.
    pub fn cleanup_at(&mut self, now: u128) -> (removed: usize)
        ensures
            final(self)@ == unexpired(old(self)@, old(self).ttl_nanos(), now),
            final(self).same_clock(old(self)),
            final(self)@.len() + removed == old(self)@.len(),
    {
        let entries = map_entries(&self.issued);
        let ttl: u128 = self.ttl.as_nanos();
        let ghost before = nonce_entries(self.issued);
        proof {
            let keys = entries@.map_values(|e: ([u8; 32], u128)| e.0@);
            assert forall|key: Seq<u8>| before.contains_key(key) implies keys.contains(key) by {
                let i = choose|i: int| 0 <= i < entries@.len() && (#[trigger] entries@[i]).0@ == key;
                assert(keys[i] == key);
            }
            assert(before.dom() =~= keys.to_set());
            vstd::seq_lib::seq_to_set_is_finite(keys);
        }
        let mut removed: usize = 0;
        let mut i: usize = 0;
        while i < entries.len()
            invariant
                i <= entries@.len(),
                before == old(self)@,
                ttl == time::nanos(self.ttl),
                self.ttl == old(self).ttl,
                self.origin == old(self).origin,
                before.dom().finite(),
                removed <= i,
                removed + nonce_entries(self.issued).len() == before.len(),
                nonce_entries(self.issued).dom().finite(),
                nonce_entries(self.issued).submap_of(before),
                forall|j: int|
                    0 <= j < entries@.len() ==> before.contains_pair(
                        (#[trigger] entries@[j]).0@,
                        entries@[j].1,
                    ),
                forall|key: Seq<u8>| #[trigger]
                    before.contains_key(key) ==> exists|j: int|
                        0 <= j < entries@.len() && (#[trigger] entries@[j]).0@ == key,
                forall|j: int, k: int|
                    0 <= j < k < entries@.len() ==> (#[trigger] entries@[j]).0@ != (
                    #[trigger] entries@[k]).0@,
                forall|j: int|
                    0 <= j < i ==> (nonce_entries(self.issued).contains_key(
                        (#[trigger] entries@[j]).0@,
                    ) <==> !outlived(age_at(entries@[j].1, now), ttl as nat)),
                forall|j: int|
                    i <= j < entries@.len() ==> nonce_entries(self.issued).contains_key(
                        (#[trigger] entries@[j]).0@,
                    ),
            decreases entries@.len() - i,
        {
            let key = entries[i].0;
            let issued_at: u128 = entries[i].1;
            if now.saturating_sub(issued_at) > ttl {
                let _ = map_remove(&mut self.issued, &key);
                removed = removed + 1;
            }
            i = i + 1;
        }
        proof {
            assert(nonce_entries(self.issued) =~= unexpired(before, ttl as nat, now));
        }
        removed
    }

    /// Current size for tests / metrics.
    pub fn pending(&self) -> (n: usize)
        ensures
            n == self@.len(),
    {
        map_len(&self.issued)
    }
}

/// What stays true of a shared store: how long its nonces live, and since when
/// it counts the time.
pub struct LivesFor {
    /// The time to live, in nanoseconds.
    pub ttl: Ghost<nat>,
    /// When the store was made.
    pub origin: Ghost<Instant>,
}

impl RwLockPredicate<NonceStore> for LivesFor {
    open spec fn inv(self, store: NonceStore) -> bool {
        store.ttl_nanos() == self.ttl@ && store.origin() == self.origin@
    }
}

/// A handle on a [`NonceStore`] that tasks share: clones reach the same store,
/// one at a time. Between two calls on one handle another may change the store.
#[derive(Clone)]
pub struct SharedNonceStore {
    store: Arc<RwLock<NonceStore, LivesFor>>,
}

impl SharedNonceStore {
    /// How long a nonce of the shared store lives, in nanoseconds.
    pub closed spec fn ttl_nanos(&self) -> nat {
        self.store.pred().ttl@
    }

    /// When the shared store was made.
    pub closed spec fn origin(&self) -> Instant {
        self.store.pred().origin@
    }

    /// Share `store`.
    pub fn new(store: NonceStore) -> (shared: Self)
        ensures
            shared.ttl_nanos() == store.ttl_nanos(),
            shared.origin() == store.origin(),
    {
        let pred: Ghost<LivesFor> = Ghost(
            LivesFor { ttl: Ghost(store.ttl_nanos()), origin: Ghost(store.origin()) },
        );
        SharedNonceStore { store: Arc::new(RwLock::new(store, pred)) }
    }

    /// [`NonceStore::issue`] on the shared store.
    pub fn issue(&self) -> (nonce: Nonce)
        ensures
            nonce@.len() == NONCE_SIZE,
    {
        let (mut store, handle) = self.store.acquire_write();
        let nonce = store.issue();
        handle.release_write(store);
        nonce
    }

    /// [`NonceStore::consume`] on the shared store, whatever it holds by then.
    pub fn consume(&self, bytes: &[u8; 32]) -> (r: CryptoResult<()>)
        ensures
            exists|issued: Map<Seq<u8>, u128>, t: Instant|
                r == #[trigger] consumed(
                    issued,
                    self.ttl_nanos(),
                    bytes@,
                    time::nanos_between(t, self.origin()) as u128,
                ),
    {
        let (mut store, handle) = self.store.acquire_write();
        let ghost found = store;
        let r = store.consume(bytes);
        proof {
            let now = choose|now: u128| #[trigger]
                found.is_reading(now) && r == consumed(found@, found.ttl_nanos(), bytes@, now);
            let t = choose|t: Instant| now == #[trigger] time::nanos_between(t, found.origin());
            assert(r == consumed(
                found@,
                self.ttl_nanos(),
                bytes@,
                time::nanos_between(t, self.origin()) as u128,
            ));
        }
        handle.release_write(store);
        r
    }

    /// [`NonceStore::cleanup_expired`] on the shared store.
    pub fn cleanup_expired(&self) -> (removed: usize) {
        let (mut store, handle) = self.store.acquire_write();
        let removed: usize = store.cleanup_expired();
        handle.release_write(store);
        removed
    }

    /// [`NonceStore::pending`] on the shared store.
    pub fn pending(&self) -> usize {
        let (store, handle) = self.store.acquire_write();
        let n: usize = store.pending();
        handle.release_write(store);
        n
    }
}

/// What presenting `bytes` at `now` gives, where `issued` waits to be consumed.
pub open spec fn consumed(
    issued: Map<Seq<u8>, u128>,
    ttl: nat,
    bytes: Seq<u8>,
    now: u128,
) -> CryptoResult<()> {
    if !issued.contains_key(bytes) {
        Err(CryptoError::NonceReused)
    } else if outlived(age_at(issued[bytes], now), ttl) {
        Err(CryptoError::NonceExpired)
    } else {
        Ok(())
    }
}

/// An issued nonce is accepted when it is first presented, unless it has lived
/// too long by then.
pub proof fn issued_is_accepted(
    issued: Map<Seq<u8>, u128>,
    ttl: nat,
    bytes: Seq<u8>,
    stamp: u128,
    now: u128,
)
    ensures
        consumed(issued.insert(bytes, stamp), ttl, bytes, now) == (if outlived(
            age_at(stamp, now),
            ttl,
        ) {
            Err::<(), CryptoError>(CryptoError::NonceExpired)
        } else {
            Ok(())
        }),
{
}

/// What happens to a store of nonces, times in nanoseconds since it was made.
pub enum NonceEvent {
    /// A nonce is recorded as issued at a time.
    Issued { bytes: Seq<u8>, stamp: u128 },
    /// Bytes are presented at a time.
    Presented { bytes: Seq<u8>, now: u128 },
    /// The store is cleaned up at a time.
    CleanedUp { now: u128 },
}

/// What waits to be consumed after an event.
pub open spec fn after_event(
    issued: Map<Seq<u8>, u128>,
    ttl: nat,
    event: NonceEvent,
) -> Map<Seq<u8>, u128> {
    match event {
        NonceEvent::Issued { bytes, stamp } => issued.insert(bytes, stamp),
        NonceEvent::Presented { bytes, now } => unexpired(issued.remove(bytes), ttl, now),
        NonceEvent::CleanedUp { now } => unexpired(issued, ttl, now),
    }
}

/// What waits to be consumed after events, one after the other.
pub open spec fn after_all(
    issued: Map<Seq<u8>, u128>,
    ttl: nat,
    events: Seq<NonceEvent>,
) -> Map<Seq<u8>, u128>
    decreases events.len(),
{
    if events.len() == 0 {
        issued
    } else {
        after_event(after_all(issued, ttl, events.drop_last()), ttl, events.last())
    }
}

/// Whether an event issues these bytes.
pub open spec fn issues(event: NonceEvent, bytes: Seq<u8>) -> bool {
    event matches NonceEvent::Issued { bytes: issued, .. } && issued == bytes
}

/// Whether an event neither issues nor presents these bytes, and prunes nothing
/// that would still be alive at `now`.
pub open spec fn leaves_until(event: NonceEvent, bytes: Seq<u8>, now: u128) -> bool {
    match event {
        NonceEvent::Issued { bytes: issued, .. } => issued != bytes,
        NonceEvent::Presented { bytes: presented, now: at } => presented != bytes && at <= now,
        NonceEvent::CleanedUp { now: at } => at <= now,
    }
}

/// The life of a nonce: from its issue on, and whatever other nonces are issued or
/// presented and however often the store is cleaned up in between, it is accepted
/// when it is first presented exactly if it has not lived too long by then.
pub proof fn issued_lives_on(
    issued: Map<Seq<u8>, u128>,
    ttl: nat,
    bytes: Seq<u8>,
    stamp: u128,
    events: Seq<NonceEvent>,
    now: u128,
)
    requires
        forall|i: int|
            0 <= i < events.len() ==> leaves_until(#[trigger] events[i], bytes, now),
    ensures
        consumed(after_all(issued.insert(bytes, stamp), ttl, events), ttl, bytes, now) is Ok
            == !outlived(age_at(stamp, now), ttl),
        !outlived(age_at(stamp, now), ttl) ==> after_all(
            issued.insert(bytes, stamp),
            ttl,
            events,
        ).contains_pair(bytes, stamp),
        after_all(issued.insert(bytes, stamp), ttl, events).contains_key(bytes) ==> after_all(
            issued.insert(bytes, stamp),
            ttl,
            events,
        )[bytes] == stamp,
    decreases events.len(),
{
    if events.len() > 0 {
        let front = events.drop_last();
        assert forall|i: int| 0 <= i < front.len() implies leaves_until(
            #[trigger] front[i],
            bytes,
            now,
        ) by {
            assert(front[i] == events[i]);
        }
        issued_lives_on(issued, ttl, bytes, stamp, front, now);
        assert(events.last() == events[events.len() - 1]);
    }
}

/// A nonce is accepted at most once: whatever presenting it first gave, it is
/// refused as reused from then on, until it is issued again. Whatever other nonces
/// are issued, whatever is presented, and however often the store is cleaned up in
/// between, it does not come back.
pub proof fn consumed_once(
    issued: Map<Seq<u8>, u128>,
    ttl: nat,
    bytes: Seq<u8>,
    now: u128,
    events: Seq<NonceEvent>,
    later: u128,
)
    requires
        forall|i: int| 0 <= i < events.len() ==> !issues(#[trigger] events[i], bytes),
    ensures
        consumed(
            after_all(unexpired(issued.remove(bytes), ttl, now), ttl, events),
            ttl,
            bytes,
            later,
        ) == Err::<(), CryptoError>(CryptoError::NonceReused),
    decreases events.len(),
{
    if events.len() > 0 {
        let front = events.drop_last();
        assert forall|i: int| 0 <= i < front.len() implies !issues(#[trigger] front[i], bytes) by {
            assert(front[i] == events[i]);
        }
        consumed_once(issued, ttl, bytes, now, front, later);
        assert(events.last() == events[events.len() - 1]);
    }
}

/// A nonce that was never issued is refused as reused, whatever happened to the
/// store since it was made.
pub proof fn never_issued_is_refused(
    ttl: nat,
    bytes: Seq<u8>,
    events: Seq<NonceEvent>,
    now: u128,
)
    requires
        forall|i: int| 0 <= i < events.len() ==> !issues(#[trigger] events[i], bytes),
    ensures
        consumed(after_all(Map::empty(), ttl, events), ttl, bytes, now) == Err::<(), CryptoError>(
            CryptoError::NonceReused,
        ),
{
    let empty = Map::<Seq<u8>, u128>::empty();
    assert(unexpired(empty.remove(bytes), ttl, now) =~= empty);
    consumed_once(empty, ttl, bytes, now, events, now);
}

/// Consuming an issued nonce lowers the number of those that wait by one, where
/// no other has outlived its time.
pub proof fn consume_lowers_pending(
    issued: Map<Seq<u8>, u128>,
    ttl: nat,
    bytes: Seq<u8>,
    now: u128,
)
    requires
        issued.dom().finite(),
        issued.contains_key(bytes),
        forall|other: Seq<u8>|
            other != bytes && #[trigger] issued.contains_key(other) ==> !outlived(
                age_at(issued[other], now),
                ttl,
            ),
    ensures
        unexpired(issued.remove(bytes), ttl, now).len() + 1 == issued.len(),
{
    assert(unexpired(issued.remove(bytes), ttl, now) =~= issued.remove(bytes));
    assert(issued.remove(bytes).dom() =~= issued.dom().remove(bytes));
}

/// Consuming one nonce leaves every other as it was: one that is accepted later
/// without it is accepted after it, and at no time is one accepted after it that
/// would not be without it.
pub proof fn consume_leaves_others(
    issued: Map<Seq<u8>, u128>,
    ttl: nat,
    bytes: Seq<u8>,
    other: Seq<u8>,
    now: u128,
    later: u128,
)
    requires
        bytes != other,
        now <= later,
    ensures
        consumed(unexpired(issued.remove(bytes), ttl, now), ttl, other, later) is Ok == (consumed(
            issued,
            ttl,
            other,
            later,
        ) is Ok),
{
}

/// Consuming prunes: no entry that has outlived its time stays.
pub proof fn consume_prunes(
    issued: Map<Seq<u8>, u128>,
    ttl: nat,
    bytes: Seq<u8>,
    other: Seq<u8>,
    now: u128,
)
    requires
        issued.contains_key(other),
        outlived(age_at(issued[other], now), ttl),
    ensures
        !unexpired(issued.remove(bytes), ttl, now).contains_key(other),
{
}

/// Cleaning up changes no acceptance: a nonce is accepted after it exactly when
/// it would have been accepted without it, at any later time.
pub proof fn cleanup_keeps_acceptance(
    issued: Map<Seq<u8>, u128>,
    ttl: nat,
    bytes: Seq<u8>,
    cleaned_at: u128,
    now: u128,
)
    requires
        cleaned_at <= now,
    ensures
        consumed(unexpired(issued, ttl, cleaned_at), ttl, bytes, now) is Ok == (consumed(
            issued,
            ttl,
            bytes,
            now,
        ) is Ok),
{
}

/// A nonce lives for thirty seconds, the last moment included: it is good up to then and
/// expired from then on.
pub proof fn nonces_live_thirty_seconds(age: nat)
    ensures
        age <= 30000000000 ==> age_verdict(age) == Ok::<(), CryptoError>(()) && !is_past_expiry(age),
        age > 30000000000 ==> age_verdict(age) == Err::<(), CryptoError>(CryptoError::NonceExpired)
            && is_past_expiry(age),
{
}

/// What presenting bytes gives: nothing that waits is refused unless it has lived longer
/// than it may, and nothing that does not wait is accepted. A clock that ran back makes
/// nothing older.
pub proof fn presenting_is_judged_by_age(
    issued: Map<Seq<u8>, u128>,
    ttl: nat,
    bytes: Seq<u8>,
    now: u128,
)
    ensures
        !issued.contains_key(bytes) ==> consumed(issued, ttl, bytes, now) == Err::<(), CryptoError>(
            CryptoError::NonceReused,
        ),
        issued.contains_key(bytes) && now <= issued[bytes] + ttl ==> consumed(
            issued,
            ttl,
            bytes,
            now,
        ) == Ok::<(), CryptoError>(()),
        issued.contains_key(bytes) && now > issued[bytes] + ttl ==> consumed(
            issued,
            ttl,
            bytes,
            now,
        ) == Err::<(), CryptoError>(CryptoError::NonceExpired),
{
}

/// Pruning keeps exactly the entries that have not lived longer than they may, each with
/// its time.
pub proof fn pruning_keeps_the_living(
    issued: Map<Seq<u8>, u128>,
    ttl: nat,
    now: u128,
    bytes: Seq<u8>,
)
    ensures
        unexpired(issued, ttl, now).contains_key(bytes) <==> issued.contains_key(bytes) && now
            <= issued[bytes] + ttl,
        unexpired(issued, ttl, now).contains_key(bytes) ==> unexpired(issued, ttl, now)[bytes]
            == issued[bytes],
{
}

} // verus!
