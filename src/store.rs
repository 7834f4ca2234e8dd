//! The transaction store: records keyed by the server transaction id, each
//! with a time to live, and a secondary index by ACS transaction id.
//!
//! `MemoryStore` keeps the records in memory, with time passed in as
//! seconds. It states the store's contract (time to live, `NotFound` on
//! update, lookup by ACS transaction id) and serves embedders and tests; the
//! server binary keeps its records in Redis instead, and shares with this
//! module only the key layout (`make_key`, `id_from_key`), the scan's
//! decision (`scan_match`) and the retry policy (`retry_delay_ms`). What is
//! proved of `MemoryStore` is not proved of that Redis store.
use crate::codec::{parse_uuid, uuid_parsed, uuid_text, uuid_to_text};
use crate::crypto::EphemeralKeyPair;
use crate::models::{AuthenticateRequest, ResultsRequest, SdkEphemeralPublicKey};
use std::collections::HashMap;
use vstd::prelude::*;

verus! {

broadcast use vstd::std_specs::hash::group_hash_axioms;

/// Everything kept about one authentication.
#[derive(Debug, Clone, PartialEq, Eq)]
pub struct TransactionData {
    pub authenticate_request: AuthenticateRequest,
    pub acs_trans_id: u128,
    pub ds_trans_id: u128,
    pub sdk_trans_id: Option<u128>,
    pub results_request: Option<ResultsRequest>,
    pub ephemeral_keys: Option<EphemeralKeyPair>,
    pub redirect_url: Option<String>,
    pub sdk_ephemeral_public_key: Option<SdkEphemeralPublicKey>,
}

/// Why a store operation failed.
#[derive(Debug, Clone, PartialEq, Eq)]
pub enum StateError {
    /// No live record under the key.
    NotFound,
    /// A record could not be written or read as JSON.
    Serialization(String),
    /// The key-value service reported an error.
    Redis(String),
    /// No connection could be taken from the pool.
    Pool(String),
    /// The connection pool could not be set up.
    Connection(String),
}

/// A stored record and the second at which it expires.
#[derive(Debug, Clone, PartialEq, Eq)]
pub struct StoreEntry {
    pub data: TransactionData,
    pub expires_at: u64,
}

/// How many times a store operation is tried.
pub const MAX_ATTEMPTS: u32 = 3;

/// Whether an error is worth another attempt: service and pool errors are.
pub open spec fn is_transient(e: StateError) -> bool {
    e is Redis || e is Pool
}

/// The pause before the next attempt, if any: 100 ms times the number of the
/// attempt that failed, for a transient error and while attempts remain.
pub open spec fn retry_delay(attempt: u32, e: StateError) -> Option<u64> {
    if is_transient(e) && 1 <= attempt < MAX_ATTEMPTS {
        Some((100 * attempt) as u64)
    } else {
        None
    }
}

/// Decides whether a failed attempt is retried, and after how many
/// milliseconds.
pub fn retry_delay_ms(attempt: u32, error: &StateError) -> (r: Option<u64>)
    ensures
        r == retry_delay(attempt, *error),
{
    let transient = match error {
        StateError::Redis(_) | StateError::Pool(_) => true,
        _ => false,
    };
    if transient && 1 <= attempt && attempt < MAX_ATTEMPTS {
        Some(100 * attempt as u64)
    } else {
        None
    }
}

/// The key of a record: `<prefix>:<server transaction id>`.
pub open spec fn record_key(prefix: Seq<char>, id: u128) -> Seq<char> {
    prefix + ":"@ + uuid_text(id)
}

/// Builds the key of a record.
pub fn make_key(prefix: &str, id: u128) -> (r: String)
    ensures
        r@ == record_key(prefix@, id),
{
    let mut k = prefix.to_string();
    k.append(":");
    let id_text = uuid_to_text(id);
    k.append(id_text.as_str());
    k
}

/// The server transaction id a key names, if it has the prefix.
pub open spec fn key_id(prefix: Seq<char>, key: Seq<char>) -> Option<u128> {
    let head = prefix + ":"@;
    if head.len() <= key.len() && key.subrange(0, head.len() as int) == head {
        uuid_parsed(key.subrange(head.len() as int, key.len() as int))
    } else {
        None
    }
}

/// Reads the server transaction id back out of a key.
pub fn id_from_key(prefix: &str, key: &str) -> (r: Option<u128>)
    ensures
        r == key_id(prefix@, key@),
{
    let mut head = prefix.to_string();
    head.append(":");
    let n = key.unicode_len();
    let h = head.as_str().unicode_len();
    if h > n {
        return None;
    }
    if !crate::codec::same_text(key.substring_char(0, h), head.as_str()) {
        return None;
    }
    parse_uuid(key.substring_char(h, n))
}

/// The server transaction id of a scanned record, when its key has the
/// prefix and the record carries the ACS transaction id sought.
pub fn scan_match(prefix: &str, key: &str, record: &TransactionData, acs_trans_id: u128) -> (r: Option<u128>)
    ensures
        r == (if record.acs_trans_id == acs_trans_id {
            key_id(prefix@, key@)
        } else {
            None
        }),
{
    if record.acs_trans_id != acs_trans_id {
        return None;
    }
    id_from_key(prefix, key)
}

/// The expiry of a record written at `now`: `now + ttl`, capped at the
/// largest time.
pub open spec fn expiry(now: u64, ttl: u64) -> u64 {
    if now + ttl > u64::MAX {
        u64::MAX
    } else {
        (now + ttl) as u64
    }
}

/// Whether an entry is still alive at a time.
pub open spec fn is_live(e: StoreEntry, now: u64) -> bool {
    now < e.expires_at
}

/// The record with its results set.
pub open spec fn with_results(t: TransactionData, rreq: ResultsRequest) -> TransactionData {
    TransactionData { results_request: Some(rreq), ..t }
}

/// An in-memory transaction store with TTL and an ACS transaction id index.
pub struct MemoryStore {
    records: HashMap<u128, StoreEntry>,
    by_acs_trans_id: HashMap<u128, u128>,
    ttl_seconds: u64,
}

impl MemoryStore {
    /// The entries, live or not, by server transaction id.
    pub closed spec fn entries(&self) -> Map<u128, StoreEntry> {
        self.records@
    }

    /// The index from ACS transaction id to server transaction id.
    pub closed spec fn index(&self) -> Map<u128, u128> {
        self.by_acs_trans_id@
    }

    /// The time to live of every write, in seconds.
    pub closed spec fn ttl(&self) -> u64 {
        self.ttl_seconds
    }

    /// The record under a key at a time: `None` once it has expired.
    pub open spec fn live_record(&self, k: u128, now: u64) -> Option<TransactionData> {
        if self.entries().contains_key(k) && is_live(self.entries()[k], now) {
            Some(self.entries()[k].data)
        } else {
            None
        }
    }

    /// What the secondary lookup finds: the record the index names for the
    /// ACS transaction id, if it is alive and still carries that id.
    pub open spec fn acs_lookup(&self, a: u128, now: u64) -> Option<(u128, TransactionData)> {
        if self.index().contains_key(a) {
            let k = self.index()[a];
            match self.live_record(k, now) {
                Some(v) => if v.acs_trans_id == a {
                    Some((k, v))
                } else {
                    None
                },
                None => None,
            }
        } else {
            None
        }
    }

    /// An empty store whose writes live for `ttl_seconds`.
    pub fn new(ttl_seconds: u64) -> (r: MemoryStore)
        ensures
            r.entries() == Map::<u128, StoreEntry>::empty(),
            r.index() == Map::<u128, u128>::empty(),
            r.ttl() == ttl_seconds,
    {
        MemoryStore { records: HashMap::new(), by_acs_trans_id: HashMap::new(), ttl_seconds }
    }

    /// Binds `k` to `v` at time `now`, replacing any record under `k`, with a
    /// fresh time to live; `v` becomes what its ACS transaction id finds.
    pub fn insert(&mut self, k: u128, v: TransactionData, now: u64)
        ensures
            final(self).entries() == old(self).entries().insert(
                k,
                StoreEntry { data: v, expires_at: expiry(now, old(self).ttl()) },
            ),
            final(self).index() == old(self).index().insert(v.acs_trans_id, k),
            final(self).ttl() == old(self).ttl(),
    {
        let expires_at = now.saturating_add(self.ttl_seconds);
        let a = v.acs_trans_id;
        self.records.insert(k, StoreEntry { data: v, expires_at });
        self.by_acs_trans_id.insert(a, k);
    }

    /// The record under `k` at time `now`, if it is alive.
    pub fn get(&self, k: u128, now: u64) -> (r: Option<&TransactionData>)
        ensures
            match r {
                Some(v) => self.live_record(k, now) == Some(*v),
                None => self.live_record(k, now) is None,
            },
    {
        match self.records.get(&k) {
            Some(e) => if now < e.expires_at {
                Some(&e.data)
            } else {
                None
            },
            None => None,
        }
    }

    /// Replaces the live record under `k`, refreshing its time to live;
    /// `NotFound` (and no change) when there is none.
    pub fn update(&mut self, k: u128, v: TransactionData, now: u64) -> (r: Result<(), StateError>)
        ensures
            old(self).live_record(k, now) is None ==> r == Err::<(), StateError>(StateError::NotFound)
                && final(self).entries() == old(self).entries() && final(self).index() == old(
                self,
            ).index(),
            old(self).live_record(k, now) is Some ==> r is Ok && final(self).entries() == old(
                self,
            ).entries().insert(k, StoreEntry { data: v, expires_at: expiry(now, old(self).ttl()) })
                && final(self).index() == old(self).index().insert(v.acs_trans_id, k),
            final(self).ttl() == old(self).ttl(),
    {
        let present = match self.records.get(&k) {
            Some(e) => now < e.expires_at,
            None => false,
        };
        if !present {
            return Err(StateError::NotFound);
        }
        self.insert(k, v, now);
        Ok(())
    }

    /// Finds the live record that carries an ACS transaction id, with its
    /// server transaction id.
    pub fn find_by_acs_trans_id(&self, acs_trans_id: u128, now: u64) -> (r: Option<(u128, &TransactionData)>)
        ensures
            match r {
                Some((k, v)) => self.acs_lookup(acs_trans_id, now) == Some((k, *v)),
                None => self.acs_lookup(acs_trans_id, now) is None,
            },
    {
        let k = match self.by_acs_trans_id.get(&acs_trans_id) {
            Some(k) => *k,
            None => return None,
        };
        match self.get(k, now) {
            Some(v) => if v.acs_trans_id == acs_trans_id {
                Some((k, v))
            } else {
                None
            },
            None => None,
        }
    }

    /// Sets the results of the live record under `k`, refreshing its time to
    /// live; `NotFound` (and no change) when there is none.
    pub fn set_results(&mut self, k: u128, rreq: ResultsRequest, now: u64) -> (r: Result<(), StateError>)
        ensures
            final(self).ttl() == old(self).ttl(),
            old(self).live_record(k, now) is None ==> r == Err::<(), StateError>(StateError::NotFound)
                && final(self).entries() == old(self).entries() && final(self).index() == old(
                self,
            ).index(),
            old(self).live_record(k, now) matches Some(t) ==> r is Ok && final(self).entries() == old(
                self,
            ).entries().insert(
                k,
                StoreEntry { data: with_results(t, rreq), expires_at: expiry(now, old(self).ttl()) },
            ) && final(self).index() == old(self).index().insert(t.acs_trans_id, k),
    {
        match self.records.remove(&k) {
            Some(e) => {
                if now < e.expires_at {
                    let mut data = e.data;
                    data.results_request = Some(rreq);
                    self.insert(k, data, now);
                    Ok(())
                } else {
                    self.records.insert(k, e);
                    assert(self.records@ =~= old(self).records@);
                    Err(StateError::NotFound)
                }
            },
            None => Err(StateError::NotFound),
        }
    }
}

/// After `insert(k, v)` at time `t0`: `get(k)` gives `v` until the time to
/// live has elapsed and nothing from then on, and while `v` lives its ACS
/// transaction id finds `(k, v)`.
pub proof fn lemma_insert_then_read(before: MemoryStore, after: MemoryStore, k: u128, v: TransactionData, t0: u64, t: u64)
    requires
        after.entries() == before.entries().insert(
            k,
            StoreEntry { data: v, expires_at: expiry(t0, before.ttl()) },
        ),
        after.index() == before.index().insert(v.acs_trans_id, k),
    ensures
        t < expiry(t0, before.ttl()) ==> after.live_record(k, t) == Some(v),
        t < expiry(t0, before.ttl()) ==> after.acs_lookup(v.acs_trans_id, t) == Some((k, v)),
        t >= expiry(t0, before.ttl()) ==> after.live_record(k, t) is None,
{
}

} // verus!
