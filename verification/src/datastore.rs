//! The UE state store: a map from UE key to state in which every entry
//! lives for a time that its writer sets. This is the in-memory backend;
//! the caller reads the clock and passes the time in seconds.

use crate::table::KeyedTable;
use vstd::prelude::*;

verus! {

/// One tunnel of a PDU session, by its bearer.
#[derive(Debug, Clone, PartialEq, Eq)]
pub struct DrbState {
    pub drb_id: u8,
    pub uplink_teid: [u8; 4],
    pub downlink_teid: Option<[u8; 4]>,
}

/// What the selected security algorithms and the key are.
#[derive(Debug, Clone, PartialEq, Eq)]
pub struct SecurityContext {
    pub ciphering_algorithm: u8,
    pub integrity_algorithm: u8,
    pub key: Vec<u8>,
}

/// What a worker keeps of a UE between signalling turns.
#[derive(Debug, Clone, PartialEq, Eq)]
pub struct UeState {
    /// The CU's identifier of the UE on F1, which is also its key here.
    pub key: u32,
    pub gnb_du_ue_f1ap_id: u32,
    pub amf_ue_ngap_id: Option<u64>,
    pub security: Option<SecurityContext>,
    pub drbs: Vec<DrbState>,
}

impl UeState {
    /// The state of a UE that has just asked for a connection.
    pub fn new(key: u32, gnb_du_ue_f1ap_id: u32) -> (ue: UeState)
        ensures
            ue.key == key,
            ue.gnb_du_ue_f1ap_id == gnb_du_ue_f1ap_id,
            ue.amf_ue_ngap_id is None,
            ue.security is None,
            ue.drbs@ == Seq::<DrbState>::empty(),
    {
        UeState { key, gnb_du_ue_f1ap_id, amf_ue_ngap_id: None, security: None, drbs: Vec::new() }
    }
}

#[derive(Debug, Clone, Copy, PartialEq, Eq, Structural)]
pub enum StoreError {
    NotFound,
}

/// A stored value and the second from which it is no longer there.
pub struct Entry<T> {
    pub value: T,
    pub expires_at: u128,
}

/// The second from which a value written at `now` to live `ttl_secs` is no
/// longer there.
pub open spec fn expiry(now: u64, ttl_secs: usize) -> u128 {
    (now + ttl_secs) as u128
}

/// The entries after `value` is written under `k` at `now`.
pub open spec fn stored<T>(
    entries: Map<u32, Entry<T>>,
    k: u32,
    value: T,
    ttl_secs: usize,
    now: u64,
) -> Map<u32, Entry<T>> {
    entries.insert(k, (Entry { value, expires_at: expiry(now, ttl_secs) }))
}

/// What a reader of `k` gets at `now`.
pub open spec fn lookup<T>(entries: Map<u32, Entry<T>>, k: u32, now: u64) -> Result<
    T,
    StoreError,
> {
    if entries.contains_key(k) && now < entries[k].expires_at {
        Ok(entries[k].value)
    } else {
        Err(StoreError::NotFound)
    }
}

/// The entries after `k` is deleted.
pub open spec fn deleted<T>(entries: Map<u32, Entry<T>>, k: u32) -> Map<u32, Entry<T>> {
    entries.remove(k)
}

/// The entries that are left once those that have expired at `now` are
/// swept out.
pub open spec fn swept<T>(entries: Map<u32, Entry<T>>, now: u64) -> Map<u32, Entry<T>> {
    Map::new(|k: u32| entries.contains_key(k) && now < entries[k].expires_at, |k: u32| entries[k])
}

/// A value is read back as it was written for as long as it lives, and is
/// not found from the end of its life on; a later write under the same key
/// replaces it.
pub proof fn lemma_store_then_retrieve<T>(
    entries: Map<u32, Entry<T>>,
    k: u32,
    value: T,
    ttl_secs: usize,
    stored_at: u64,
    read_at: u64,
)
    ensures
        read_at < stored_at + ttl_secs ==> lookup(
            stored(entries, k, value, ttl_secs, stored_at),
            k,
            read_at,
        ) == Ok::<T, StoreError>(value),
        read_at >= stored_at + ttl_secs ==> lookup(
            stored(entries, k, value, ttl_secs, stored_at),
            k,
            read_at,
        ) == Err::<T, StoreError>(StoreError::NotFound),
{
}

/// Deleting a key twice leaves what deleting it once leaves, and after
/// either the key is not found.
pub proof fn lemma_delete_idempotent<T>(entries: Map<u32, Entry<T>>, k: u32, now: u64)
    ensures
        deleted(deleted(entries, k), k) == deleted(entries, k),
        lookup(deleted(entries, k), k, now) == Err::<T, StoreError>(StoreError::NotFound),
{
    assert(deleted(deleted(entries, k), k) =~= deleted(entries, k));
}

/// Sweeping changes what no reader at that time or later can tell.
pub proof fn lemma_sweep_unobservable<T>(
    entries: Map<u32, Entry<T>>,
    k: u32,
    swept_at: u64,
    read_at: u64,
)
    requires
        swept_at <= read_at,
    ensures
        lookup(swept(entries, swept_at), k, read_at) == lookup(entries, k, read_at),
{
}

/// The in-memory store.
pub struct MemoryStore<T> {
    entries: KeyedTable<Entry<T>>,
}

impl<T> View for MemoryStore<T> {
    type V = Map<u32, Entry<T>>;

    closed spec fn view(&self) -> Map<u32, Entry<T>> {
        self.entries@
    }
}

impl<T> MemoryStore<T> {
    pub closed spec fn wf(&self) -> bool {
        self.entries.wf()
    }

    pub fn new() -> (s: Self)
        ensures
            s.wf(),
            s@ == Map::<u32, Entry<T>>::empty(),
    {
        MemoryStore { entries: KeyedTable::new() }
    }

    /// Writes `s` under `k`, to live `ttl_secs` seconds from `now`. What was
    /// stored under `k` before is replaced.
    pub fn store(&mut self, k: u32, s: T, ttl_secs: usize, now: u64) -> (r: Result<(), StoreError>)
        requires
            old(self).wf(),
        ensures
            final(self).wf(),
            r is Ok,
            final(self)@ == stored(old(self)@, k, s, ttl_secs, now),
    {
        let expires_at: u128 = now as u128 + ttl_secs as u128;
        self.entries.insert(k, Entry { value: s, expires_at });
        Ok(())
    }

    /// Reads the value under `k` at `now`.
    pub fn retrieve(&self, k: u32, now: u64) -> (r: Result<&T, StoreError>)
        requires
            self.wf(),
        ensures
            match lookup(self@, k, now) {
                Ok(v) => r is Ok && *r->Ok_0 == v,
                Err(e) => r == Err::<&T, StoreError>(e),
            },
    {
        match self.entries.get(k) {
            Some(entry) => {
                if (now as u128) < entry.expires_at {
                    Ok(&entry.value)
                } else {
                    Err(StoreError::NotFound)
                }
            },
            None => Err(StoreError::NotFound),
        }
    }

    /// Deletes what is under `k`. That nothing was there is no error.
    pub fn delete(&mut self, k: u32) -> (r: Result<(), StoreError>)
        requires
            old(self).wf(),
        ensures
            final(self).wf(),
            r is Ok,
            final(self)@ == deleted(old(self)@, k),
    {
        self.entries.remove(k);
        Ok(())
    }

    /// Removes every entry that has expired at `now`.
    pub fn sweep(&mut self, now: u64)
        requires
            old(self).wf(),
        ensures
            final(self).wf(),
            final(self)@ == swept(old(self)@, now),
    {
        let mut kept: KeyedTable<Entry<T>> = KeyedTable::new();
        while self.entries.len() > 0
            invariant
                self.entries.wf(),
                kept.wf(),
                forall|k: u32| #[trigger]
                    self.entries@.contains_key(k) ==> old(self)@.contains_key(k) && old(self)@[k]
                        == self.entries@[k],
                forall|k: u32| #[trigger]
                    kept@.contains_key(k) <==> old(self)@.contains_key(k)
                        && !self.entries@.contains_key(k) && now < old(self)@[k].expires_at,
                forall|k: u32| #[trigger] kept@.contains_key(k) ==> kept@[k] == old(self)@[k],
                forall|k: u32| #[trigger]
                    old(self)@.contains_key(k) && now < old(self)@[k].expires_at
                        ==> self.entries@.contains_key(k) || kept@.contains_key(k),
            decreases self.entries.count(),
        {
            match self.entries.take_any() {
                Some((k, entry)) => {
                    if (now as u128) < entry.expires_at {
                        kept.insert(k, entry);
                    }
                },
                None => {},
            }
        }
        proof {
            assert(self.entries@.dom().finite() && self.entries@.dom().len() == 0) by {
                self.entries.lemma_count_is_domain_size();
            }
            assert forall|k: u32| !self.entries@.contains_key(k) by {
                if self.entries@.contains_key(k) {
                    assert(self.entries@.dom().contains(k));
                    assert(self.entries@.dom() =~= Set::<u32>::empty());
                }
            }
            assert(kept@ =~= swept(old(self)@, now));
        }
        self.entries = kept;
    }
}

} // verus!
