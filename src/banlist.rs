//! The ban list: a concurrent map from client address to ban expiry, shared
//! by every handle cloned from the same list.
//!
//! Times are milliseconds on a monotonic clock chosen by the caller.
//!
//! Every handle sees the one shared map, which other handles and other
//! threads may change at any moment. What a read returns therefore depends
//! on more than its arguments, and no contract below ties the contents seen
//! by one call to those seen by another: callers decide on the value they
//! read (see `bouncer::step`).

use std::sync::Arc;

use dashmap::DashMap;
use vstd::prelude::*;

use crate::addr::{AddrKey, ClientAddr};

verus! {

#[verifier::external_type_specification]
#[verifier::external_body]
#[verifier::reject_recursive_types(K)]
#[verifier::reject_recursive_types(V)]
#[verifier::reject_recursive_types(S)]
pub struct ExDashMap<K, V, S>(DashMap<K, V, S>);

/// The concurrent map under a ban list.
pub type BanMap = DashMap<AddrKey, u64>;

/// Relies on `DashMap::new`: makes a map.
#[verifier::external_body]
fn map_new() -> (r: Arc<BanMap>) {
    Arc::new(DashMap::new())
}

/// Relies on `DashMap::get`: the value stored under the key at the moment of
/// the call, if any.
#[verifier::external_body]
fn map_get(m: &BanMap, k: &AddrKey) -> (r: Option<u64>) {
    m.get(k).map(|e| *e.value())
}

/// Relies on `DashMap::insert`: stores the value under the key, replacing
/// any value stored there.
#[verifier::external_body]
fn map_insert(m: &BanMap, k: AddrKey, v: u64) {
    m.insert(k, v);
}

/// Relies on `DashMap::remove`: drops the entry of the key, if any.
#[verifier::external_body]
fn map_remove(m: &BanMap, k: &AddrKey) {
    m.remove(k);
}

/// Relies on `DashMap::iter`: walks each shard once, under the shard's read
/// lock, and a key lives in the one shard its hash selects, so no key comes
/// twice.
#[verifier::external_body]
fn map_entries(m: &BanMap) -> (r: Vec<(AddrKey, u64)>)
    ensures
        distinct_firsts(r@),
{
    m.iter().map(|e| (*e.key(), *e.value())).collect()
}

/// Relies on `Arc::clone`: the clone points at the same map.
#[verifier::external_body]
fn map_share(m: &Arc<BanMap>) -> (r: Arc<BanMap>)
    ensures
        r == *m,
{
    Arc::clone(m)
}

/// The entries of a listing that are keys of addresses, in order, with each
/// key turned into its address.
pub open spec fn listed(entries: Seq<(AddrKey, u64)>) -> Seq<(ClientAddr, u64)> {
    entries.filter(|e: (AddrKey, u64)| ClientAddr::is_key(e.0)).map_values(
        |e: (AddrKey, u64)| (ClientAddr::from_key_spec(e.0), e.1),
    )
}

/// No key, or no address, comes twice.
pub open spec fn distinct_firsts<K, V>(s: Seq<(K, V)>) -> bool {
    forall|i: int, j: int| 0 <= i < j < s.len() ==> #[trigger] s[i].0 != #[trigger] s[j].0
}

/// Turns a listing of the ban map into address and expiry pairs, skipping
/// any key that is not the key of an address.
pub fn snapshot_of(entries: &Vec<(AddrKey, u64)>) -> (r: Vec<(ClientAddr, u64)>)
    ensures
        r@ == listed(entries@),
        distinct_firsts(entries@) ==> distinct_firsts(r@),
{
    let mut out: Vec<(ClientAddr, u64)> = Vec::new();
    let ghost mut from: Seq<int> = Seq::empty();
    let mut i: usize = 0;
    while i < entries.len()
        invariant
            i <= entries.len(),
            out@ == listed(entries@.take(i as int)),
            out@.len() == from.len(),
            forall|m: int|
                0 <= m < from.len() ==> 0 <= #[trigger] from[m] < i && out@[m].0.key_spec() == entries@[from[m]].0,
            forall|m: int, n: int| 0 <= m < n < from.len() ==> #[trigger] from[m] < #[trigger] from[n],
        decreases entries.len() - i,
    {
        let (k, v) = entries[i];
        let ghost before = entries@.take(i as int);
        let ghost after = entries@.take(i + 1);
        proof {
            assert(after.drop_last() =~= before);
            assert(after.last() == (k, v));
            reveal(Seq::filter);
        }
        if (k.0 == 4 && k.1 <= 0xffff_ffffu128) || k.0 == 6 {
            let a = ClientAddr::from_key(k);
            out.push((a, v));
            proof {
                from = from.push(i as int);
                assert(out@ =~= listed(after));
            }
        } else {
            assert(out@ =~= listed(after));
        }
        i += 1;
    }
    assert(entries@.take(i as int) =~= entries@);
    proof {
        if distinct_firsts(entries@) {
            assert forall|m: int, n: int| 0 <= m < n < out@.len() implies #[trigger] out@[m].0 != #[trigger] out@[n].0 by {
                assert(from[m] < from[n]);
                assert(out@[m].0.key_spec() == entries@[from[m]].0);
                assert(out@[n].0.key_spec() == entries@[from[n]].0);
            }
        }
    }
    out
}

/// A handle to a shared ban list. A clone of the handle is another handle to
/// the same list: a ban written through one is seen through every other.
#[derive(Debug)]
pub struct BanList {
    inner: Arc<BanMap>,
}

impl Clone for BanList {
    /// Another handle to the same list.
    fn clone(&self) -> (r: Self)
        ensures
            r == *self,
    {
        BanList { inner: map_share(&self.inner) }
    }
}

impl BanList {
    /// A new, empty ban list.
    pub fn new() -> (r: BanList) {
        BanList { inner: map_new() }
    }

    /// The ban expiry of `addr` that the list holds now, if any.
    pub fn lookup(&self, addr: ClientAddr) -> (r: Option<u64>) {
        let k = addr.key();
        map_get(&self.inner, &k)
    }

    /// Bans `addr` until `expiry`, replacing any entry it has.
    pub fn insert(&self, addr: ClientAddr, expiry: u64) {
        let k = addr.key();
        map_insert(&self.inner, k, expiry);
    }

    /// Drops the entry of `addr`; nothing changes if there is none.
    pub fn remove(&self, addr: ClientAddr) {
        let k = addr.key();
        map_remove(&self.inner, &k);
    }

    /// The entries that the list holds while it is walked, as address and
    /// expiry, in no given order; no address comes twice.
    pub fn snapshot(&self) -> (r: Vec<(ClientAddr, u64)>)
        ensures
            distinct_firsts(r@),
            exists|entries: Seq<(AddrKey, u64)>| distinct_firsts(entries) && r@ == listed(entries),
    {
        let entries = map_entries(&self.inner);
        assert(distinct_firsts(entries@));
        snapshot_of(&entries)
    }
}

} // verus!
