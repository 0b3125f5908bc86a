//! Bookkeeping of a pool of device connections: which devices are
//! registered, which connections each device has, which of them are lent
//! out, and which have sat idle for too long.
//!
//! Connections are identified by handles that the pool hands out. The
//! connection values themselves are carried along untouched; the caller
//! supplies the clock, as milliseconds on a monotonic timer.

use vstd::prelude::*;
use crate::api::DeviceTable;
use crate::device::{same_config, DeviceConfig};
use crate::error::NetsshError;
use crate::keyed::{assoc_get, assoc_insert, has_key};
use crate::text::str_eq;

verus! {

/// Most connections a device may have being set up at the same time.
pub const MAX_CONNECTIONS_PER_DEVICE: usize = 5;

/// A connection idle for longer than this many milliseconds has expired.
pub const CONNECTION_TIMEOUT_MS: u64 = 300000;

/// A pooled connection: its handle, the device it belongs to, the connection
/// itself, whether it is lent out, and when it was last lent or given back.
pub struct Pooled<C> {
    pub id: u64,
    pub device_id: String,
    pub connection: C,
    pub in_use: bool,
    pub last_used_ms: u64,
}

/// The connection has been idle for longer than the timeout at `now_ms`.
pub open spec fn expired<C>(p: Pooled<C>, now_ms: u64) -> bool {
    now_ms - p.last_used_ms > CONNECTION_TIMEOUT_MS
}

/// The connection can be lent for `device_id` at `now_ms`: it belongs to
/// that device, is not lent out and has not expired.
pub open spec fn lendable<C>(p: Pooled<C>, device_id: Seq<char>, now_ms: u64) -> bool {
    p.device_id@ == device_id && !p.in_use && !expired(p, now_ms)
}

/// Position `i` holds the first connection that can be lent.
pub open spec fn is_first_lendable<C>(s: Seq<Pooled<C>>, device_id: Seq<char>, now_ms: u64, i: int) -> bool {
    &&& 0 <= i < s.len()
    &&& lendable(s[i], device_id, now_ms)
    &&& forall|j: int| 0 <= j < i ==> !lendable(#[trigger] s[j], device_id, now_ms)
}

/// The connection marked as lent at `now_ms`.
pub open spec fn lent<C>(p: Pooled<C>, now_ms: u64) -> Pooled<C> {
    Pooled { in_use: true, last_used_ms: now_ms, ..p }
}

/// The connection marked as given back at `now_ms`.
pub open spec fn returned<C>(p: Pooled<C>, now_ms: u64) -> Pooled<C> {
    Pooled { in_use: false, last_used_ms: now_ms, ..p }
}

/// A connection survives a cleanup at `now_ms` unless it is idle and expired.
pub open spec fn kept<C>(now_ms: u64) -> spec_fn(Pooled<C>) -> bool {
    |p: Pooled<C>| !(expired(p, now_ms) && !p.in_use)
}

/// Position `i` holds the connection with handle `id`.
pub open spec fn holds_id<C>(s: Seq<Pooled<C>>, id: u64, i: int) -> bool {
    0 <= i < s.len() && s[i].id == id
}

/// No handle occurs twice, and every handle is below `next_id`.
pub open spec fn ids_fresh<C>(s: Seq<Pooled<C>>, next_id: u64) -> bool {
    &&& forall|i: int, j: int| 0 <= i < s.len() && 0 <= j < s.len() && i != j ==> s[i].id != s[j].id
    &&& forall|i: int| 0 <= i < s.len() ==> s[i].id < next_id
}

/// Every connection of `keep` is one of the first `n` of `orig`.
pub open spec fn from_prefix<C>(keep: Seq<Pooled<C>>, orig: Seq<Pooled<C>>, n: int) -> bool {
    forall|a: int| 0 <= a < keep.len() ==> exists|j: int| 0 <= j < n && orig[j] == #[trigger] keep[a]
}

/// The state of a pool: the registered devices, the connections in the
/// order they were added, and the next handle.
pub struct PoolView<C> {
    pub devices: Seq<(Seq<char>, DeviceConfig)>,
    pub slots: Seq<Pooled<C>>,
    pub next_id: u64,
}

/// The error for a device that is not registered.
pub fn not_registered(device_id: &str) -> (e: NetsshError)
    ensures
        e matches NetsshError::DeviceError(m) && m@ == "Device not registered: "@ + device_id@,
{
    let mut m = String::from_str("Device not registered: ");
    m.append(device_id);
    NetsshError::DeviceError(m)
}

/// Whether a connection has expired at `now_ms`.
pub fn is_expired<C>(p: &Pooled<C>, now_ms: u64) -> (b: bool)
    ensures
        b == expired(*p, now_ms),
{
    now_ms > p.last_used_ms && now_ms - p.last_used_ms > CONNECTION_TIMEOUT_MS
}

/// A pool of device connections.
pub struct ConnectionPool<C> {
    devices: DeviceTable,
    slots: Vec<Pooled<C>>,
    next_id: u64,
}

impl<C> View for ConnectionPool<C> {
    type V = PoolView<C>;

    closed spec fn view(&self) -> PoolView<C> {
        PoolView { devices: self.devices@, slots: self.slots@, next_id: self.next_id }
    }
}

impl<C> ConnectionPool<C> {
    #[verifier::type_invariant]
    spec fn handles_fresh(&self) -> bool {
        ids_fresh(self.slots@, self.next_id)
    }

    /// An empty pool.
    pub fn new() -> (p: Self)
        ensures
            p@.devices.len() == 0,
            p@.slots.len() == 0,
    {
        ConnectionPool { devices: DeviceTable::new(), slots: Vec::new(), next_id: 0 }
    }

    /// Registers a device, replacing an earlier configuration; true when the
    /// device was not registered before (and so needs its own limit on the
    /// connections being set up).
    pub fn register_device(&mut self, device_id: String, config: DeviceConfig) -> (first: bool)
        ensures
            first == !has_key(old(self)@.devices, device_id@),
            final(self)@ == (PoolView { devices: assoc_insert(old(self)@.devices, device_id@, config), ..old(self)@ }),
    {
        proof { use_type_invariant(&*self); }
        let first = !self.is_registered(device_id.as_str());
        let mut devices = DeviceTable::new();
        std::mem::swap(&mut devices, &mut self.devices);
        devices.add(device_id, config);
        self.devices = devices;
        first
    }

    /// Whether a device is registered.
    pub fn is_registered(&self, device_id: &str) -> (b: bool)
        ensures
            b == has_key(self@.devices, device_id@),
    {
        match self.devices.get(device_id) {
            Some(_) => true,
            None => false,
        }
    }

    /// The configuration of a registered device, or the error for a device
    /// that is not registered.
    pub fn device_config(&self, device_id: &str) -> (r: Result<DeviceConfig, NetsshError>)
        ensures
            match assoc_get(self@.devices, device_id@) {
                Some(c) => r matches Ok(d) && same_config(d, c),
                None => r matches Err(NetsshError::DeviceError(m)) && m@ == "Device not registered: "@ + device_id@,
            },
    {
        match self.devices.get(device_id) {
            Some(c) => Ok(c),
            None => Err(not_registered(device_id)),
        }
    }

    /// Lends the first connection of the device that is neither lent out nor
    /// expired, marking it lent at `now_ms`, and gives its handle; none when
    /// there is no such connection.
    pub fn take_available(&mut self, device_id: &str, now_ms: u64) -> (r: Option<u64>)
        ensures
            final(self)@.devices == old(self)@.devices,
            final(self)@.next_id == old(self)@.next_id,
            match r {
                Some(id) => exists|i: int| {
                    &&& is_first_lendable(old(self)@.slots, device_id@, now_ms, i)
                    &&& id == old(self)@.slots[i].id
                    &&& final(self)@.slots == old(self)@.slots.update(i, lent(old(self)@.slots[i], now_ms))
                },
                None => {
                    &&& forall|i: int| 0 <= i < old(self)@.slots.len() ==> !lendable(#[trigger] old(self)@.slots[i], device_id@, now_ms)
                    &&& final(self)@.slots == old(self)@.slots
                },
            },
    {
        proof { use_type_invariant(&*self); }
        match self.find_lendable(device_id, now_ms) {
            None => None,
            Some(i) => {
                let id = self.slots[i].id;
                let ghost before = self.slots@;
                let mut taken = Vec::new();
                std::mem::swap(&mut taken, &mut self.slots);
                let mut q = taken.remove(i);
                q.in_use = true;
                q.last_used_ms = now_ms;
                taken.insert(i, q);
                proof {
                    assert(taken@ =~= before.update(i as int, lent(before[i as int], now_ms)));
                    assert forall|a: int, b: int| 0 <= a < taken@.len() && 0 <= b < taken@.len() && a != b
                        implies taken@[a].id != taken@[b].id by {
                        assert(taken@[a].id == before[a].id);
                        assert(taken@[b].id == before[b].id);
                    }
                    assert forall|a: int| 0 <= a < taken@.len() implies taken@[a].id < self.next_id by {
                        assert(taken@[a].id == before[a].id);
                    }
                }
                self.slots = taken;
                Some(id)
            },
        }
    }

    /// The position of the first connection that can be lent for the device.
    fn find_lendable(&self, device_id: &str, now_ms: u64) -> (r: Option<usize>)
        ensures
            match r {
                Some(i) => is_first_lendable(self@.slots, device_id@, now_ms, i as int),
                None => forall|i: int| 0 <= i < self@.slots.len() ==> !lendable(#[trigger] self@.slots[i], device_id@, now_ms),
            },
    {
        let mut i: usize = 0;
        while i < self.slots.len()
            invariant
                0 <= i <= self.slots@.len(),
                forall|j: int| 0 <= j < i ==> !lendable(#[trigger] self.slots@[j], device_id@, now_ms),
            decreases self.slots@.len() - i,
        {
            let p = &self.slots[i];
            if str_eq(p.device_id.as_str(), device_id) && !p.in_use && !is_expired(p, now_ms) {
                return Some(i);
            }
            i = i + 1;
        }
        None
    }

    /// The position of the connection with handle `id`.
    fn find_id(&self, id: u64) -> (r: Option<usize>)
        ensures
            match r {
                Some(i) => holds_id(self@.slots, id, i as int),
                None => forall|i: int| !holds_id(self@.slots, id, i),
            },
    {
        let mut i: usize = 0;
        while i < self.slots.len()
            invariant
                0 <= i <= self.slots@.len(),
                forall|j: int| 0 <= j < i ==> self.slots@[j].id != id,
            decreases self.slots@.len() - i,
        {
            if self.slots[i].id == id {
                return Some(i);
            }
            i = i + 1;
        }
        None
    }

    /// Adds a connection for a device, lent out from `now_ms`, and gives its
    /// handle; none once every handle has been used.
    pub fn add_in_use(&mut self, device_id: String, connection: C, now_ms: u64) -> (r: Option<u64>)
        ensures
            final(self)@.devices == old(self)@.devices,
            old(self)@.next_id == u64::MAX ==> r is None && final(self)@ == old(self)@,
            old(self)@.next_id < u64::MAX ==> {
                &&& r == Some(old(self)@.next_id)
                &&& final(self)@.next_id == old(self)@.next_id + 1
                &&& final(self)@.slots == old(self)@.slots.push(Pooled {
                    id: old(self)@.next_id,
                    device_id,
                    connection,
                    in_use: true,
                    last_used_ms: now_ms,
                })
            },
    {
        proof { use_type_invariant(&*self); }
        if self.next_id == u64::MAX {
            return None;
        }
        let id = self.next_id;
        let ghost before = self.slots@;
        let mut slots = Vec::new();
        std::mem::swap(&mut slots, &mut self.slots);
        slots.push(Pooled { id, device_id, connection, in_use: true, last_used_ms: now_ms });
        proof {
            assert forall|a: int, b: int| 0 <= a < slots@.len() && 0 <= b < slots@.len() && a != b
                implies slots@[a].id != slots@[b].id by {
                if a < before.len() { assert(slots@[a] == before[a]); }
                if b < before.len() { assert(slots@[b] == before[b]); }
            }
        }
        self.next_id = id + 1;
        self.slots = slots;
        Some(id)
    }

    /// Gives a lent connection back at `now_ms`; false when no connection has
    /// the handle.
    pub fn release(&mut self, id: u64, now_ms: u64) -> (found: bool)
        ensures
            final(self)@.devices == old(self)@.devices,
            final(self)@.next_id == old(self)@.next_id,
            found == exists|i: int| holds_id(old(self)@.slots, id, i),
            found ==> exists|i: int| holds_id(old(self)@.slots, id, i)
                && final(self)@.slots == old(self)@.slots.update(i, returned(old(self)@.slots[i], now_ms)),
            !found ==> final(self)@.slots == old(self)@.slots,
    {
        proof { use_type_invariant(&*self); }
        match self.find_id(id) {
            None => false,
            Some(i) => {
                let ghost before = self.slots@;
                let mut taken = Vec::new();
                std::mem::swap(&mut taken, &mut self.slots);
                let mut q = taken.remove(i);
                q.in_use = false;
                q.last_used_ms = now_ms;
                taken.insert(i, q);
                proof {
                    assert(taken@ =~= before.update(i as int, returned(before[i as int], now_ms)));
                    assert forall|a: int, b: int| 0 <= a < taken@.len() && 0 <= b < taken@.len() && a != b
                        implies taken@[a].id != taken@[b].id by {
                        assert(taken@[a].id == before[a].id);
                        assert(taken@[b].id == before[b].id);
                    }
                    assert forall|a: int| 0 <= a < taken@.len() implies taken@[a].id < self.next_id by {
                        assert(taken@[a].id == before[a].id);
                    }
                }
                self.slots = taken;
                true
            },
        }
    }

    /// Drops the connections that are idle and expired at `now_ms`; the
    /// others stay, in order.
    pub fn cleanup(&mut self, now_ms: u64)
        ensures
            final(self)@.devices == old(self)@.devices,
            final(self)@.next_id == old(self)@.next_id,
            final(self)@.slots == old(self)@.slots.filter(kept(now_ms)),
    {
        proof { use_type_invariant(&*self); }
        let ghost orig = self.slots@;
        let mut rest = Vec::new();
        std::mem::swap(&mut rest, &mut self.slots);
        let mut keep: Vec<Pooled<C>> = Vec::new();
        let ghost nid = self.next_id;
        let ghost mut done: int = 0;
        while rest.len() > 0
            invariant
                0 <= done <= orig.len(),
                rest@ == orig.subrange(done, orig.len() as int),
                keep@ == orig.take(done).filter(kept(now_ms)),
                ids_fresh(orig, nid),
                ids_fresh(keep@, nid),
                from_prefix(keep@, orig, done),
            decreases rest@.len(),
        {
            let p = rest.remove(0);
            proof {
                assert(p == orig[done]);
                let t = orig.take(done + 1);
                assert(t.drop_last() =~= orig.take(done));
                assert(t.last() == orig[done]);
                assert(kept(now_ms)(p) == !(expired(p, now_ms) && !p.in_use));
                reveal(Seq::filter);
                assert(t.filter(kept(now_ms)) == if kept(now_ms)(t.last()) {
                    t.drop_last().filter(kept(now_ms)).push(t.last())
                } else {
                    t.drop_last().filter(kept(now_ms))
                });
            }
            if !(is_expired(&p, now_ms) && !p.in_use) {
                let ghost before = keep@;
                keep.push(p);
                proof {
                    assert forall|a: int| 0 <= a < keep@.len() implies exists|j: int| 0 <= j < done + 1 && orig[j] == #[trigger] keep@[a] by {
                        if a < before.len() {
                            assert(keep@[a] == before[a]);
                        } else {
                            assert(orig[done] == keep@[a]);
                        }
                    }
                    assert forall|a: int, b: int| 0 <= a < keep@.len() && 0 <= b < keep@.len() && a != b
                        implies keep@[a].id != keep@[b].id by {
                        if a < before.len() && b < before.len() {
                            assert(keep@[a] == before[a]);
                            assert(keep@[b] == before[b]);
                        } else if a < before.len() {
                            assert(keep@[a] == before[a]);
                            let j = choose|j: int| 0 <= j < done && orig[j] == before[a];
                            assert(orig[j].id != orig[done].id);
                        } else if b < before.len() {
                            assert(keep@[b] == before[b]);
                            let j = choose|j: int| 0 <= j < done && orig[j] == before[b];
                            assert(orig[j].id != orig[done].id);
                        }
                    }
                    assert forall|a: int| 0 <= a < keep@.len() implies keep@[a].id < nid by {
                        if a < before.len() { assert(keep@[a] == before[a]); }
                    }
                }
            }
            proof {
                done = done + 1;
                assert(rest@ =~= orig.subrange(done, orig.len() as int));
            }
        }
        proof {
            assert(orig.take(done) =~= orig);
        }
        self.slots = keep;
    }

    /// The connection with handle `id`, if the pool has it.
    pub fn connection(&self, id: u64) -> (r: Option<&C>)
        ensures
            match r {
                Some(c) => exists|i: int| holds_id(self@.slots, id, i) && *c == self@.slots[i].connection,
                None => forall|i: int| !holds_id(self@.slots, id, i),
            },
    {
        match self.find_id(id) {
            Some(i) => Some(&self.slots[i].connection),
            None => None,
        }
    }

    /// Number of connections in the pool.
    pub fn len(&self) -> (n: usize)
        ensures
            n == self@.slots.len(),
    {
        self.slots.len()
    }
}

/// A cleanup never drops a connection that is lent out.
pub proof fn lemma_cleanup_keeps_lent<C>(slots: Seq<Pooled<C>>, now_ms: u64, i: int)
    requires
        0 <= i < slots.len(),
        slots[i].in_use,
    ensures
        slots.filter(kept(now_ms)).contains(slots[i]),
{
    slots.lemma_filter_contains(kept(now_ms), i);
}

/// Every connection left after a cleanup is lent out or not expired.
pub proof fn lemma_cleanup_leaves_fresh<C>(slots: Seq<Pooled<C>>, now_ms: u64, i: int)
    requires
        0 <= i < slots.filter(kept(now_ms)).len(),
    ensures
        slots.filter(kept(now_ms))[i].in_use || !expired(slots.filter(kept(now_ms))[i], now_ms),
{
    slots.lemma_filter_pred(kept(now_ms), i);
}

/// A connection given back can be lent again for its device at once.
pub proof fn lemma_returned_is_lendable<C>(p: Pooled<C>, now_ms: u64)
    ensures
        lendable(returned(p, now_ms), p.device_id@, now_ms),
{
}

/// At most one position holds the first connection that can be lent.
pub proof fn lemma_first_lendable_unique<C>(s: Seq<Pooled<C>>, device_id: Seq<char>, now_ms: u64, i: int, j: int)
    requires
        is_first_lendable(s, device_id, now_ms, i),
        is_first_lendable(s, device_id, now_ms, j),
    ensures
        i == j,
{
    if i < j {
        assert(!lendable(s[i], device_id, now_ms));
    } else if j < i {
        assert(!lendable(s[j], device_id, now_ms));
    }
}

/// A connection just lent is neither lendable again nor dropped by a cleanup.
pub proof fn lemma_lent_is_held<C>(p: Pooled<C>, device_id: Seq<char>, now_ms: u64, later_ms: u64)
    ensures
        !lendable(lent(p, now_ms), device_id, later_ms),
        kept(later_ms)(lent(p, now_ms)),
{
}

} // verus!
