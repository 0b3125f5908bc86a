//! A pool of reusable byte buffers.
//!
//! `PoolState` is the verified bookkeeping: which buffers are kept, the
//! capacity each one was measured to have when it came back, and the limits of
//! the pool. `BufferPool` shares one such state behind a lock; a
//! `BorrowedBuffer` goes back to its pool when dropped.

use vstd::prelude::*;
use std::sync::Arc;
use parking_lot::Mutex;
use crate::error::NetsshError;
use crate::settings::{get_buffer_setting, BufferSettingType, Settings};
use crate::sync::{arc_clone, guard_replace, mutex_lock, mutex_new};

verus! {

/// The decoding of bytes as UTF-8 text, or `None` when they are not valid UTF-8.
pub open spec fn utf8_decoded(bytes: Seq<u8>) -> Option<Seq<char>> {
    if vstd::utf8::valid_utf8(bytes) {
        Some(vstd::utf8::decode_utf8(bytes))
    } else {
        None
    }
}

/// The text of `String::from_utf8_lossy` on the given bytes.
pub uninterp spec fn utf8_lossy(bytes: Seq<u8>) -> Seq<char>;

/// Calls `String::from_utf8` on a copy of the bytes, which succeeds exactly
/// on valid UTF-8 and then holds the text the bytes encode; the error carries
/// the decoder's message.
#[verifier::external_body]
pub(crate) fn utf8_decode(bytes: &Vec<u8>) -> (r: Result<String, String>)
    ensures
        r is Ok <==> utf8_decoded(bytes@) is Some,
        r matches Ok(s) ==> s@ == utf8_decoded(bytes@)->0,
{
    match String::from_utf8(bytes.clone()) {
        Ok(s) => Ok(s),
        Err(e) => Err(e.to_string()),
    }
}

/// Calls `String::from_utf8_lossy`; the result is the named text `utf8_lossy`,
/// which is the decoded text itself when the bytes are valid UTF-8, and in
/// which every invalid sequence becomes U+FFFD (as the standard library
/// documents), so bytes that are not empty never give empty text.
#[verifier::external_body]
pub(crate) fn utf8_decode_lossy(bytes: &Vec<u8>) -> (r: String)
    ensures
        r@ == utf8_lossy(bytes@),
        utf8_decoded(bytes@) is Some ==> r@ == utf8_decoded(bytes@)->0,
        bytes@.len() > 0 ==> r@.len() > 0,
{
    String::from_utf8_lossy(bytes).to_string()
}

/// Calls `Vec::capacity`; the standard library guarantees that the capacity
/// is at least the length. The exact value depends on the allocator.
#[verifier::external_body]
fn vec_capacity(v: &Vec<u8>) -> (c: usize)
    ensures
        c >= v.len(),
    opens_invariants none
    no_unwind
{
    v.capacity()
}

/// Calls `Vec::clear`.
#[verifier::external_body]
fn vec_clear(v: &mut Vec<u8>)
    ensures
        final(v)@ == Seq::<u8>::empty(),
    opens_invariants none
    no_unwind
{
    v.clear()
}

/// Calls `std::mem::take` on a buffer.
#[verifier::external_body]
fn take_vec(v: &mut Vec<u8>) -> (r: Vec<u8>)
    ensures
        r@ == old(v)@,
        final(v)@ == Seq::<u8>::empty(),
    opens_invariants none
    no_unwind
{
    std::mem::take(v)
}

/// Calls `Vec::len`.
#[verifier::external_body]
fn byte_len(v: &Vec<u8>) -> (n: usize)
    ensures
        n == v@.len(),
    opens_invariants none
    no_unwind
{
    v.len()
}

/// Calls `Vec::len`.
#[verifier::external_body]
fn pooled_len(v: &Vec<PooledBuffer>) -> (n: usize)
    ensures
        n == v@.len(),
    opens_invariants none
    no_unwind
{
    v.len()
}

/// Calls `Vec::new`.
#[verifier::external_body]
fn pooled_new() -> (v: Vec<PooledBuffer>)
    ensures
        v@ == Seq::<PooledBuffer>::empty(),
    opens_invariants none
    no_unwind
{
    Vec::new()
}

/// The most buffers a pool can keep: a kept buffer takes at most 32 bytes in
/// the list of kept buffers, and `Vec::push` panics once the doubled capacity
/// of that list would exceed `isize::MAX` bytes, half of `usize::MAX`.
pub const MAX_POOLED_BUFFERS: usize = usize::MAX / 128;

/// Calls `Vec::push`; growing a list shorter than `MAX_POOLED_BUFFERS` stays
/// below the capacity limit at which `push` panics.
#[verifier::external_body]
fn pooled_push(v: &mut Vec<PooledBuffer>, b: PooledBuffer)
    requires
        old(v)@.len() < MAX_POOLED_BUFFERS,
    ensures
        final(v)@ == old(v)@.push(b),
    opens_invariants none
    no_unwind
{
    v.push(b)
}

/// A buffer kept by the pool, with the capacity measured when it came back.
pub struct PooledBuffer {
    pub data: Vec<u8>,
    pub capacity: usize,
}

/// The pool's bookkeeping.
pub struct PoolState {
    pub buffers: Vec<PooledBuffer>,
    pub max_size: usize,
    pub reuse_threshold: usize,
}

/// The recorded capacities of the kept buffers, in order.
pub open spec fn capacities(bs: Seq<PooledBuffer>) -> Seq<usize> {
    bs.map_values(|b: PooledBuffer| b.capacity)
}

/// The index of the first kept buffer whose recorded capacity is at least `min`.
pub open spec fn first_fit(caps: Seq<usize>, min: usize) -> Option<int>
    decreases caps.len(),
{
    if caps.len() == 0 {
        None
    } else if caps[0] >= min {
        Some(0)
    } else {
        match first_fit(caps.drop_first(), min) {
            Some(i) => Some(i + 1),
            None => None,
        }
    }
}

proof fn lemma_first_fit(caps: Seq<usize>, min: usize)
    ensures
        first_fit(caps, min) matches Some(i) ==> 0 <= i < caps.len() && caps[i] >= min
            && forall|j: int| 0 <= j < i ==> caps[j] < min,
        first_fit(caps, min) is None ==> forall|j: int| 0 <= j < caps.len() ==> caps[j] < min,
    decreases caps.len(),
{
    if caps.len() > 0 {
        lemma_first_fit(caps.drop_first(), min);
        if caps[0] < min {
            assert forall|j: int| 1 <= j < caps.len() implies caps[j] == caps.drop_first()[j - 1] by {}
        }
    }
}

impl PoolState {
    /// The pool's invariant: no more buffers than its limit, each one empty
    /// and within the reuse threshold.
    pub open spec fn wf(&self) -> bool {
        &&& self.max_size <= MAX_POOLED_BUFFERS
        &&& self.buffers.len() <= self.max_size
        &&& forall|i: int| 0 <= i < self.buffers.len() ==> {
            &&& (#[trigger] self.buffers[i]).data@.len() == 0
            &&& self.buffers[i].capacity <= self.reuse_threshold
        }
    }

    /// An empty pool with the given limits.
    pub fn new(max_size: usize, reuse_threshold: usize) -> (s: Self)
        requires
            max_size <= MAX_POOLED_BUFFERS,
        ensures
            s.wf(),
            s.buffers.len() == 0,
            s.max_size == max_size,
            s.reuse_threshold == reuse_threshold,
    {
        PoolState { buffers: Vec::new(), max_size, reuse_threshold }
    }

    /// Removes and returns the first kept buffer whose recorded capacity is at
    /// least `min_capacity`, with that capacity; the pool is unchanged when
    /// there is none.
    pub fn take_fitting(&mut self, min_capacity: usize) -> (r: Option<(Vec<u8>, usize)>)
        ensures
            final(self).max_size == old(self).max_size,
            final(self).reuse_threshold == old(self).reuse_threshold,
            match first_fit(capacities(old(self).buffers@), min_capacity) {
                Some(i) => r matches Some((v, c)) && v@ == old(self).buffers@[i].data@
                    && c == old(self).buffers@[i].capacity
                    && final(self).buffers@ == old(self).buffers@.remove(i),
                None => r is None && final(self).buffers@ == old(self).buffers@,
            },
            r matches Some((_, c)) ==> c >= min_capacity,
            old(self).wf() ==> final(self).wf(),
    {
        let ghost caps = capacities(self.buffers@);
        proof {
            lemma_first_fit(caps, min_capacity);
            assert forall|j: int| 0 <= j < caps.len() implies caps[j] == self.buffers@[j].capacity by {}
        }
        let mut idx: usize = 0;
        while idx < self.buffers.len()
            invariant
                0 <= idx <= self.buffers.len(),
                self.buffers@ == old(self).buffers@,
                caps == capacities(old(self).buffers@),
                caps.len() == self.buffers@.len(),
                forall|j: int| 0 <= j < caps.len() ==> caps[j] == self.buffers@[j].capacity,
                self.max_size == old(self).max_size,
                self.reuse_threshold == old(self).reuse_threshold,
                forall|j: int| 0 <= j < idx ==> caps[j] < min_capacity,
            decreases self.buffers.len() - idx,
        {
            if self.buffers[idx].capacity >= min_capacity {
                proof {
                    lemma_first_fit(caps, min_capacity);
                    assert(caps[idx as int] >= min_capacity);
                    match first_fit(caps, min_capacity) {
                        Some(i) => {
                            if i < idx { assert(caps[i] < min_capacity); }
                            if i > idx { assert(caps[idx as int] < min_capacity); }
                            assert(i == idx);
                        },
                        None => {
                            assert(caps[idx as int] < min_capacity);
                        },
                    }
                }
                let taken = self.buffers.remove(idx);
                proof {
                    if old(self).wf() {
                        assert forall|i: int| 0 <= i < self.buffers.len() implies {
                            &&& (#[trigger] self.buffers[i]).data@.len() == 0
                            &&& self.buffers[i].capacity <= self.reuse_threshold
                        } by {
                            if i < idx { assert(self.buffers[i] == old(self).buffers[i]); }
                            else { assert(self.buffers[i] == old(self).buffers[i + 1]); }
                        }
                    }
                }
                return Some((taken.data, taken.capacity));
            }
            idx = idx + 1;
        }
        proof {
            lemma_first_fit(caps, min_capacity);
            if first_fit(caps, min_capacity) is Some {
                let i = first_fit(caps, min_capacity)->0;
                assert(caps[i] < min_capacity);
            }
        }
        None
    }

    /// Takes back a buffer whose capacity was measured as `capacity`: it is
    /// kept (emptied) when its capacity is within the reuse threshold and the
    /// pool has room, and dropped otherwise. A state whose limit exceeds what
    /// any pool may have (which no constructor makes) keeps nothing more.
    pub fn return_buffer(&mut self, buffer: Vec<u8>, capacity: usize)
        ensures
            final(self).max_size == old(self).max_size,
            final(self).reuse_threshold == old(self).reuse_threshold,
            if capacity <= old(self).reuse_threshold && old(self).buffers.len() < old(self).max_size
                && old(self).max_size <= MAX_POOLED_BUFFERS {
                &&& final(self).buffers.len() == old(self).buffers.len() + 1
                &&& final(self).buffers@.drop_last() == old(self).buffers@
                &&& final(self).buffers@.last().capacity == capacity
                &&& final(self).buffers@.last().data@.len() == 0
            } else {
                final(self).buffers@ == old(self).buffers@
            },
            old(self).wf() ==> final(self).wf(),
        opens_invariants none
        no_unwind
    {
        let len = pooled_len(&self.buffers);
        if capacity <= self.reuse_threshold && len < self.max_size && self.max_size <= MAX_POOLED_BUFFERS {
            let mut b = buffer;
            vec_clear(&mut b);
            pooled_push(&mut self.buffers, PooledBuffer { data: b, capacity });
            proof {
                assert(self.buffers@.drop_last() =~= old(self).buffers@);
            }
        }
    }
}

/// A returned buffer that fits is the one handed out next.
pub proof fn lemma_return_then_take(
    before: Seq<PooledBuffer>,
    returned: PooledBuffer,
    min: usize,
)
    requires
        forall|j: int| 0 <= j < before.len() ==> (#[trigger] before[j]).capacity < min,
        returned.capacity >= min,
    ensures
        first_fit(capacities(before.push(returned)), min) == Some(before.len() as int),
        before.push(returned).remove(before.len() as int) == before,
{
    lemma_first_fit(capacities(before.push(returned)), min);
    let caps = capacities(before.push(returned));
    if first_fit(caps, min) is None {
        assert(caps[before.len() as int] >= min);
    } else {
        let i = first_fit(caps, min)->0;
        if i < before.len() {
            assert(caps[i] == before[i].capacity);
        }
    }
    assert(before.push(returned).remove(before.len() as int) =~= before);
}

/// A pool of reusable byte buffers shared between threads.
pub struct BufferPool {
    shared: Arc<Mutex<PoolState>>,
    max_size: usize,
    reuse_threshold: usize,
}

/// A buffer taken from a pool; dropping it returns it to that pool when it is
/// not empty.
pub struct BorrowedBuffer {
    buffer: Vec<u8>,
    capacity: usize,
    pool: Arc<Mutex<PoolState>>,
    reuse_threshold: usize,
}

impl Drop for BorrowedBuffer {
    fn drop(&mut self)
        opens_invariants none
        no_unwind
    {
        if byte_len(&self.buffer) > 0 {
            let buffer = take_vec(&mut self.buffer);
            let capacity = vec_capacity(&buffer);
            let mut guard = mutex_lock(&*self.pool);
            let mut state = guard_replace(&mut guard, PoolState { buffers: pooled_new(), max_size: 0, reuse_threshold: 0 });
            state.return_buffer(buffer, capacity);
            let _ = guard_replace(&mut guard, state);
        }
    }
}

impl BufferPool {
    /// A pool keeping at most `max_size` buffers, each of capacity at most
    /// `reuse_threshold`.
    pub fn new(max_size: usize, reuse_threshold: usize) -> (p: Self)
        requires
            max_size <= MAX_POOLED_BUFFERS,
        ensures
            p.max_size() == max_size,
            p.reuse_threshold() == reuse_threshold,
    {
        BufferPool {
            shared: Arc::new(mutex_new(PoolState::new(max_size, reuse_threshold))),
            max_size,
            reuse_threshold,
        }
    }

    pub closed spec fn max_size(&self) -> usize {
        self.max_size
    }

    pub closed spec fn reuse_threshold(&self) -> usize {
        self.reuse_threshold
    }

    /// A pool sized by the default buffer settings. Each call makes a new
    /// pool; a program that shares one pool keeps the first it gets.
    pub fn global() -> (p: Arc<BufferPool>)
        ensures
            p.max_size() == 32,
            p.reuse_threshold() == 16384,
    {
        let settings = Settings::default();
        Arc::new(BufferPool::new(
            get_buffer_setting(&settings, BufferSettingType::BufferPoolSize),
            get_buffer_setting(&settings, BufferSettingType::BufferReuseThreshold),
        ))
    }

    /// An empty buffer: the first kept buffer of capacity at least
    /// `min_capacity`, or a new one with that capacity. The buffer goes back
    /// to this pool when it is dropped.
    pub fn get_buffer(&self, min_capacity: usize) -> (b: BorrowedBuffer)
        ensures
            b@ == Seq::<u8>::empty(),
            b.returns_to(self),
            b.recorded_capacity() >= min_capacity,
    {
        let taken = {
            let mut guard = mutex_lock(&*self.shared);
            let mut state = guard_replace(&mut guard, PoolState { buffers: pooled_new(), max_size: 0, reuse_threshold: 0 });
            let taken = state.take_fitting(min_capacity);
            let _ = guard_replace(&mut guard, state);
            taken
        };
        let (mut buffer, capacity) = match taken {
            Some((v, c)) => (v, c),
            None => (Vec::with_capacity(min_capacity), min_capacity),
        };
        vec_clear(&mut buffer);
        BorrowedBuffer { buffer, capacity, pool: arc_clone(&self.shared), reuse_threshold: self.reuse_threshold }
    }
}

impl View for BorrowedBuffer {
    type V = Seq<u8>;

    closed spec fn view(&self) -> Seq<u8> {
        self.buffer@
    }
}

impl BorrowedBuffer {
    /// The capacity recorded for the buffer when it was handed out: for a kept
    /// buffer, the capacity measured when it came back to the pool (emptying
    /// a buffer keeps its allocation); for a new one, the capacity asked of
    /// `Vec::with_capacity`, which allocates at least that much. The record is
    /// the buffer's capacity as handed out; later changes to the contents
    /// leave the record as it was.
    pub closed spec fn recorded_capacity(&self) -> usize {
        self.capacity
    }

    /// The buffer goes back to `pool` when it is dropped, under that pool's
    /// limit on the capacity of kept buffers.
    pub closed spec fn returns_to(&self, pool: &BufferPool) -> bool {
        self.pool == pool.shared && self.reuse_threshold == pool.reuse_threshold
    }

    /// The buffer goes back to the same pool as `other`.
    pub closed spec fn returns_to_same(&self, other: &BorrowedBuffer) -> bool {
        self.pool == other.pool && self.reuse_threshold == other.reuse_threshold
    }

    /// The underlying vector, for in-place changes.
    pub fn get_mut(&mut self) -> (r: &mut Vec<u8>)
        ensures
            r@ == old(self)@,
            final(self).recorded_capacity() == old(self).recorded_capacity(),
            final(self).returns_to_same(old(self)),
            final(self)@ == final(r)@,
    {
        &mut self.buffer
    }

    /// The contents, taken out of the pool's reach: a buffer obtained this way
    /// is not returned to the pool.
    pub fn into_inner(self) -> (r: Vec<u8>)
        ensures
            r@ == self@,
    {
        let mut s = self;
        take_vec(&mut s.buffer)
    }

    /// The contents as a slice.
    pub fn as_slice(&self) -> (r: &[u8])
        ensures
            r@ == self@,
    {
        self.buffer.as_slice()
    }

    /// The contents decoded as UTF-8, or the decoding error.
    pub fn as_utf8_string(&self) -> (r: Result<String, NetsshError>)
        ensures
            r is Ok <==> utf8_decoded(self@) is Some,
            r matches Ok(s) ==> s@ == utf8_decoded(self@)->0,
            r matches Err(e) ==> e is Utf8Error,
    {
        match utf8_decode(&self.buffer) {
            Ok(s) => Ok(s),
            Err(msg) => Err(NetsshError::Utf8Error(msg)),
        }
    }

    /// The contents decoded as UTF-8, invalid sequences replaced.
    pub fn as_utf8_lossy_string(&self) -> (r: String)
        ensures
            r@ == utf8_lossy(self@),
            utf8_decoded(self@) is Some ==> r@ == utf8_decoded(self@)->0,
            self@.len() > 0 ==> r@.len() > 0,
    {
        utf8_decode_lossy(&self.buffer)
    }

    /// Empties the buffer.
    pub fn clear(&mut self)
        ensures
            final(self)@ == Seq::<u8>::empty(),
            final(self).recorded_capacity() == old(self).recorded_capacity(),
            final(self).returns_to_same(old(self)),
    {
        vec_clear(&mut self.buffer);
    }

    /// The number of bytes held.
    pub fn len(&self) -> (n: usize)
        ensures
            n == self@.len(),
    {
        self.buffer.len()
    }

    /// Whether no bytes are held.
    pub fn is_empty(&self) -> (b: bool)
        ensures
            b == (self@.len() == 0),
    {
        self.buffer.len() == 0
    }

    /// Resizes to `new_len` bytes, filling new bytes with `value`.
    pub fn resize(&mut self, new_len: usize, value: u8)
        ensures
            final(self).recorded_capacity() == old(self).recorded_capacity(),
            final(self).returns_to_same(old(self)),
            final(self)@.len() == new_len,
            forall|i: int| 0 <= i < new_len ==> #[trigger] final(self)@[i]
                == if i < old(self)@.len() { old(self)@[i] } else { value },
    {
        self.buffer.resize(new_len, value);
    }
}

impl std::ops::Deref for BorrowedBuffer {
    type Target = [u8];

    fn deref(&self) -> (r: &[u8])
        ensures
            r@ == self@,
    {
        self.buffer.as_slice()
    }
}

} // verus!
