//! The generational resource pool: a fixed table of slots, a FIFO queue of
//! free slot indices, and a counter that mints the uniqueness tags.
use core::marker::PhantomData;
use std::collections::VecDeque;
use vstd::prelude::*;

use crate::handle::{decode, decode_spec, encode, encode_spec, index_of, unique_of, ResourceHandle, MAX_POOL_SIZE, SLOT_MASK};

verus! {

/// The lifecycle state of a pool slot.
///
/// A slot starts `Initial` (unoccupied). Allocating it makes it `Alloc`;
/// initializing the resource then makes it `Valid` or `Failed`. Destroying
/// the resource returns the slot to `Initial`. Only a `Valid` resource may be
/// used for rendering.
#[derive(Debug, Clone, Copy, PartialEq, Eq, Structural, Hash)]
pub enum ResourceState {
    /// The slot is unoccupied and can be allocated.
    Initial,
    /// An id has been allocated, but the resource is not initialized yet.
    Alloc,
    /// The resource has been allocated and initialized.
    Valid,
    /// Initializing the resource failed.
    Failed,
}

impl Default for ResourceState {
    fn default() -> (r: Self)
        ensures
            r == ResourceState::Initial,
    {
        ResourceState::Initial
    }
}

/// The bookkeeping of one pool entry: the id expected of a handle that
/// addresses it, and its lifecycle state.
#[derive(Debug, Clone, Copy, PartialEq, Eq, Structural)]
pub struct Slot {
    /// The full id of the current occupant; 0 while the slot is free.
    pub id: u32,
    /// The lifecycle state of the slot.
    pub state: ResourceState,
}

impl Default for Slot {
    fn default() -> (r: Self)
        ensures
            r == free_slot(),
    {
        Slot { id: 0, state: ResourceState::Initial }
    }
}

/// The value of an unoccupied slot.
pub open spec fn free_slot() -> Slot {
    Slot { id: 0, state: ResourceState::Initial }
}

/// The mathematical model of a pool.
pub struct PoolView<T> {
    /// One entry per slot; slot 0 is reserved and never used.
    pub slots: Seq<Slot>,
    /// The payload of each slot, present once initialization was attempted.
    pub resources: Seq<Option<T>>,
    /// The free slot indices, oldest-freed first.
    pub free: Seq<u32>,
    /// The number of allocations made so far, modulo 2^32.
    pub counter: u32,
    /// The number of allocations made so far.
    pub allocations: nat,
}

impl<T> PoolView<T> {
    /// A new pool with `capacity` usable slots, all free, queued in index order.
    pub open spec fn empty(capacity: nat) -> PoolView<T> {
        PoolView {
            slots: Seq::new(capacity + 1, |i: int| free_slot()),
            resources: Seq::new(capacity + 1, |i: int| None),
            free: Seq::new(capacity, |i: int| (i + 1) as u32),
            counter: 0,
            allocations: 0,
        }
    }

    /// The number of usable slots.
    pub open spec fn capacity(self) -> int {
        self.slots.len() - 1
    }

    /// Whether slot `i` is consistent with its state.
    pub open spec fn slot_ok(self, i: int) -> bool {
        let s = self.slots[i];
        match s.state {
            ResourceState::Initial => s.id == 0 && self.resources[i] is None,
            ResourceState::Alloc => index_of(s.id) == i && self.resources[i] is None,
            _ => index_of(s.id) == i && self.resources[i] is Some,
        }
    }

    /// The pool's invariant.
    ///
    /// An index is queued as free exactly when its slot is `Initial`, no index
    /// is queued twice, and every occupied slot holds an id that addresses it.
    pub open spec fn wf(self) -> bool {
        &&& 2 <= self.slots.len() <= MAX_POOL_SIZE
        &&& self.resources.len() == self.slots.len()
        &&& self.slots[0].state == ResourceState::Initial
        &&& self.free.no_duplicates()
        &&& forall|k: int| 0 <= k < self.free.len() ==> 0 < #[trigger] self.free[k] < self.slots.len()
        &&& forall|i: int|
            0 < i < self.slots.len() ==> (self.free.contains(i as u32) <==> #[trigger] self.slots[i].state
                == ResourceState::Initial)
        &&& forall|i: int| 0 <= i < self.slots.len() ==> #[trigger] self.slot_ok(i)
        &&& self.counter == self.allocations % 0x1_0000_0000
        &&& self.allocations < 0x10000 ==> forall|i: int|
            0 <= i < self.slots.len() ==> unique_of(#[trigger] self.slots[i].id) <= self.allocations
    }

    /// Whether `id` names the current occupant of its slot.
    pub open spec fn is_live(self, id: u32) -> bool {
        let i = index_of(id) as int;
        &&& 0 < i < self.slots.len()
        &&& self.slots[i].id == id
        &&& self.slots[i].state != ResourceState::Initial
    }

    /// The state of the resource that `id` names, if it is live.
    pub open spec fn state_of(self, id: u32) -> Option<ResourceState> {
        if self.is_live(id) {
            Some(self.slots[index_of(id) as int].state)
        } else {
            None
        }
    }

    /// The payload of the resource that `id` names, if it is live and has one.
    pub open spec fn resource_of(self, id: u32) -> Option<T> {
        if self.is_live(id) {
            self.resources[index_of(id) as int]
        } else {
            None
        }
    }

    /// The counter after one more allocation.
    pub open spec fn next_counter(self) -> u32 {
        if self.counter == u32::MAX {
            0
        } else {
            (self.counter + 1) as u32
        }
    }

    /// The id that the next allocation hands out: the oldest free index,
    /// tagged with the low 16 bits of the incremented counter.
    pub open spec fn next_id(self) -> u32 {
        encode_spec(self.free[0] as u16, (self.next_counter() % 0x10000) as u16)
    }

    /// The pool after an allocation from a non-empty free queue.
    pub open spec fn after_alloc(self) -> PoolView<T> {
        PoolView {
            slots: self.slots.update(
                self.free[0] as int,
                Slot { id: self.next_id(), state: ResourceState::Alloc },
            ),
            resources: self.resources,
            free: self.free.drop_first(),
            counter: self.next_counter(),
            allocations: self.allocations + 1,
        }
    }

    /// The pool after the live resource `id` was initialized into `state`
    /// with payload `resource`.
    pub open spec fn after_init(self, id: u32, state: ResourceState, resource: T) -> PoolView<T> {
        PoolView {
            slots: self.slots.update(index_of(id) as int, Slot { id, state }),
            resources: self.resources.update(index_of(id) as int, Some(resource)),
            free: self.free,
            counter: self.counter,
            allocations: self.allocations,
        }
    }

    /// The pool after the payload of the live resource `id` was replaced by
    /// `resource`.
    pub open spec fn after_write(self, id: u32, resource: T) -> PoolView<T> {
        PoolView {
            slots: self.slots,
            resources: self.resources.update(index_of(id) as int, Some(resource)),
            free: self.free,
            counter: self.counter,
            allocations: self.allocations,
        }
    }

    /// The pool after `k` allocations in a row, each from a non-empty queue.
    pub open spec fn after_allocs(self, k: nat) -> PoolView<T>
        decreases k,
    {
        if k == 0 {
            self
        } else {
            self.after_allocs((k - 1) as nat).after_alloc()
        }
    }

    /// The pool after the live resource `id` was destroyed: its slot is free
    /// again and its index goes to the back of the free queue.
    pub open spec fn after_destroy(self, id: u32) -> PoolView<T> {
        PoolView {
            slots: self.slots.update(index_of(id) as int, free_slot()),
            resources: self.resources.update(index_of(id) as int, None),
            free: self.free.push(index_of(id)),
            counter: self.counter,
            allocations: self.allocations,
        }
    }
}

/// A fixed-capacity pool of resources of payload type `T`, addressed by
/// handles of type `R`.
pub struct Pool<R, T> {
    resources: Vec<Option<T>>,
    slots: Vec<Slot>,
    free_queue: VecDeque<u32>,
    unique_counter: u32,
    allocations: Ghost<nat>,
    kind: PhantomData<R>,
}

impl<R, T> View for Pool<R, T> {
    type V = PoolView<T>;

    closed spec fn view(&self) -> PoolView<T> {
        PoolView {
            slots: self.slots@,
            resources: self.resources@,
            free: self.free_queue@,
            counter: self.unique_counter,
            allocations: self.allocations@,
        }
    }
}

/// A new pool satisfies the invariant.
pub proof fn lemma_empty_wf<T>(capacity: nat)
    requires
        0 < capacity < MAX_POOL_SIZE,
    ensures
        PoolView::<T>::empty(capacity).wf(),
{
    let p = PoolView::<T>::empty(capacity);
    assert(p.slots[0].state == ResourceState::Initial);
    assert(p.free.no_duplicates());
    assert forall|i: int| 0 < i < p.slots.len() implies (p.free.contains(i as u32)
        <==> #[trigger] p.slots[i].state == ResourceState::Initial) by {
        assert(p.free[i - 1] == i as u32);
    }
    assert forall|i: int| 0 <= i < p.slots.len() implies #[trigger] p.slot_ok(i) by {}
}

/// Allocating from a non-empty free queue keeps the invariant and hands out
/// a non-zero id that was not live and now names an `Alloc` slot.
pub proof fn lemma_alloc<T>(p: PoolView<T>)
    requires
        p.wf(),
        p.free.len() > 0,
    ensures
        p.after_alloc().wf(),
        index_of(p.next_id()) == p.free[0],
        p.next_id() != 0,
        !p.is_live(p.next_id()),
        p.after_alloc().state_of(p.next_id()) == Some(ResourceState::Alloc),
        p.after_alloc().resource_of(p.next_id()) is None,
{
    let q = p.after_alloc();
    let i = p.free[0];
    let id = p.next_id();
    crate::handle::lemma_round_trip(i as u16, (p.next_counter() % 0x10000) as u16);
    assert(index_of(id) == i);
    assert(p.slots[i as int].state == ResourceState::Initial) by {
        assert(p.free.contains(i));
    }
    assert(q.free.no_duplicates()) by {
        assert forall|a: int, b: int| 0 <= a < b < q.free.len() implies q.free[a] != q.free[b] by {
            assert(q.free[a] == p.free[a + 1]);
            assert(q.free[b] == p.free[b + 1]);
        }
    }
    assert forall|k: int| 0 <= k < q.free.len() implies 0 < #[trigger] q.free[k] < q.slots.len() by {
        assert(q.free[k] == p.free[k + 1]);
    }
    assert forall|j: int| 0 < j < q.slots.len() implies (q.free.contains(j as u32)
        <==> #[trigger] q.slots[j].state == ResourceState::Initial) by {
        if j == i {
            if q.free.contains(j as u32) {
                let k = choose|k: int| 0 <= k < q.free.len() && q.free[k] == j as u32;
                assert(p.free[k + 1] == p.free[0]);
            }
        } else {
            if p.free.contains(j as u32) {
                let k = choose|k: int| 0 <= k < p.free.len() && p.free[k] == j as u32;
                assert(k != 0);
                assert(q.free[k - 1] == j as u32);
            }
            if q.free.contains(j as u32) {
                let k = choose|k: int| 0 <= k < q.free.len() && q.free[k] == j as u32;
                assert(p.free[k + 1] == j as u32);
            }
        }
    }
    assert forall|j: int| 0 <= j < q.slots.len() implies #[trigger] q.slot_ok(j) by {
        assert(p.slot_ok(j));
    }
    assert(p.slot_ok(i as int));
    assert(q.is_live(id));
}

/// Initializing an `Alloc` resource into `Valid` or `Failed` keeps the
/// invariant.
pub proof fn lemma_init<T>(p: PoolView<T>, id: u32, state: ResourceState, resource: T)
    requires
        p.wf(),
        p.state_of(id) == Some(ResourceState::Alloc),
        state == ResourceState::Valid || state == ResourceState::Failed,
    ensures
        p.after_init(id, state, resource).wf(),
        p.after_init(id, state, resource).state_of(id) == Some(state),
        p.after_init(id, state, resource).resource_of(id) == Some(resource),
{
    let q = p.after_init(id, state, resource);
    let i = index_of(id) as int;
    assert forall|j: int| 0 < j < q.slots.len() implies (q.free.contains(j as u32)
        <==> #[trigger] q.slots[j].state == ResourceState::Initial) by {
        assert(p.slots[j].state == ResourceState::Initial <==> p.free.contains(j as u32));
    }
    assert forall|j: int| 0 <= j < q.slots.len() implies #[trigger] q.slot_ok(j) by {
        assert(p.slot_ok(j));
    }
}

/// Replacing the payload of a live resource that has one keeps the invariant.
pub proof fn lemma_write<T>(p: PoolView<T>, id: u32, resource: T)
    requires
        p.wf(),
        p.resource_of(id) is Some,
    ensures
        p.after_write(id, resource).wf(),
        p.after_write(id, resource).resource_of(id) == Some(resource),
        p.after_write(id, resource).state_of(id) == p.state_of(id),
{
    let q = p.after_write(id, resource);
    assert forall|j: int| 0 <= j < q.slots.len() implies #[trigger] q.slot_ok(j) by {
        assert(p.slot_ok(j));
    }
    assert forall|j: int| 0 < j < q.slots.len() implies (q.free.contains(j as u32)
        <==> #[trigger] q.slots[j].state == ResourceState::Initial) by {
        assert(p.slots[j].state == ResourceState::Initial <==> p.free.contains(j as u32));
    }
}

/// Destroying a live resource keeps the invariant, frees its slot and queues
/// its index last.
pub proof fn lemma_destroy<T>(p: PoolView<T>, id: u32)
    requires
        p.wf(),
        p.is_live(id),
    ensures
        p.after_destroy(id).wf(),
        !p.after_destroy(id).is_live(id),
        p.after_destroy(id).slots[index_of(id) as int].state == ResourceState::Initial,
        p.after_destroy(id).free.last() == index_of(id),
{
    let q = p.after_destroy(id);
    let i = index_of(id);
    assert(!p.free.contains(i)) by {
        assert(p.slots[i as int].state != ResourceState::Initial);
    }
    assert(q.free.no_duplicates()) by {
        assert forall|a: int, b: int| 0 <= a < b < q.free.len() implies q.free[a] != q.free[b] by {
            if b == q.free.len() - 1 {
                assert(q.free[a] == p.free[a]);
            }
        }
    }
    assert forall|k: int| 0 <= k < q.free.len() implies 0 < #[trigger] q.free[k] < q.slots.len() by {
        if k < p.free.len() {
            assert(q.free[k] == p.free[k]);
        }
    }
    assert forall|j: int| 0 < j < q.slots.len() implies (q.free.contains(j as u32)
        <==> #[trigger] q.slots[j].state == ResourceState::Initial) by {
        if j == i {
            assert(q.free[q.free.len() - 1] == j as u32);
        } else {
            if p.free.contains(j as u32) {
                let k = choose|k: int| 0 <= k < p.free.len() && p.free[k] == j as u32;
                assert(q.free[k] == j as u32);
            }
            if q.free.contains(j as u32) {
                let k = choose|k: int| 0 <= k < q.free.len() && q.free[k] == j as u32;
                assert(k < p.free.len());
                assert(p.free[k] == j as u32);
            }
        }
    }
    assert forall|j: int| 0 <= j < q.slots.len() implies #[trigger] q.slot_ok(j) by {
        assert(p.slot_ok(j));
    }
}

/// Concurrently live handles never collide: two different live ids address
/// different slots, so they never decode to the same (index, unique) pair.
pub proof fn lemma_live_ids_distinct<T>(p: PoolView<T>, a: u32, b: u32)
    requires
        p.wf(),
        p.is_live(a),
        p.is_live(b),
        a != b,
    ensures
        index_of(a) != index_of(b),
        decode_spec(a).0 != decode_spec(b).0,
        decode_spec(a) != decode_spec(b),
{
}

/// Stale handles are detected. Once a live handle `id` is destroyed it no
/// longer resolves. When a later allocation reuses its slot, and fewer than
/// 65535 allocations were made before that one (so that the 16-bit tag has
/// not wrapped round), the old handle still does not resolve while the new
/// one does.
pub proof fn lemma_dangling_detected<T>(p: PoolView<T>, id: u32)
    requires
        p.wf(),
        p.is_live(id),
    ensures
        p.after_destroy(id).state_of(id) is None,
        p.after_destroy(id).resource_of(id) is None,
        ({
            let q = p.after_destroy(id);
            q.free.len() > 0 && index_of(q.next_id()) == index_of(id) && q.allocations < 0xFFFF ==> {
                &&& q.next_id() != id
                &&& !q.after_alloc().is_live(id)
                &&& q.after_alloc().is_live(q.next_id())
                &&& q.after_alloc().state_of(id) is None
                &&& q.after_alloc().resource_of(id) is None
                &&& q.after_alloc().state_of(q.next_id()) == Some(ResourceState::Alloc)
            }
        }),
{
    lemma_destroy(p, id);
    let q = p.after_destroy(id);
    if q.free.len() > 0 && index_of(q.next_id()) == index_of(id) && q.allocations < 0xFFFF {
        let i = index_of(id) as int;
        assert(unique_of(p.slots[i].id) <= p.allocations);
        assert(q.counter == q.allocations);
        assert(q.next_counter() == q.allocations + 1);
        crate::handle::lemma_round_trip(q.free[0] as u16, (q.next_counter() % 0x10000) as u16);
        assert(unique_of(q.next_id()) == q.allocations + 1);
        lemma_alloc(q);
    }
}

/// A new pool of capacity `n` grants exactly `n` allocations: after `k <= n`
/// of them the invariant holds and `n - k` slots are still free, so each of
/// the first `n` succeeds and the next one finds the queue empty.
pub proof fn lemma_capacity<T>(n: nat, k: nat)
    requires
        0 < n < MAX_POOL_SIZE,
        k <= n,
    ensures
        PoolView::<T>::empty(n).after_allocs(k).wf(),
        PoolView::<T>::empty(n).after_allocs(k).free.len() == n - k,
    decreases k,
{
    if k == 0 {
        lemma_empty_wf::<T>(n);
    } else {
        lemma_capacity::<T>(n, (k - 1) as nat);
        lemma_alloc(PoolView::<T>::empty(n).after_allocs((k - 1) as nat));
    }
}

/// Freed slots are reused oldest-freed first. Destroying live handles `a`,
/// `b`, `c` in this order queues their indices behind the free ones; from a
/// pool with no free slot, the next three allocations take the slots of `a`,
/// `b` and `c`, in that order.
pub proof fn lemma_fifo_reuse<T>(p: PoolView<T>, a: u32, b: u32, c: u32)
    requires
        p.wf(),
        p.is_live(a),
        p.is_live(b),
        p.is_live(c),
        a != b,
        b != c,
        a != c,
    ensures
        p.after_destroy(a).after_destroy(b).after_destroy(c).free == p.free.push(index_of(a)).push(
            index_of(b),
        ).push(index_of(c)),
        ({
            let q = p.after_destroy(a).after_destroy(b).after_destroy(c);
            p.free.len() == 0 ==> {
                &&& index_of(q.next_id()) == index_of(a)
                &&& index_of(q.after_alloc().next_id()) == index_of(b)
                &&& index_of(q.after_alloc().after_alloc().next_id()) == index_of(c)
            }
        }),
{
    lemma_destroy(p, a);
    let p1 = p.after_destroy(a);
    lemma_live_ids_distinct(p, a, b);
    lemma_live_ids_distinct(p, a, c);
    lemma_live_ids_distinct(p, b, c);
    assert(p1.is_live(b));
    lemma_destroy(p1, b);
    let p2 = p1.after_destroy(b);
    assert(p2.is_live(c));
    lemma_destroy(p2, c);
    let q = p2.after_destroy(c);
    if p.free.len() == 0 {
        assert(q.free =~= seq![index_of(a), index_of(b), index_of(c)]);
        lemma_alloc(q);
        let q1 = q.after_alloc();
        assert(q1.free =~= seq![index_of(b), index_of(c)]);
        lemma_alloc(q1);
        let q2 = q1.after_alloc();
        assert(q2.free =~= seq![index_of(c)]);
        lemma_alloc(q2);
    }
}

/// The lifecycle of a slot. A freshly allocated resource is `Alloc`;
/// initializing it makes it `Valid` or `Failed`; destroying it from any of
/// these states returns its slot to `Initial` and queues its index again.
pub proof fn lemma_lifecycle<T>(p: PoolView<T>, payload: T)
    requires
        p.wf(),
        p.free.len() > 0,
    ensures
        ({
            let id = p.next_id();
            let i = index_of(id) as int;
            let q = p.after_alloc();
            let v = q.after_init(id, ResourceState::Valid, payload);
            let f = q.after_init(id, ResourceState::Failed, payload);
            &&& q.state_of(id) == Some(ResourceState::Alloc)
            &&& v.state_of(id) == Some(ResourceState::Valid)
            &&& f.state_of(id) == Some(ResourceState::Failed)
            &&& q.after_destroy(id).slots[i].state == ResourceState::Initial
            &&& v.after_destroy(id).slots[i].state == ResourceState::Initial
            &&& f.after_destroy(id).slots[i].state == ResourceState::Initial
            &&& q.after_destroy(id).free.last() == i
            &&& v.after_destroy(id).free.last() == i
            &&& f.after_destroy(id).free.last() == i
            &&& q.after_destroy(id).wf() && v.after_destroy(id).wf() && f.after_destroy(id).wf()
        }),
{
    let id = p.next_id();
    lemma_alloc(p);
    let q = p.after_alloc();
    lemma_init(q, id, ResourceState::Valid, payload);
    lemma_init(q, id, ResourceState::Failed, payload);
    lemma_destroy(q, id);
    lemma_destroy(q.after_init(id, ResourceState::Valid, payload), id);
    lemma_destroy(q.after_init(id, ResourceState::Failed, payload), id);
}

impl<R: ResourceHandle, T> Pool<R, T> {
    /// Creates a pool with `num` usable slots.
    ///
    /// Slot 0 is reserved for the invalid id, so the table has `num + 1`
    /// entries; the free queue holds `1..=num` in order.
    pub fn new(num: usize) -> (r: Self)
        requires
            0 < num < MAX_POOL_SIZE,
        ensures
            r@ == PoolView::<T>::empty(num as nat),
            r@.wf(),
    {
        let mut resources: Vec<Option<T>> = Vec::with_capacity(num + 1);
        let mut slots: Vec<Slot> = Vec::with_capacity(num + 1);
        let mut free_queue: VecDeque<u32> = VecDeque::with_capacity(num);
        resources.push(None);
        slots.push(Slot { id: 0, state: ResourceState::Initial });
        let mut i: usize = 1;
        while i <= num
            invariant
                1 <= i <= num + 1,
                num < MAX_POOL_SIZE,
                resources@.len() == i,
                slots@.len() == i,
                free_queue@.len() == i - 1,
                forall|k: int| 0 <= k < i ==> #[trigger] resources@[k] is None,
                forall|k: int| 0 <= k < i ==> #[trigger] slots@[k] == free_slot(),
                forall|k: int| 0 <= k < i - 1 ==> #[trigger] free_queue@[k] == (k + 1) as u32,
            decreases num + 1 - i,
        {
            resources.push(None);
            slots.push(Slot { id: 0, state: ResourceState::Initial });
            free_queue.push_back(i as u32);
            i += 1;
        }
        let r = Pool { resources, slots, free_queue, unique_counter: 0, allocations: Ghost(0), kind: PhantomData };
        assert(r@.slots =~= PoolView::<T>::empty(num as nat).slots);
        assert(r@.resources =~= PoolView::<T>::empty(num as nat).resources);
        assert(r@.free =~= PoolView::<T>::empty(num as nat).free);
        proof {
            lemma_empty_wf::<T>(num as nat);
        }
        r
    }

    /// Creates a pool with `num` usable slots, or `None` when `num` is 0 or
    /// not below `MAX_POOL_SIZE`.
    pub fn try_new(num: usize) -> (r: Option<Self>)
        ensures
            match r {
                Some(p) => 0 < num < MAX_POOL_SIZE && p@ == PoolView::<T>::empty(num as nat),
                None => num == 0 || num >= MAX_POOL_SIZE,
            },
    {
        if num == 0 || num >= MAX_POOL_SIZE {
            None
        } else {
            Some(Pool::new(num))
        }
    }

    /// Allocates a slot without initializing its resource.
    ///
    /// Takes the oldest free index, bumps the counter and tags the slot with
    /// its low 16 bits. Returns `None`, changing nothing, when every slot is
    /// taken.
    pub fn allocate(&mut self) -> (r: Option<R>)
        requires
            old(self)@.wf(),
        ensures
            final(self)@.wf(),
            match r {
                None => old(self)@.free.len() == 0 && final(self)@ == old(self)@,
                Some(h) => {
                    &&& old(self)@.free.len() > 0
                    &&& h.spec_id() == old(self)@.next_id()
                    &&& final(self)@ == old(self)@.after_alloc()
                    &&& h.spec_id() != 0
                    &&& !old(self)@.is_live(h.spec_id())
                    &&& final(self)@.state_of(h.spec_id()) == Some(ResourceState::Alloc)
                },
            },
    {
        let popped = self.free_queue.pop_front();
        match popped {
            None => None,
            Some(index) => {
                proof {
                    lemma_alloc(old(self)@);
                }
                self.unique_counter = self.unique_counter.wrapping_add(1);
                self.allocations = Ghost(self.allocations@ + 1);
                let counter = self.unique_counter;
                assert(counter & 0xFFFFu32 == counter % 0x10000) by (bit_vector);
                let id = encode(index as u16, (counter & SLOT_MASK) as u16);
                self.slots[index as usize] = Slot { id, state: ResourceState::Alloc };
                assert(self@.slots =~= old(self)@.after_alloc().slots);
                Some(R::with(id))
            }
        }
    }

    /// The index of the slot that `id` names, if `id` is live.
    fn live_index(&self, id: u32) -> (r: Option<usize>)
        requires
            self@.wf(),
        ensures
            match r {
                Some(i) => self@.is_live(id) && i == index_of(id),
                None => !self@.is_live(id),
            },
    {
        let (index, _) = decode(id);
        let i = index as usize;
        if 0 < i && i < self.slots.len() && self.slots[i].id == id && self.slots[i].state
            != ResourceState::Initial {
            Some(i)
        } else {
            None
        }
    }

    /// Resolves `handle`: the state of the resource it names and its
    /// payload, which is there once initialization was attempted.
    ///
    /// `Some` for every live handle, whatever its state; `None` when the
    /// handle is stale (its slot was freed or reused) or out of range.
    pub fn lookup(&self, handle: &R) -> (r: Option<(ResourceState, Option<&T>)>)
        requires
            self@.wf(),
        ensures
            r is Some <==> self@.is_live(handle.spec_id()),
            match r {
                Some((state, payload)) => {
                    &&& self@.state_of(handle.spec_id()) == Some(state)
                    &&& match payload {
                        Some(x) => self@.resource_of(handle.spec_id()) == Some(*x),
                        None => self@.resource_of(handle.spec_id()) is None,
                    }
                },
                None => true,
            },
    {
        match self.live_index(handle.id()) {
            None => None,
            Some(i) => Some((self.slots[i].state, self.resources[i].as_ref())),
        }
    }

    /// Resolves `handle` as `lookup` does, with mutable access to the
    /// payload. Only writes through the payload change the pool.
    pub fn lookup_mut(&mut self, handle: &R) -> (r: Option<(ResourceState, Option<&mut T>)>)
        requires
            old(self)@.wf(),
        ensures
            final(self)@.wf(),
            r is Some <==> old(self)@.is_live(handle.spec_id()),
            match r {
                Some((state, Some(x))) => {
                    &&& old(self)@.state_of(handle.spec_id()) == Some(state)
                    &&& old(self)@.resource_of(handle.spec_id()) == Some(*x)
                    &&& final(self)@ == old(self)@.after_write(handle.spec_id(), *final(x))
                },
                Some((state, None)) => {
                    &&& old(self)@.state_of(handle.spec_id()) == Some(state)
                    &&& old(self)@.resource_of(handle.spec_id()) is None
                    &&& final(self)@ == old(self)@
                },
                None => final(self)@ == old(self)@,
            },
    {
        match self.live_index(handle.id()) {
            None => None,
            Some(i) => {
                let state = self.slots[i].state;
                if self.resources[i].is_none() {
                    return Some((state, None));
                }
                let r = self.resources[i].as_mut();
                proof {
                    lemma_write(old(self)@, handle.spec_id(), *final(r.unwrap()));
                }
                Some((state, r))
            }
        }
    }

    /// The lifecycle state of the resource that `handle` names; `None` when
    /// the handle is stale or out of range.
    pub fn lookup_state(&self, handle: &R) -> (r: Option<ResourceState>)
        requires
            self@.wf(),
        ensures
            r == self@.state_of(handle.spec_id()),
    {
        match self.live_index(handle.id()) {
            None => None,
            Some(i) => Some(self.slots[i].state),
        }
    }

    /// Moves an `Alloc` resource to `state`, storing its payload.
    fn init(&mut self, handle: &R, state: ResourceState, resource: T) -> (r: bool)
        requires
            old(self)@.wf(),
            state == ResourceState::Valid || state == ResourceState::Failed,
        ensures
            final(self)@.wf(),
            r == (old(self)@.state_of(handle.spec_id()) == Some(ResourceState::Alloc)),
            r ==> final(self)@ == old(self)@.after_init(handle.spec_id(), state, resource),
            !r ==> final(self)@ == old(self)@,
    {
        let id = handle.id();
        match self.live_index(id) {
            None => false,
            Some(i) => {
                if self.slots[i].state != ResourceState::Alloc {
                    return false;
                }
                proof {
                    lemma_init(old(self)@, id, state, resource);
                }
                self.slots[i] = Slot { id, state };
                self.resources[i] = Some(resource);
                assert(self@.slots =~= old(self)@.after_init(id, state, resource).slots);
                assert(self@.resources =~= old(self)@.after_init(id, state, resource).resources);
                true
            }
        }
    }

    /// Records that initializing the resource succeeded, storing its payload.
    ///
    /// Only an `Alloc` resource moves; for any other handle this returns
    /// `false` and changes nothing.
    pub fn set_valid(&mut self, handle: &R, resource: T) -> (r: bool)
        requires
            old(self)@.wf(),
        ensures
            final(self)@.wf(),
            r == (old(self)@.state_of(handle.spec_id()) == Some(ResourceState::Alloc)),
            r ==> final(self)@ == old(self)@.after_init(
                handle.spec_id(),
                ResourceState::Valid,
                resource,
            ),
            r ==> final(self)@.state_of(handle.spec_id()) == Some(ResourceState::Valid),
            !r ==> final(self)@ == old(self)@,
    {
        let r = self.init(handle, ResourceState::Valid, resource);
        proof {
            if r {
                lemma_init(old(self)@, handle.spec_id(), ResourceState::Valid, resource);
            }
        }
        r
    }

    /// Records that initializing the resource failed, storing what was built
    /// of its payload so that it can be released on destruction.
    ///
    /// Only an `Alloc` resource moves; for any other handle this returns
    /// `false` and changes nothing.
    pub fn set_failed(&mut self, handle: &R, resource: T) -> (r: bool)
        requires
            old(self)@.wf(),
        ensures
            final(self)@.wf(),
            r == (old(self)@.state_of(handle.spec_id()) == Some(ResourceState::Alloc)),
            r ==> final(self)@ == old(self)@.after_init(
                handle.spec_id(),
                ResourceState::Failed,
                resource,
            ),
            r ==> final(self)@.state_of(handle.spec_id()) == Some(ResourceState::Failed),
            !r ==> final(self)@ == old(self)@,
    {
        let r = self.init(handle, ResourceState::Failed, resource);
        proof {
            if r {
                lemma_init(old(self)@, handle.spec_id(), ResourceState::Failed, resource);
            }
        }
        r
    }

    /// Destroys the resource that `handle` names and returns its payload, for
    /// the backend to release.
    ///
    /// The slot goes back to `Initial` and its index to the back of the free
    /// queue. A stale handle (a double free included) is detected and
    /// ignored: the result is `None` and nothing changes.
    pub fn destroy(&mut self, handle: &R) -> (r: Option<Option<T>>)
        requires
            old(self)@.wf(),
        ensures
            final(self)@.wf(),
            match r {
                Some(payload) => {
                    &&& old(self)@.is_live(handle.spec_id())
                    &&& payload == old(self)@.resources[index_of(handle.spec_id()) as int]
                    &&& final(self)@ == old(self)@.after_destroy(handle.spec_id())
                },
                None => {
                    &&& !old(self)@.is_live(handle.spec_id())
                    &&& final(self)@ == old(self)@
                },
            },
    {
        let id = handle.id();
        match self.live_index(id) {
            None => None,
            Some(i) => {
                proof {
                    lemma_destroy(old(self)@, id);
                }
                let payload = self.resources[i].take();
                self.slots[i] = Slot { id: 0, state: ResourceState::Initial };
                self.free_queue.push_back(i as u32);
                assert(self@.slots =~= old(self)@.after_destroy(id).slots);
                assert(self@.resources =~= old(self)@.after_destroy(id).resources);
                Some(payload)
            }
        }
    }
}

} // verus!
