//! The keyed pool: one rendezvous slot per kind.
//!
//! A value is filed under the kind it reports, and a reader asks for one
//! kind. The slots of different kinds do not influence each other; closing
//! closes all of them at once.

use crate::sync::pool::{
    Deposit, Pickup, PoolGuard, PoolModel, PoolState, Reply, Resolution, Slot, WriteError,
};
use std::collections::hash_map::RandomState;
use std::collections::HashMap;
use std::hash::Hash;
use vstd::prelude::*;
use vstd::std_specs::hash::{builds_valid_hashers, obeys_key_model};

verus! {

/// A value that says which kind it belongs to.
pub trait Kind<K> {
    /// The kind of this value.
    spec fn spec_kind(&self) -> K;

    /// Returns the kind of this value.
    fn kind(&self) -> (kind: K)
        ensures
            kind == self.spec_kind(),
    ;
}

/// Mathematical state of a keyed pool: what the slot of each kind holds, for
/// the kinds that have been used, and the closed flag that all kinds share.
#[verifier::reject_recursive_types(K)]
pub struct KindPoolModel<K, V> {
    pub slots: Map<K, Slot<V>>,
    pub closed: bool,
}

/// Whatever `slot` holds on behalf of a writer is of kind `kind`.
pub open spec fn holds_only<K, V: Kind<K>>(slot: Slot<V>, kind: K) -> bool {
    match slot {
        Slot::Full(value) => value.spec_kind() == kind,
        Slot::Taken(Reply::Rejected(value)) => value.spec_kind() == kind,
        _ => true,
    }
}

impl<K, V: Kind<K>> KindPoolModel<K, V> {
    /// A fresh keyed pool: open, and no kind used yet.
    pub open spec fn init() -> Self {
        KindPoolModel { slots: Map::empty(), closed: false }
    }

    /// The pool of kind `kind`. A kind that has not been used yet has an
    /// empty slot.
    pub open spec fn pool(self, kind: K) -> PoolModel<V> {
        PoolModel {
            slot: if self.slots.contains_key(kind) {
                self.slots[kind]
            } else {
                Slot::Empty
            },
            closed: self.closed,
        }
    }

    /// The same keyed pool with the slot of kind `kind` as in `pool`.
    pub open spec fn with_pool(self, kind: K, pool: PoolModel<V>) -> Self {
        KindPoolModel { slots: self.slots.insert(kind, pool.slot), closed: self.closed }
    }

    /// Every value held is filed under its own kind.
    pub open spec fn sorted(self) -> bool {
        forall|kind: K| #[trigger]
            self.slots.contains_key(kind) ==> holds_only(self.slots[kind], kind)
    }

    /// State after a writer offers `value`. A closed keyed pool touches no
    /// slot.
    pub open spec fn deposit(self, value: V) -> Self {
        if self.closed {
            self
        } else {
            self.with_pool(value.spec_kind(), self.pool(value.spec_kind()).deposit(value))
        }
    }

    /// State after a reader asks for a value of kind `kind`. A closed keyed
    /// pool touches no slot.
    pub open spec fn pick_up(self, kind: K) -> Self {
        if self.closed {
            self
        } else {
            self.with_pool(kind, self.pool(kind).pick_up())
        }
    }

    /// State after the reader lets go of a guard over `value`.
    pub open spec fn resolve(self, how: Resolution, value: V) -> Self {
        self.with_pool(value.spec_kind(), self.pool(value.spec_kind()).resolve(how, value))
    }

    /// State after the writer of kind `kind` has asked for its result.
    pub open spec fn collect(self, kind: K) -> Self {
        self.with_pool(kind, self.pool(kind).collect())
    }

    /// State after the writer of kind `kind` has given up waiting.
    pub open spec fn abandon(self, kind: K) -> Self {
        self.with_pool(kind, self.pool(kind).abandon())
    }

    /// State after `close`.
    pub open spec fn close(self) -> Self {
        KindPoolModel { slots: self.slots, closed: true }
    }
}

/// The slots and the closed flag of one keyed pool.
#[verifier::reject_recursive_types(K)]
pub struct KindPoolState<K: Eq + Hash, V: Kind<K>> {
    slots: HashMap<K, Slot<V>>,
    closed: bool,
}

impl<K: Eq + Hash, V: Kind<K>> View for KindPoolState<K, V> {
    type V = KindPoolModel<K, V>;

    closed spec fn view(&self) -> KindPoolModel<K, V> {
        KindPoolModel { slots: self.slots@, closed: self.closed }
    }
}

impl<K: Eq + Hash, V: Kind<K>> KindPoolState<K, V> {
    /// The keyed pool is in order: its keys behave as keys of a hash map
    /// must, and every value held is filed under its own kind.
    pub open spec fn wf(&self) -> bool {
        &&& obeys_key_model::<K>()
        &&& builds_valid_hashers::<RandomState>()
        &&& self@.sorted()
    }

    /// Creates an open keyed pool in which no kind has been used.
    pub fn new() -> (pool: Self)
        requires
            obeys_key_model::<K>(),
        ensures
            pool.wf(),
            pool@ == KindPoolModel::<K, V>::init(),
    {
        broadcast use vstd::std_specs::hash::axiom_random_state_builds_valid_hashers;

        KindPoolState { slots: HashMap::new(), closed: false }
    }

    /// Whether `close` has been called.
    pub fn is_closed(&self) -> (closed: bool)
        ensures
            closed == self@.closed,
    {
        self.closed
    }

    /// Takes the pool of kind `kind` out of the map, creating it if the kind
    /// has not been used.
    fn take_pool(&mut self, kind: &K) -> (pool: PoolState<V>)
        requires
            old(self).wf(),
        ensures
            pool@ == old(self)@.pool(*kind),
            holds_only(pool@.slot, *kind),
            final(self)@.slots == old(self)@.slots.remove(*kind),
            final(self)@.closed == old(self)@.closed,
            final(self).wf(),
    {
        broadcast use vstd::std_specs::hash::group_hash_axioms;

        let slot = match self.slots.remove(kind) {
            Some(slot) => slot,
            None => Slot::Empty,
        };
        PoolState::from_parts(slot, self.closed)
    }

    /// Puts the pool of kind `kind` back.
    fn put_pool(&mut self, kind: K, pool: PoolState<V>)
        requires
            old(self).wf(),
            holds_only(pool@.slot, kind),
        ensures
            final(self)@.slots == old(self)@.slots.insert(kind, pool@.slot),
            final(self)@.closed == old(self)@.closed,
            final(self).wf(),
    {
        self.slots.insert(kind, pool.into_slot());
    }

    /// Offers `value` to the pool of its kind.
    ///
    /// A closed keyed pool hands the value back as `Closed` and touches no
    /// slot. Otherwise the value is stored if the slot of its kind is empty,
    /// and comes back as `Busy` if it is not.
    pub fn write_value(&mut self, value: V) -> (deposit: Deposit<V>)
        requires
            old(self).wf(),
        ensures
            final(self).wf(),
            final(self)@ == old(self)@.deposit(value),
            old(self)@.closed ==> deposit == Deposit::Closed(value),
            old(self)@.pool(value.spec_kind()).accepts_deposit() ==> deposit
                == Deposit::<V>::Stored,
            !old(self)@.closed && old(self)@.pool(value.spec_kind()).in_flight() ==> deposit
                == Deposit::Busy(value),
    {
        if self.closed {
            return Deposit::Closed(value);
        }
        let kind = value.kind();
        let mut pool = self.take_pool(&kind);
        let deposit = pool.write_value(value);
        self.put_pool(kind, pool);
        proof {
            assert(self@.slots =~= old(self)@.deposit(value).slots);
        }
        deposit
    }

    /// Picks up the deposited value of kind `kind`, if there is one.
    ///
    /// Whatever is handed out is of kind `kind`. A closed keyed pool answers
    /// `Closed` and touches no slot.
    pub fn read_value(&mut self, kind: K) -> (pickup: Pickup<V>)
        requires
            old(self).wf(),
        ensures
            final(self).wf(),
            final(self)@ == old(self)@.pick_up(kind),
            pickup matches Pickup::Taken(guard) ==> guard@.spec_kind() == kind,
            if old(self)@.closed {
                pickup is Closed
            } else {
                match old(self)@.pool(kind).slot {
                    Slot::Full(value) => pickup matches Pickup::Taken(guard) && guard@ == value,
                    _ => pickup is Empty,
                }
            },
    {
        if self.closed {
            return Pickup::Closed;
        }
        let mut pool = self.take_pool(&kind);
        let pickup = pool.read_value();
        self.put_pool(kind, pool);
        proof {
            assert(self@.slots =~= old(self)@.pick_up(kind).slots);
        }
        pickup
    }

    /// Collects the result of the hand-off that is under way for kind
    /// `kind`, as `PoolState::wait_response` does for a single pool.
    pub fn wait_response(&mut self, kind: K) -> (response: Option<Result<(), WriteError<V>>>)
        requires
            old(self).wf(),
        ensures
            final(self).wf(),
            response == old(self)@.pool(kind).outcome(),
            final(self)@ == old(self)@.collect(kind),
    {
        let mut pool = self.take_pool(&kind);
        let response = pool.wait_response();
        self.put_pool(kind, pool);
        proof {
            assert(self@.slots =~= old(self)@.collect(kind).slots);
        }
        response
    }

    /// Gives up the hand-off under way for kind `kind` on behalf of its
    /// writer, as `PoolState::abandon` does for a single pool.
    pub fn abandon(&mut self, kind: K)
        requires
            old(self).wf(),
        ensures
            final(self).wf(),
            final(self)@ == old(self)@.abandon(kind),
    {
        let mut pool = self.take_pool(&kind);
        pool.abandon();
        self.put_pool(kind, pool);
        proof {
            assert(self@.slots =~= old(self)@.abandon(kind).slots);
        }
    }

    /// Keeps the value under `guard`; its writer will be told `Ok`.
    pub fn accept(&mut self, guard: PoolGuard<V>) -> (value: V)
        requires
            old(self).wf(),
        ensures
            final(self).wf(),
            value == guard@,
            final(self)@ == old(self)@.resolve(Resolution::Accept, guard@),
    {
        let kind = guard.get().kind();
        let mut pool = self.take_pool(&kind);
        let value = guard.accept(&mut pool);
        self.put_pool(kind, pool);
        proof {
            assert(self@.slots =~= old(self)@.resolve(Resolution::Accept, guard@).slots);
        }
        value
    }

    /// Hands the value under `guard` back; its writer will be told
    /// `Rejected` with it.
    pub fn reject(&mut self, guard: PoolGuard<V>)
        requires
            old(self).wf(),
        ensures
            final(self).wf(),
            final(self)@ == old(self)@.resolve(Resolution::Reject, guard@),
    {
        let kind = guard.get().kind();
        let mut pool = self.take_pool(&kind);
        guard.reject(&mut pool);
        self.put_pool(kind, pool);
        proof {
            assert(self@.slots =~= old(self)@.resolve(Resolution::Reject, guard@).slots);
        }
    }

    /// Gives `guard` up without a decision, as when it goes out of scope.
    /// The value is discarded and its writer is told `Ok`.
    pub fn release(&mut self, guard: PoolGuard<V>)
        requires
            old(self).wf(),
        ensures
            final(self).wf(),
            final(self)@ == old(self)@.resolve(Resolution::Drop, guard@),
    {
        let kind = guard.get().kind();
        let mut pool = self.take_pool(&kind);
        guard.release(&mut pool);
        self.put_pool(kind, pool);
        proof {
            assert(self@.slots =~= old(self)@.resolve(Resolution::Drop, guard@).slots);
        }
    }

    /// Closes the pools of all kinds, used or not. Closing a closed keyed
    /// pool changes nothing.
    pub fn close(&mut self)
        requires
            old(self).wf(),
        ensures
            final(self).wf(),
            final(self)@ == old(self)@.close(),
            forall|kind: K| #[trigger] final(self)@.pool(kind) == old(self)@.pool(kind).close(),
    {
        self.closed = true;
    }
}

/// A reader of kind `kind` gets only values of kind `kind`. In a sorted keyed
/// pool the value that waits in the slot of a kind is of that kind, and every
/// step leaves the keyed pool sorted.
pub proof fn lemma_sorted_is_kept<K, V: Kind<K>>(
    pool: KindPoolModel<K, V>,
    kind: K,
    value: V,
    how: Resolution,
)
    requires
        pool.sorted(),
    ensures
        KindPoolModel::<K, V>::init().sorted(),
        pool.pool(kind).slot matches Slot::Full(held) ==> held.spec_kind() == kind,
        pool.deposit(value).sorted(),
        pool.pick_up(kind).sorted(),
        pool.resolve(how, value).sorted(),
        pool.collect(kind).sorted(),
        pool.abandon(kind).sorted(),
        pool.close().sorted(),
{
    assert(KindPoolModel::<K, V>::init().slots.dom() =~= Set::<K>::empty());
    assert(pool.slots.contains_key(kind) ==> holds_only(pool.slots[kind], kind));
    let filed = value.spec_kind();
    assert(pool.slots.contains_key(filed) ==> holds_only(pool.slots[filed], filed));
    assert forall|k: K| #[trigger]
        pool.deposit(value).slots.contains_key(k) implies holds_only(
        pool.deposit(value).slots[k],
        k,
    ) by {
        assert(k != filed ==> pool.slots.contains_key(k));
    }
    assert forall|k: K| #[trigger]
        pool.pick_up(kind).slots.contains_key(k) implies holds_only(
        pool.pick_up(kind).slots[k],
        k,
    ) by {
        assert(k != kind ==> pool.slots.contains_key(k));
    }
    assert forall|k: K| #[trigger]
        pool.resolve(how, value).slots.contains_key(k) implies holds_only(
        pool.resolve(how, value).slots[k],
        k,
    ) by {
        assert(k != filed ==> pool.slots.contains_key(k));
    }
    assert forall|k: K| #[trigger]
        pool.collect(kind).slots.contains_key(k) implies holds_only(
        pool.collect(kind).slots[k],
        k,
    ) by {
        assert(k != kind ==> pool.slots.contains_key(k));
    }
    assert forall|k: K| #[trigger]
        pool.abandon(kind).slots.contains_key(k) implies holds_only(
        pool.abandon(kind).slots[k],
        k,
    ) by {
        assert(k != kind ==> pool.slots.contains_key(k));
    }
}

/// The kinds do not influence each other: a step on one kind leaves the
/// pool of every other kind as it was.
pub proof fn lemma_kinds_are_independent<K, V: Kind<K>>(
    pool: KindPoolModel<K, V>,
    kind: K,
    other: K,
    value: V,
    how: Resolution,
)
    requires
        other != kind,
        other != value.spec_kind(),
    ensures
        pool.deposit(value).pool(other) == pool.pool(other),
        pool.pick_up(kind).pool(other) == pool.pool(other),
        pool.resolve(how, value).pool(other) == pool.pool(other),
        pool.collect(kind).pool(other) == pool.pool(other),
        pool.abandon(kind).pool(other) == pool.pool(other),
{
}

/// On its own kind a keyed pool that is open does what a single pool does.
pub proof fn lemma_kind_pool_is_pool_per_kind<K, V: Kind<K>>(
    pool: KindPoolModel<K, V>,
    kind: K,
    value: V,
    how: Resolution,
)
    requires
        !pool.closed,
    ensures
        pool.deposit(value).pool(value.spec_kind()) == pool.pool(value.spec_kind()).deposit(
            value,
        ),
        pool.pick_up(kind).pool(kind) == pool.pool(kind).pick_up(),
        pool.resolve(how, value).pool(value.spec_kind()) == pool.pool(
            value.spec_kind(),
        ).resolve(how, value),
        pool.collect(kind).pool(kind) == pool.pool(kind).collect(),
        pool.abandon(kind).pool(kind) == pool.pool(kind).abandon(),
{
}

/// The pool of a kind comes into being when the kind is first used and is
/// never removed: a kind that has been used stays used through every step.
pub proof fn lemma_pools_are_never_removed<K, V: Kind<K>>(
    pool: KindPoolModel<K, V>,
    used: K,
    kind: K,
    value: V,
    how: Resolution,
)
    requires
        pool.slots.contains_key(used),
    ensures
        pool.deposit(value).slots.contains_key(used),
        pool.pick_up(kind).slots.contains_key(used),
        pool.resolve(how, value).slots.contains_key(used),
        pool.collect(kind).slots.contains_key(used),
        pool.abandon(kind).slots.contains_key(used),
        pool.close().slots.contains_key(used),
        !pool.closed ==> pool.deposit(value).slots.contains_key(value.spec_kind())
            && pool.pick_up(kind).slots.contains_key(kind),
{
}

/// Closing closes the pool of every kind, and closing again changes
/// nothing. A closed keyed pool turns deposits and pick-ups away without
/// touching a slot.
pub proof fn lemma_kind_pool_close<K, V: Kind<K>>(pool: KindPoolModel<K, V>, kind: K, value: V)
    ensures
        pool.close().close() == pool.close(),
        pool.close().pool(kind) == pool.pool(kind).close(),
        pool.close().deposit(value) == pool.close(),
        pool.close().pick_up(kind) == pool.close(),
{
}

} // verus!
