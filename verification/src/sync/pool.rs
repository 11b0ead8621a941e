//! The single-slot rendezvous pool.
//!
//! A writer deposits one value and then waits for the reader's reply; a
//! reader picks the value up and answers with accept or reject. The slot
//! holds at most one value, so a second writer is turned away until the
//! first hand-off has been settled.

use vstd::prelude::*;

verus! {

/// Why a write did not go through. Either way the value comes back.
#[derive(Debug)]
pub enum WriteError<T> {
    /// The reader saw the value and refused it.
    Rejected(T),
    /// The pool was closed before the value was delivered.
    Closed(T),
}

impl<T> WriteError<T> {
    /// The value that the error hands back.
    pub open spec fn value(self) -> T {
        match self {
            WriteError::Rejected(value) => value,
            WriteError::Closed(value) => value,
        }
    }

    /// Converts the returned value and keeps the reason.
    pub fn map<F, O: FnOnce(T) -> F>(self, op: O) -> (mapped: WriteError<F>)
        requires
            op.requires((self.value(),)),
        ensures
            self is Rejected <==> mapped is Rejected,
            self is Closed <==> mapped is Closed,
            op.ensures((self.value(),), mapped.value()),
    {
        match self {
            WriteError::Rejected(value) => WriteError::Rejected(op(value)),
            WriteError::Closed(value) => WriteError::Closed(op(value)),
        }
    }
}

/// The reader's answer to a value it has picked up.
pub enum Reply<T> {
    /// The reader still holds the guard.
    Awaited,
    /// The reader kept the value.
    Accepted,
    /// The reader gave the value back.
    Rejected(T),
    /// The reader still holds the guard, but the writer has given up
    /// waiting: the answer will go nowhere.
    Forsaken,
}

/// What the slot of a pool holds.
pub enum Slot<T> {
    /// No hand-off is under way; a writer may deposit.
    Empty,
    /// A writer has deposited a value that no reader has picked up yet.
    Full(T),
    /// A reader has picked the value up; the writer waits for the reply.
    Taken(Reply<T>),
}

/// How a reader lets go of a guard.
pub enum Resolution {
    /// `accept`: the reader keeps the value.
    Accept,
    /// `reject`: the reader hands the value back.
    Reject,
    /// The guard went out of scope without either.
    Drop,
}

/// Outcome of one attempt to deposit a value.
pub enum Deposit<T> {
    /// The value is in the slot; the writer now waits for the reply.
    Stored,
    /// Another hand-off occupies the slot; try again once it is settled.
    Busy(T),
    /// The pool is closed.
    Closed(T),
}

/// Outcome of one attempt to pick a value up.
pub enum Pickup<T> {
    /// The value, wrapped in the guard that must answer for it.
    Taken(PoolGuard<T>),
    /// Nothing has been deposited; try again later.
    Empty,
    /// The pool is closed and nothing is pending.
    Closed,
}

/// Mathematical state of a pool: the slot and the closed flag.
pub struct PoolModel<T> {
    pub slot: Slot<T>,
    pub closed: bool,
}

impl<T> PoolModel<T> {
    /// A fresh pool: open, with an empty slot.
    pub open spec fn init() -> Self {
        PoolModel { slot: Slot::Empty, closed: false }
    }

    /// Number of values the pool holds on behalf of a writer.
    pub open spec fn held(self) -> nat {
        match self.slot {
            Slot::Full(_) => 1,
            Slot::Taken(Reply::Rejected(_)) => 1,
            _ => 0,
        }
    }

    /// A hand-off is under way: the slot is not free for the next writer.
    pub open spec fn in_flight(self) -> bool {
        !(self.slot is Empty)
    }

    /// Whether a deposit would be taken.
    pub open spec fn accepts_deposit(self) -> bool {
        !self.closed && self.slot is Empty
    }

    /// State after a writer offers `value`.
    pub open spec fn deposit(self, value: T) -> Self {
        if self.accepts_deposit() {
            PoolModel { slot: Slot::Full(value), closed: self.closed }
        } else {
            self
        }
    }

    /// State after a reader asks for a value.
    pub open spec fn pick_up(self) -> Self {
        match self.slot {
            Slot::Full(_) => PoolModel { slot: Slot::Taken(Reply::Awaited), closed: self.closed },
            _ => self,
        }
    }

    /// State after the reader that holds the guard answers with `reply`.
    pub open spec fn reply(self, reply: Reply<T>) -> Self {
        match self.slot {
            Slot::Taken(Reply::Awaited) => PoolModel { slot: Slot::Taken(reply), closed: self.closed },
            Slot::Taken(Reply::Forsaken) => PoolModel { slot: Slot::Empty, closed: self.closed },
            _ => self,
        }
    }

    /// State after the writer of the hand-off under way has given up
    /// waiting. A value that nobody picked up is discarded, and so is an
    /// answer that nobody collected; a reader that still holds the guard
    /// will answer into the void.
    pub open spec fn abandon(self) -> Self {
        match self.slot {
            Slot::Taken(Reply::Awaited) => PoolModel {
                slot: Slot::Taken(Reply::Forsaken),
                closed: self.closed,
            },
            Slot::Taken(Reply::Forsaken) => self,
            _ => PoolModel { slot: Slot::Empty, closed: self.closed },
        }
    }

    /// State after the reader lets go of a guard over `value`.
    pub open spec fn resolve(self, how: Resolution, value: T) -> Self {
        match how {
            Resolution::Accept => self.reply(Reply::Accepted),
            Resolution::Drop => self.reply(Reply::Accepted),
            Resolution::Reject => self.reply(Reply::Rejected(value)),
        }
    }

    /// What the waiting writer is told, if its hand-off has been settled.
    ///
    /// A value that nobody picked up goes back to the writer once the pool is
    /// closed; a value that a reader holds is settled by that reader alone,
    /// closed or not.
    pub open spec fn outcome(self) -> Option<Result<(), WriteError<T>>> {
        match self.slot {
            Slot::Taken(Reply::Accepted) => Some(Ok(())),
            Slot::Taken(Reply::Rejected(value)) => Some(Err(WriteError::Rejected(value))),
            Slot::Full(value) => if self.closed {
                Some(Err(WriteError::Closed(value)))
            } else {
                None
            },
            _ => None,
        }
    }

    /// State after the writer has asked for its result.
    pub open spec fn collect(self) -> Self {
        if self.outcome() is Some {
            PoolModel { slot: Slot::Empty, closed: self.closed }
        } else {
            self
        }
    }

    /// State after `close`.
    pub open spec fn close(self) -> Self {
        PoolModel { slot: self.slot, closed: true }
    }
}

/// The slot and the closed flag of one pool.
pub struct PoolState<T> {
    slot: Slot<T>,
    closed: bool,
}

/// The reader's hold on a value it has picked up. It is given up exactly
/// once: by `accept`, by `reject`, or by `release`.
pub struct PoolGuard<T> {
    value: T,
}

impl<T> View for PoolState<T> {
    type V = PoolModel<T>;

    closed spec fn view(&self) -> PoolModel<T> {
        PoolModel { slot: self.slot, closed: self.closed }
    }
}

impl<T> View for PoolGuard<T> {
    type V = T;

    closed spec fn view(&self) -> T {
        self.value
    }
}

impl<T> PoolState<T> {
    /// Creates an open pool with an empty slot.
    pub fn new() -> (pool: Self)
        ensures
            pool@ == PoolModel::<T>::init(),
    {
        PoolState { slot: Slot::Empty, closed: false }
    }

    /// The pool that holds `slot` and is closed if `closed`.
    pub(crate) fn from_parts(slot: Slot<T>, closed: bool) -> (pool: Self)
        ensures
            pool@ == (PoolModel { slot, closed }),
    {
        PoolState { slot, closed }
    }

    /// Gives up the pool for what its slot holds.
    pub(crate) fn into_slot(self) -> (slot: Slot<T>)
        ensures
            slot == self@.slot,
    {
        self.slot
    }

    /// Whether `close` has been called.
    pub fn is_closed(&self) -> (closed: bool)
        ensures
            closed == self@.closed,
    {
        self.closed
    }

    /// Offers `value` to the pool.
    ///
    /// The value is stored only into an empty slot of an open pool. From a
    /// closed pool it comes back as `Closed`, from an occupied slot as
    /// `Busy`, and the pool is left as it was.
    pub fn write_value(&mut self, value: T) -> (deposit: Deposit<T>)
        ensures
            final(self)@ == old(self)@.deposit(value),
            old(self)@.closed ==> deposit == Deposit::Closed(value),
            old(self)@.accepts_deposit() ==> deposit == Deposit::<T>::Stored,
            !old(self)@.closed && old(self)@.in_flight() ==> deposit == Deposit::Busy(value),
    {
        if self.closed {
            Deposit::Closed(value)
        } else {
            match self.slot {
                Slot::Empty => {
                    self.slot = Slot::Full(value);
                    Deposit::Stored
                },
                _ => Deposit::Busy(value),
            }
        }
    }

    /// Picks up the deposited value, if there is one.
    ///
    /// A pending value is handed out even after `close`; `Closed` is
    /// returned exactly when the pool is closed and nothing is pending.
    pub fn read_value(&mut self) -> (pickup: Pickup<T>)
        ensures
            final(self)@ == old(self)@.pick_up(),
            match old(self)@.slot {
                Slot::Full(value) => pickup matches Pickup::Taken(guard) && guard@ == value,
                _ => if old(self)@.closed {
                    pickup is Closed
                } else {
                    pickup is Empty
                },
            },
    {
        let mut slot = Slot::Taken(Reply::Awaited);
        std::mem::swap(&mut self.slot, &mut slot);
        match slot {
            Slot::Full(value) => Pickup::Taken(PoolGuard { value }),
            other => {
                self.slot = other;
                if self.closed {
                    Pickup::Closed
                } else {
                    Pickup::Empty
                }
            },
        }
    }

    /// Collects the result of the hand-off that is under way.
    ///
    /// Returns `None` while the reader has not answered. Once it has, the
    /// slot is emptied and the result is `Ok` for an accepted value and
    /// `Rejected` with the value for a refused one. A value that no reader
    /// picked up before `close` comes back as `Closed`.
    pub fn wait_response(&mut self) -> (response: Option<Result<(), WriteError<T>>>)
        ensures
            response == old(self)@.outcome(),
            final(self)@ == old(self)@.collect(),
    {
        let mut slot = Slot::Empty;
        std::mem::swap(&mut self.slot, &mut slot);
        match slot {
            Slot::Taken(Reply::Accepted) => Some(Ok(())),
            Slot::Taken(Reply::Rejected(value)) => Some(Err(WriteError::Rejected(value))),
            Slot::Full(value) => {
                if self.closed {
                    Some(Err(WriteError::Closed(value)))
                } else {
                    self.slot = Slot::Full(value);
                    None
                }
            },
            other => {
                self.slot = other;
                None
            },
        }
    }

    /// Records that the reader kept the value.
    fn accept_value(&mut self)
        ensures
            final(self)@ == old(self)@.reply(Reply::Accepted),
    {
        self.answer(Reply::Accepted)
    }

    /// Records that the reader gave `value` back.
    fn reject_value(&mut self, value: T)
        ensures
            final(self)@ == old(self)@.reply(Reply::Rejected(value)),
    {
        self.answer(Reply::Rejected(value))
    }

    fn answer(&mut self, reply: Reply<T>)
        ensures
            final(self)@ == old(self)@.reply(reply),
    {
        let mut slot = Slot::Empty;
        std::mem::swap(&mut self.slot, &mut slot);
        match slot {
            Slot::Taken(Reply::Awaited) => {
                self.slot = Slot::Taken(reply);
            },
            Slot::Taken(Reply::Forsaken) => {},
            other => {
                self.slot = other;
            },
        }
    }

    /// Gives up the hand-off under way on behalf of its writer, as when the
    /// writer stops waiting before it has its result.
    ///
    /// The slot is freed for the next writer: at once if no reader holds the
    /// value, else as soon as that reader answers.
    pub fn abandon(&mut self)
        ensures
            final(self)@ == old(self)@.abandon(),
    {
        let mut slot = Slot::Empty;
        std::mem::swap(&mut self.slot, &mut slot);
        match slot {
            Slot::Taken(Reply::Awaited) => {
                self.slot = Slot::Taken(Reply::Forsaken);
            },
            Slot::Taken(Reply::Forsaken) => {
                self.slot = Slot::Taken(Reply::Forsaken);
            },
            _ => {},
        }
    }

    /// Closes the pool. Closing a closed pool changes nothing.
    pub fn close(&mut self)
        ensures
            final(self)@ == old(self)@.close(),
    {
        self.closed = true;
    }
}

impl<T> PoolGuard<T> {
    /// The value under guard.
    pub fn get(&self) -> (value: &T)
        ensures
            *value == self@,
    {
        &self.value
    }

    /// Keeps the value; the writer will be told `Ok`.
    pub fn accept(self, pool: &mut PoolState<T>) -> (value: T)
        ensures
            value == self@,
            final(pool)@ == old(pool)@.resolve(Resolution::Accept, self@),
    {
        pool.accept_value();
        self.value
    }

    /// Hands the value back; the writer will be told `Rejected` with it.
    pub fn reject(self, pool: &mut PoolState<T>)
        ensures
            final(pool)@ == old(pool)@.resolve(Resolution::Reject, self@),
    {
        pool.reject_value(self.value);
    }

    /// Gives the guard up without a decision, as when it goes out of scope.
    /// The value is discarded and the writer is told `Ok`.
    pub fn release(self, pool: &mut PoolState<T>)
        ensures
            final(pool)@ == old(pool)@.resolve(Resolution::Drop, self@),
    {
        pool.accept_value();
    }
}

/// The slot has room for one value. Whatever state a pool is in, it holds at
/// most one value, and while a hand-off is under way a further deposit
/// changes nothing: the second writer stays outside until the first has its
/// result.
pub proof fn lemma_one_value_at_a_time<T>(pool: PoolModel<T>, first: T, second: T)
    ensures
        pool.held() <= 1,
        pool.in_flight() ==> pool.deposit(second) == pool,
        pool.deposit(first).in_flight() ==> pool.deposit(first).deposit(second) == pool.deposit(
            first,
        ),
        pool.accepts_deposit() ==> pool.deposit(first).slot == Slot::Full(first),
{
}

/// Closed is for good: no step reopens a pool, and no step but `close`
/// closes one.
pub proof fn lemma_closed_is_terminal<T>(pool: PoolModel<T>, value: T, how: Resolution)
    ensures
        pool.close().closed,
        pool.deposit(value).closed == pool.closed,
        pool.pick_up().closed == pool.closed,
        pool.resolve(how, value).closed == pool.closed,
        pool.collect().closed == pool.closed,
        pool.abandon().closed == pool.closed,
{
}

/// Closing again changes nothing: any number of calls of `close` leaves the
/// pool as one call does.
pub proof fn lemma_close_idempotent<T>(pool: PoolModel<T>)
    ensures
        pool.close().close() == pool.close(),
{
}

/// A guard that is given up without a decision counts as accepted: the pool
/// is left as after `accept`, and so the writer is told the same.
pub proof fn lemma_drop_is_accept<T>(pool: PoolModel<T>, value: T)
    ensures
        pool.resolve(Resolution::Drop, value) == pool.resolve(Resolution::Accept, value),
        pool.resolve(Resolution::Drop, value).outcome() == pool.resolve(
            Resolution::Accept,
            value,
        ).outcome(),
{
}

/// The writer is told `Rejected` exactly when the reader rejected, and gets
/// back the value that the reader held. A reader that accepts or lets go
/// makes the writer's result `Ok`.
pub proof fn lemma_reject_is_rejected<T>(pool: PoolModel<T>, value: T)
    requires
        pool.slot == Slot::<T>::Taken(Reply::Awaited),
    ensures
        pool.outcome() is None,
        pool.resolve(Resolution::Reject, value).outcome() == Some(
            Err::<(), WriteError<T>>(WriteError::Rejected(value)),
        ),
        pool.resolve(Resolution::Accept, value).outcome() == Some(Ok::<(), WriteError<T>>(())),
        pool.resolve(Resolution::Drop, value).outcome() == Some(Ok::<(), WriteError<T>>(())),
{
}

/// One whole hand-off, step by step: the value goes into the empty slot, the
/// reader picks it up, and the reader's decision is what the writer is told.
/// Afterwards the slot is empty again. A `close` that falls between pick-up
/// and decision does not change what the writer is told.
pub proof fn lemma_hand_off<T>(pool: PoolModel<T>, value: T, how: Resolution)
    requires
        pool.accepts_deposit(),
    ensures
        pool.deposit(value).slot == Slot::Full(value),
        pool.deposit(value).outcome() is None,
        pool.deposit(value).pick_up().slot == Slot::<T>::Taken(Reply::Awaited),
        pool.deposit(value).pick_up().resolve(how, value).outcome() == match how {
            Resolution::Reject => Some(Err::<(), WriteError<T>>(WriteError::Rejected(value))),
            _ => Some(Ok::<(), WriteError<T>>(())),
        },
        pool.deposit(value).pick_up().close().resolve(how, value).outcome() == pool.deposit(
            value,
        ).pick_up().resolve(how, value).outcome(),
        pool.deposit(value).pick_up().resolve(how, value).collect() == pool,
{
}

/// A writer that gives up leaves no trace: the slot is empty again once the
/// reader, if one holds the value, has answered, whatever the answer. No
/// value stays behind.
pub proof fn lemma_abandoned_slot_is_freed<T>(pool: PoolModel<T>, value: T, how: Resolution)
    ensures
        pool.abandon().held() == 0,
        pool.abandon().outcome() is None,
        pool.abandon().closed == pool.closed,
        !(pool.slot is Taken) ==> pool.abandon().slot is Empty,
        pool.abandon().resolve(how, value).slot is Empty,
{
}

/// What `close` does to the two sides. On a closed pool a deposit is turned
/// away and nothing is stored. A value that was deposited and not picked up
/// goes back to its writer as `Closed`; until the writer has taken it back,
/// a reader may still pick it up.
pub proof fn lemma_close_races<T>(pool: PoolModel<T>, value: T)
    ensures
        pool.close().deposit(value) == pool.close(),
        pool.slot == Slot::Full(value) ==> pool.close().outcome() == Some(
            Err::<(), WriteError<T>>(WriteError::Closed(value)),
        ),
        pool.slot == Slot::Full(value) ==> pool.close().pick_up().slot == Slot::<T>::Taken(
            Reply::Awaited,
        ),
        pool.slot is Empty ==> pool.close().pick_up() == pool.close() && pool.close().outcome()
            is None,
{
}

} // verus!
