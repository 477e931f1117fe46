//! The state of a transaction: `Active` until it is committed or rolled back,
//! and then never active again.
//!
//! The worker owns the state of every transaction it has begun and keeps it
//! after the transaction has ended, so that a request that arrives late for a
//! transaction that is over is recognised as such. There is one state for each
//! transaction: it cannot be copied, and its phase can be read but not set from
//! outside, so no second copy can fall behind.

use vstd::prelude::*;

verus! {

/// The phase of a transaction.
#[derive(Clone, Copy, Debug, PartialEq, Eq, Structural)]
pub enum TxPhase {
    Active,
    Committed,
    RolledBack,
}

impl TxPhase {
    /// The phase after an attempt to end a transaction in this phase as `ended`:
    /// an active transaction ends, one that is over stays as it is.
    pub open spec fn ended(self, ended: TxPhase) -> TxPhase {
        if self == TxPhase::Active {
            ended
        } else {
            self
        }
    }
}

/// The state of one transaction.
#[derive(Debug, PartialEq, Eq, Structural)]
pub struct TransactionState {
    phase: TxPhase,
}

impl View for TransactionState {
    type V = TxPhase;

    /// The phase that the transaction is in.
    closed spec fn view(&self) -> TxPhase {
        self.phase
    }
}

impl TransactionState {
    /// The state of a transaction that has just begun.
    pub closed spec fn fresh() -> TransactionState {
        TransactionState { phase: TxPhase::Active }
    }

    /// The state of a transaction that has just begun: active.
    pub fn new() -> (state: TransactionState)
        ensures
            state == Self::fresh(),
            state@ == TxPhase::Active,
    {
        TransactionState { phase: TxPhase::Active }
    }

    /// The phase that the transaction is in.
    pub fn phase(&self) -> (phase: TxPhase)
        ensures
            phase == self@,
    {
        self.phase
    }

    pub fn is_active(&self) -> (active: bool)
        ensures
            active == (self@ == TxPhase::Active),
    {
        match self.phase {
            TxPhase::Active => true,
            _ => false,
        }
    }

    /// Records that the transaction was committed, if it was active. A
    /// transaction that is over stays as it is.
    pub fn commit(&mut self)
        ensures
            final(self)@ == old(self)@.ended(TxPhase::Committed),
    {
        if self.is_active() {
            self.phase = TxPhase::Committed;
        }
    }

    /// Records that the transaction was rolled back, if it was active. A
    /// transaction that is over stays as it is.
    pub fn rollback(&mut self)
        ensures
            final(self)@ == old(self)@.ended(TxPhase::RolledBack),
    {
        if self.is_active() {
            self.phase = TxPhase::RolledBack;
        }
    }
}

/// A transaction that has just begun is active, and a state is its phase and
/// nothing more: two states in the same phase are the same state.
pub proof fn lemma_state_is_its_phase(a: TransactionState, b: TransactionState)
    ensures
        TransactionState::fresh()@ == TxPhase::Active,
        a@ == b@ ==> a == b,
{
}

/// A transaction ends at most once: whatever is recorded after it has ended
/// leaves it in the phase it ended in.
pub proof fn lemma_ends_once(phase: TxPhase, first: TxPhase, second: TxPhase)
    requires
        first != TxPhase::Active,
    ensures
        phase.ended(first) != TxPhase::Active,
        phase.ended(first).ended(second) == phase.ended(first),
{
}

} // verus!
