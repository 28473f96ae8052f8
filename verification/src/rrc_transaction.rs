//! Matches a UE's next uplink DCCH message with the task that waits for it.
//!
//! The match is by UE alone: whatever uplink DCCH message comes next for
//! the UE satisfies the pending slot, whether or not it answers what the
//! waiting task sent. Callers check the payload.

use crate::rrc::UlDcchMessage;
use crate::table::KeyedTable;
use async_channel::{Receiver, Sender};
use vstd::prelude::*;

verus! {

/// `async_channel::Sender`, the end of a channel into which messages go.
#[verifier::external_type_specification]
#[verifier::external_body]
#[verifier::reject_recursive_types(T)]
pub struct ExSender<T>(Sender<T>);

/// `async_channel::Receiver`, the end of a channel from which messages
/// come.
#[verifier::external_type_specification]
#[verifier::external_body]
#[verifier::reject_recursive_types(T)]
pub struct ExReceiver<T>(Receiver<T>);

/// A pending RRC transaction, as the task that started it holds it: the
/// UE's next uplink DCCH message arrives on `receiver`.
pub struct RrcTransaction {
    pub ue_key: u32,
    pub receiver: Receiver<UlDcchMessage>,
}

/// Makes a channel with `async_channel::bounded(1)`: one that holds at most
/// one message. Nothing is claimed of the two ends.
#[verifier::external_body]
fn single_shot_slot() -> (ends: (Sender<UlDcchMessage>, Receiver<UlDcchMessage>)) {
    async_channel::bounded(1)
}

/// The pending RRC transactions, by UE key. `S` is the sending end of the
/// single-shot slot into which the UE's next message is delivered.
pub struct PendingRrcTransactions<S> {
    slots: KeyedTable<S>,
}

impl<S> View for PendingRrcTransactions<S> {
    type V = Map<u32, S>;

    closed spec fn view(&self) -> Map<u32, S> {
        self.slots@
    }
}

impl<S> PendingRrcTransactions<S> {
    pub closed spec fn wf(&self) -> bool {
        self.slots.wf()
    }

    /// The number of slots held.
    pub closed spec fn count(&self) -> nat {
        self.slots.count()
    }

    /// There are exactly as many slots as there are UE keys with a pending
    /// transaction: no key ever has two.
    pub proof fn lemma_one_slot_per_ue(&self)
        requires
            self.wf(),
        ensures
            self@.dom().finite(),
            self.count() == self@.dom().len(),
    {
        self.slots.lemma_count_is_domain_size();
    }

    pub fn new() -> (p: Self)
        ensures
            p.wf(),
            p@ == Map::<u32, S>::empty(),
            p.count() == 0,
    {
        PendingRrcTransactions { slots: KeyedTable::new() }
    }

    pub fn len(&self) -> (n: usize)
        ensures
            n == self.count(),
    {
        self.slots.len()
    }

    /// Registers `slot` for `ue_key`. A slot that was still pending for the
    /// same UE is replaced and handed back, so that the caller can warn.
    pub fn new_transaction(&mut self, ue_key: u32, slot: S) -> (replaced: Option<S>)
        requires
            old(self).wf(),
        ensures
            final(self).wf(),
            final(self)@ == old(self)@.insert(ue_key, slot),
            replaced == (if old(self)@.contains_key(ue_key) {
                Some(old(self)@[ue_key])
            } else {
                None
            }),
            final(self).count() == (if old(self)@.contains_key(ue_key) {
                old(self).count()
            } else {
                old(self).count() + 1
            }),
    {
        self.slots.insert(ue_key, slot)
    }

    /// Takes the slot that is pending for `ue_key`, if there is one; with
    /// none, the message that prompted the call is unsolicited.
    pub fn match_transaction(&mut self, ue_key: u32) -> (slot: Option<S>)
        requires
            old(self).wf(),
        ensures
            final(self).wf(),
            final(self)@ == old(self)@.remove(ue_key),
            slot == (if old(self)@.contains_key(ue_key) {
                Some(old(self)@[ue_key])
            } else {
                None
            }),
            final(self).count() == (if old(self)@.contains_key(ue_key) {
                old(self).count() - 1
            } else {
                old(self).count() as int
            }),
    {
        self.slots.remove(ue_key)
    }

    /// Ends the transaction of `ue_key` without a message, as when the task
    /// that waits for it gives up or goes away. Says whether there was one.
    pub fn cancel_transaction(&mut self, ue_key: u32) -> (was_pending: bool)
        requires
            old(self).wf(),
        ensures
            final(self).wf(),
            final(self)@ == old(self)@.remove(ue_key),
            was_pending == old(self)@.contains_key(ue_key),
            final(self).count() == (if old(self)@.contains_key(ue_key) {
                old(self).count() - 1
            } else {
                old(self).count() as int
            }),
    {
        self.slots.remove(ue_key).is_some()
    }

    /// Whether a transaction is pending for `ue_key`.
    pub fn is_pending(&self, ue_key: u32) -> (b: bool)
        requires
            self.wf(),
        ensures
            b == self@.contains_key(ue_key),
    {
        self.slots.contains(ue_key)
    }
}

impl PendingRrcTransactions<Sender<UlDcchMessage>> {
    /// Starts a transaction for `ue_key` on a fresh single-shot channel:
    /// the sending end is registered, in place of any that was pending for
    /// the same UE, and the receiving end is handed back. The flag says
    /// whether one was replaced, so that the caller can warn.
    pub fn open_transaction(&mut self, ue_key: u32) -> (started: (RrcTransaction, bool))
        requires
            old(self).wf(),
        ensures
            final(self).wf(),
            started.0.ue_key == ue_key,
            started.1 == old(self)@.contains_key(ue_key),
            final(self)@.contains_key(ue_key),
            final(self)@ == old(self)@.insert(ue_key, final(self)@[ue_key]),
            final(self).count() == (if old(self)@.contains_key(ue_key) {
                old(self).count()
            } else {
                old(self).count() + 1
            }),
    {
        let (sender, receiver) = single_shot_slot();
        let replaced = self.new_transaction(ue_key, sender);
        (RrcTransaction { ue_key, receiver }, replaced.is_some())
    }
}

} // verus!
