//! One protocol stack's bookkeeping: its peer associations, the transaction
//! identifiers of its outstanding requests, and where an inbound PDU goes.

use crate::table::KeyedTable;
use vstd::prelude::*;

verus! {

/// The life of one association.
#[derive(Debug, Clone, Copy, PartialEq, Eq, Structural)]
pub enum AssociationState {
    Listening,
    Associating,
    Up,
    Draining,
    Closed,
}

/// The steps that an association can take: forward through its life, and
/// back from `Up` to `Associating` when the transport resets.
pub open spec fn can_step(from: AssociationState, to: AssociationState) -> bool {
    match (from, to) {
        (AssociationState::Listening, AssociationState::Associating) => true,
        (AssociationState::Associating, AssociationState::Up) => true,
        (AssociationState::Up, AssociationState::Draining) => true,
        (AssociationState::Draining, AssociationState::Closed) => true,
        (AssociationState::Up, AssociationState::Associating) => true,
        _ => false,
    }
}

impl AssociationState {
    /// Whether an association in this state may be in state `to` next.
    pub fn may_become(self, to: AssociationState) -> (b: bool)
        ensures
            b == can_step(self, to),
    {
        match (self, to) {
            (AssociationState::Listening, AssociationState::Associating) => true,
            (AssociationState::Associating, AssociationState::Up) => true,
            (AssociationState::Up, AssociationState::Draining) => true,
            (AssociationState::Draining, AssociationState::Closed) => true,
            (AssociationState::Up, AssociationState::Associating) => true,
            _ => false,
        }
    }
}

/// The three kinds of PDU.
#[derive(Debug, Clone, Copy, PartialEq, Eq, Structural)]
pub enum PduKind {
    InitiatingMessage,
    SuccessfulOutcome,
    UnsuccessfulOutcome,
}

/// Why a request failed. `F` is the peer's failure message.
#[derive(Debug, Clone, PartialEq, Eq)]
pub enum RequestError<F> {
    NoAssociation,
    EncodeFailed,
    Timeout,
    UnsuccessfulOutcome(F),
    PeerReset,
    /// Every transaction identifier is in use.
    Internal,
}

/// How the wait for a response ended.
#[derive(Debug, Clone, PartialEq, Eq)]
pub enum RequestEvent<T, F> {
    Success(T),
    Failure(F),
    TimedOut,
    Reset,
}

/// What a request returns once its wait has ended with `event`.
pub fn request_result<T, F>(event: RequestEvent<T, F>) -> (r: Result<T, RequestError<F>>)
    ensures
        r == (match event {
            RequestEvent::Success(s) => Ok::<T, RequestError<F>>(s),
            RequestEvent::Failure(f) => Err::<T, RequestError<F>>(
                RequestError::UnsuccessfulOutcome(f),
            ),
            RequestEvent::TimedOut => Err::<T, RequestError<F>>(RequestError::Timeout),
            RequestEvent::Reset => Err::<T, RequestError<F>>(RequestError::PeerReset),
        }),
{
    match event {
        RequestEvent::Success(s) => Ok(s),
        RequestEvent::Failure(f) => Err(RequestError::UnsuccessfulOutcome(f)),
        RequestEvent::TimedOut => Err(RequestError::Timeout),
        RequestEvent::Reset => Err(RequestError::PeerReset),
    }
}

/// Where an inbound PDU goes. `R` is the slot of a waiting request.
#[derive(Debug, Clone, PartialEq, Eq)]
pub enum Dispatch<R> {
    /// The PDU answers the request that waits on this slot.
    Complete(R),
    /// The PDU starts a procedure: the installed handler takes it.
    ToHandler,
    /// The PDU answers no outstanding request: it is logged and dropped.
    Dropped,
}

/// The identifier `steps` places after `from` in an identifier space of
/// `space` values that wraps around.
pub open spec fn wrapped(from: int, steps: int, space: int) -> int {
    if from + steps < space {
        from + steps
    } else {
        from + steps - space
    }
}

/// A protocol stack. `R` is the slot on which a request waits for its
/// response.
pub struct Stack<R> {
    remote_tnla_addresses: Vec<String>,
    next_transaction_id: u32,
    id_space: u32,
    pending: KeyedTable<R>,
}

impl<R> View for Stack<R> {
    type V = Map<u32, R>;

    /// The outstanding requests, by transaction identifier.
    closed spec fn view(&self) -> Map<u32, R> {
        self.pending@
    }
}

impl<R> Stack<R> {
    /// The number of transaction identifiers of the protocol.
    pub closed spec fn id_space(&self) -> int {
        self.id_space as int
    }

    /// The identifier at which the search for a free one starts.
    pub closed spec fn next_id(&self) -> int {
        self.next_transaction_id as int
    }

    /// The transport addresses of the peers.
    pub closed spec fn peers(&self) -> Seq<String> {
        self.remote_tnla_addresses@
    }

    /// The number of outstanding requests.
    pub closed spec fn count(&self) -> nat {
        self.pending.count()
    }

    pub closed spec fn wf(&self) -> bool {
        &&& self.pending.wf()
        &&& 1 <= self.id_space <= 65536
        &&& self.next_transaction_id < self.id_space
    }

    /// Whether `id` is one that a new request can be given.
    pub open spec fn is_free(&self, id: int) -> bool {
        0 <= id < self.id_space() && !self@.contains_key(id as u32)
    }

    /// The identifier that the next request gets: the first free one from
    /// `next_id()` on, wrapping around.
    pub open spec fn is_next_free(&self, id: int) -> bool {
        exists|j: int|
            0 <= j < self.id_space() && id == #[trigger] wrapped(
                self.next_id(),
                j,
                self.id_space(),
            ) && self.is_free(id) && forall|i: int|
                0 <= i < j ==> !self.is_free(#[trigger] wrapped(self.next_id(), i, self.id_space()))
    }

    /// At most one identifier is the next free one: which identifier a new
    /// request gets is decided by the table and the starting point alone.
    pub proof fn lemma_next_free_unique(&self, a: int, b: int)
        requires
            self.is_next_free(a),
            self.is_next_free(b),
        ensures
            a == b,
    {
        let ja = choose|j: int|
            0 <= j < self.id_space() && a == #[trigger] wrapped(
                self.next_id(),
                j,
                self.id_space(),
            ) && self.is_free(a) && forall|i: int|
                0 <= i < j ==> !self.is_free(#[trigger] wrapped(self.next_id(), i, self.id_space()));
        let jb = choose|j: int|
            0 <= j < self.id_space() && b == #[trigger] wrapped(
                self.next_id(),
                j,
                self.id_space(),
            ) && self.is_free(b) && forall|i: int|
                0 <= i < j ==> !self.is_free(#[trigger] wrapped(self.next_id(), i, self.id_space()));
        if ja < jb {
            assert(!self.is_free(wrapped(self.next_id(), ja, self.id_space())));
        } else if jb < ja {
            assert(!self.is_free(wrapped(self.next_id(), jb, self.id_space())));
        }
    }

    /// The outstanding requests hold as many identifiers as there are
    /// requests: no two share one.
    pub proof fn lemma_transaction_ids_distinct(&self)
        requires
            self.wf(),
        ensures
            self@.dom().finite(),
            self.count() == self@.dom().len(),
    {
        self.pending.lemma_count_is_domain_size();
    }

    /// A stack without peers or outstanding requests, for a protocol with
    /// `id_space` transaction identifiers.
    pub fn new(id_space: u32) -> (s: Self)
        requires
            1 <= id_space <= 65536,
        ensures
            s.wf(),
            s@ == Map::<u32, R>::empty(),
            s.count() == 0,
            s.peers() == Seq::<String>::empty(),
            s.id_space() == id_space,
            s.next_id() == 0,
    {
        Stack {
            remote_tnla_addresses: Vec::new(),
            next_transaction_id: 0,
            id_space,
            pending: KeyedTable::new(),
        }
    }

    pub fn remote_tnla_addresses(&self) -> (a: &Vec<String>)
        ensures
            a@ == self.peers(),
    {
        &self.remote_tnla_addresses
    }

    /// Whether the stack has any peer.
    pub fn is_up(&self) -> (up: bool)
        ensures
            up == (self.peers().len() > 0),
    {
        self.remote_tnla_addresses.len() > 0
    }

    /// Whether `address` is among the peers.
    pub fn is_connected_to(&self, address: &String) -> (b: bool)
        ensures
            b == (exists|i: int| 0 <= i < self.peers().len() && self.peers()[i]@ == address@),
    {
        let mut i: usize = 0;
        while i < self.remote_tnla_addresses.len()
            invariant
                i <= self.remote_tnla_addresses@.len(),
                forall|j: int| 0 <= j < i ==> self.remote_tnla_addresses@[j]@ != address@,
            decreases self.remote_tnla_addresses@.len() - i,
        {
            if self.remote_tnla_addresses[i] == *address {
                assert(self.peers()[i as int]@ == address@);
                return true;
            }
            i = i + 1;
        }
        false
    }

    /// Records an association with the peer at `address`. A peer that is
    /// already connected is not recorded again: `false` says that nothing
    /// was opened.
    pub fn association_up(&mut self, address: String) -> (opened: bool)
        requires
            old(self).wf(),
        ensures
            final(self).wf(),
            final(self)@ == old(self)@,
            final(self).count() == old(self).count(),
            final(self).id_space() == old(self).id_space(),
            final(self).next_id() == old(self).next_id(),
            opened == !(exists|i: int|
                0 <= i < old(self).peers().len() && old(self).peers()[i]@ == address@),
            final(self).peers() == (if opened {
                old(self).peers().push(address)
            } else {
                old(self).peers()
            }),
    {
        if self.is_connected_to(&address) {
            false
        } else {
            self.remote_tnla_addresses.push(address);
            true
        }
    }

    /// Forgets every peer, as when the stack shuts down.
    pub fn associations_down(&mut self)
        requires
            old(self).wf(),
        ensures
            final(self).wf(),
            final(self)@ == old(self)@,
            final(self).count() == old(self).count(),
            final(self).id_space() == old(self).id_space(),
            final(self).next_id() == old(self).next_id(),
            final(self).peers() == Seq::<String>::empty(),
    {
        self.remote_tnla_addresses = Vec::new();
    }

    /// Starts a request: gives it the next free transaction identifier and
    /// keeps `slot` under it until the response comes or the request is
    /// cancelled.
    pub fn begin_request<F>(&mut self, slot: R) -> (r: Result<u32, RequestError<F>>)
        requires
            old(self).wf(),
        ensures
            final(self).wf(),
            final(self).id_space() == old(self).id_space(),
            final(self).peers() == old(self).peers(),
            match r {
                Ok(id) => {
                    &&& old(self).peers().len() > 0
                    &&& old(self).is_next_free(id as int)
                    &&& !old(self)@.contains_key(id)
                    &&& final(self)@ == old(self)@.insert(id, slot)
                    &&& final(self).count() == old(self).count() + 1
                    &&& final(self).next_id() == wrapped(id as int, 1, old(self).id_space())
                },
                Err(e) => {
                    &&& final(self)@ == old(self)@
                    &&& final(self).count() == old(self).count()
                    &&& final(self).next_id() == old(self).next_id()
                    &&& if old(self).peers().len() == 0 {
                        e == RequestError::<F>::NoAssociation
                    } else {
                        &&& e == RequestError::<F>::Internal
                        &&& forall|id: int| !old(self).is_free(id)
                    }
                },
            },
    {
        if self.remote_tnla_addresses.len() == 0 {
            return Err(RequestError::NoAssociation);
        }
        let mut candidate: u32 = self.next_transaction_id;
        let mut tried: u32 = 0;
        while tried < self.id_space
            invariant
                *self == *old(self),
                self.wf(),
                self.peers().len() > 0,
                tried <= self.id_space,
                candidate < self.id_space,
                tried < self.id_space ==> candidate == wrapped(
                    self.next_id(),
                    tried as int,
                    self.id_space(),
                ),
                forall|i: int|
                    0 <= i < tried ==> !self.is_free(
                        #[trigger] wrapped(self.next_id(), i, self.id_space()),
                    ),
            decreases self.id_space - tried,
        {
            if !self.pending.contains(candidate) {
                let ghost before = *self;
                self.pending.insert(candidate, slot);
                self.next_transaction_id = if candidate + 1 == self.id_space {
                    0
                } else {
                    candidate + 1
                };
                proof {
                    assert(before.is_free(candidate as int));
                    assert(candidate == wrapped(before.next_id(), tried as int, before.id_space()));
                }
                return Ok(candidate);
            }
            candidate = if candidate + 1 == self.id_space {
                0
            } else {
                candidate + 1
            };
            tried = tried + 1;
        }
        proof {
            assert forall|id: int| !self.is_free(id) by {
                if 0 <= id < self.id_space() {
                    let j = if id >= self.next_id() {
                        id - self.next_id()
                    } else {
                        id + self.id_space() - self.next_id()
                    };
                    assert(wrapped(self.next_id(), j, self.id_space()) == id);
                }
            }
        }
        Err(RequestError::Internal)
    }

    /// Decides where an inbound PDU of the given kind goes. An outcome that
    /// answers an outstanding request takes that request's slot out of the
    /// table; an outcome that answers none is dropped and never reaches the
    /// handler.
    pub fn dispatch(&mut self, kind: PduKind, transaction_id: Option<u32>) -> (d: Dispatch<R>)
        requires
            old(self).wf(),
        ensures
            final(self).wf(),
            final(self).id_space() == old(self).id_space(),
            final(self).next_id() == old(self).next_id(),
            final(self).peers() == old(self).peers(),
            d == (if kind == PduKind::InitiatingMessage {
                Dispatch::<R>::ToHandler
            } else if transaction_id is Some && old(self)@.contains_key(transaction_id->0) {
                Dispatch::<R>::Complete(old(self)@[transaction_id->0])
            } else {
                Dispatch::<R>::Dropped
            }),
            final(self)@ == (if d is Complete {
                old(self)@.remove(transaction_id->0)
            } else {
                old(self)@
            }),
            final(self).count() == (if d is Complete {
                old(self).count() - 1
            } else {
                old(self).count() as int
            }),
    {
        match kind {
            PduKind::InitiatingMessage => Dispatch::ToHandler,
            _ => match transaction_id {
                Some(id) => match self.pending.remove(id) {
                    Some(slot) => Dispatch::Complete(slot),
                    None => Dispatch::Dropped,
                },
                None => Dispatch::Dropped,
            },
        }
    }

    /// Gives up the request with the identifier `id`, as when the task that
    /// waits for it is dropped: its entry leaves the table, and the
    /// identifier is free for a later request.
    pub fn cancel(&mut self, id: u32) -> (slot: Option<R>)
        requires
            old(self).wf(),
        ensures
            final(self).wf(),
            final(self).id_space() == old(self).id_space(),
            final(self).next_id() == old(self).next_id(),
            final(self).peers() == old(self).peers(),
            final(self)@ == old(self)@.remove(id),
            !final(self)@.contains_key(id),
            id < old(self).id_space() ==> final(self).is_free(id as int),
            slot == (if old(self)@.contains_key(id) {
                Some(old(self)@[id])
            } else {
                None
            }),
            final(self).count() == (if old(self)@.contains_key(id) {
                old(self).count() - 1
            } else {
                old(self).count() as int
            }),
    {
        self.pending.remove(id)
    }

    /// Whether a request with the identifier `id` is outstanding.
    pub fn is_outstanding(&self, id: u32) -> (b: bool)
        requires
            self.wf(),
        ensures
            b == self@.contains_key(id),
    {
        self.pending.contains(id)
    }
}

} // verus!
