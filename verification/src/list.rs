//! The owner of one snapshot of the interface addresses, and the walk over
//! its records.

use crate::record::RawInterfaceRecord;
use vstd::prelude::*;

verus! {

/// The status by which the enumeration call reports that it failed.
pub const FAILURE_STATUS: i32 = -1;

/// Why no list came into being.
#[derive(Clone, Copy, Debug, PartialEq, Eq)]
pub enum IfAddrsError {
    /// The enumeration call failed. `os_error` is the code that the operating
    /// system reported for the failure.
    AcquisitionFailed { os_error: i32 },
}

/// What the caller has to do for a teardown.
#[derive(Clone, Copy, Debug, PartialEq, Eq)]
pub enum TeardownAction {
    /// Hand `handle` to the release call.
    Release { handle: usize },
    /// Call nothing: the snapshot was released before.
    Nothing,
}

/// The action that a teardown asks for, on a list that holds its snapshot or
/// has released it, as `held` says.
pub open spec fn teardown_action(held: bool, handle: usize) -> TeardownAction {
    if held {
        TeardownAction::Release { handle }
    } else {
        TeardownAction::Nothing
    }
}

/// Whether a status of the enumeration call reports a failure.
pub fn acquisition_failed(status: i32) -> (failed: bool)
    ensures
        failed <==> status == FAILURE_STATUS,
{
    status == FAILURE_STATUS
}

/// The state of a walk: the chain that is walked, and how many of its records
/// the walk has handed out.
pub struct CursorView {
    pub chain: Seq<RawInterfaceRecord>,
    pub position: nat,
}

impl CursorView {
    /// The walk that has handed out nothing of `chain` yet.
    pub open spec fn start(chain: Seq<RawInterfaceRecord>) -> CursorView {
        CursorView { chain, position: 0 }
    }

    /// A walk never stands behind the end of its chain.
    pub open spec fn well_formed(self) -> bool {
        self.position <= self.chain.len()
    }

    /// The walk has reached the end of its chain.
    pub open spec fn exhausted(self) -> bool {
        self.position >= self.chain.len()
    }

    /// The records that the walk has yet to hand out, in the chain's order.
    pub open spec fn remaining(self) -> Seq<RawInterfaceRecord> {
        self.chain.skip(self.position as int)
    }

    /// What the next step hands out: the record at the walk's position, or
    /// nothing at the end of the chain.
    pub open spec fn item(self) -> Option<RawInterfaceRecord> {
        if self.exhausted() {
            None
        } else {
            Some(self.chain[self.position as int])
        }
    }

    /// The walk after its next step: one record further, or where it was at
    /// the end of the chain.
    pub open spec fn advance(self) -> CursorView {
        if self.exhausted() {
            self
        } else {
            CursorView { chain: self.chain, position: self.position + 1 }
        }
    }

    /// The walk after `steps` steps.
    pub open spec fn after(self, steps: nat) -> CursorView
        decreases steps,
    {
        if steps == 0 {
            self
        } else {
            self.advance().after((steps - 1) as nat)
        }
    }

    /// What the step with the number `n` hands out, the next step being
    /// number 0.
    pub open spec fn nth(self, n: nat) -> Option<RawInterfaceRecord> {
        self.after(n).item()
    }
}

/// The owner of one snapshot of the interface addresses.
///
/// It holds the handle that the enumeration call gave, and the chain's
/// records in the chain's order. The handle is a token: it is kept, and given
/// back once for the release, and never read.
pub struct IfAddrs {
    handle: usize,
    records: Vec<RawInterfaceRecord>,
    held: bool,
}

impl View for IfAddrs {
    type V = Seq<RawInterfaceRecord>;

    /// The records of the snapshot, in the chain's order.
    closed spec fn view(&self) -> Seq<RawInterfaceRecord> {
        self.records@
    }
}

impl IfAddrs {
    /// A list that has released its snapshot holds no record of it.
    #[verifier::type_invariant]
    spec fn released_is_empty(self) -> bool {
        !self.held ==> self.records@.len() == 0
    }

    /// Whether the snapshot is still to be released.
    pub closed spec fn is_held(&self) -> bool {
        self.held
    }

    /// The handle of the snapshot.
    pub closed spec fn handle(&self) -> usize {
        self.handle
    }

    /// Makes the owner of a snapshot from what the enumeration call gave:
    /// its `status`, the error code `os_error` that the operating system
    /// reported if the call failed, and, if it did not, the `handle` of the
    /// chain and the chain's records in their order.
    ///
    /// A call that failed gives no list, so that nothing is there to release.
    pub fn new(status: i32, os_error: i32, handle: usize, chain: Vec<RawInterfaceRecord>) -> (result:
        Result<IfAddrs, IfAddrsError>)
        ensures
            status == FAILURE_STATUS ==> result == Err::<IfAddrs, IfAddrsError>(
                IfAddrsError::AcquisitionFailed { os_error },
            ),
            status != FAILURE_STATUS ==> (result matches Ok(list) && list@ == chain@
                && list.is_held() && list.handle() == handle),
    {
        if acquisition_failed(status) {
            Err(IfAddrsError::AcquisitionFailed { os_error })
        } else {
            Ok(IfAddrs { handle, records: chain, held: true })
        }
    }

    /// A walk over the snapshot that starts at the head of the chain.
    ///
    /// The list is only read. Each walk has a position of its own.
    pub fn iter(&self) -> (walk: IfAddrsIterator<'_>)
        ensures
            walk@ == CursorView::start(self@),
            !self.is_held() ==> walk@.exhausted(),
    {
        proof {
            use_type_invariant(self);
        }
        IfAddrsIterator { list: self, next: 0 }
    }

    /// Ends the owner's hold on the snapshot.
    ///
    /// The first teardown of a list asks for the release of its handle, every
    /// later one for nothing. After it the list is empty.
    pub fn teardown(&mut self) -> (action: TeardownAction)
        ensures
            action == teardown_action(old(self).is_held(), old(self).handle()),
            !final(self).is_held(),
            final(self).handle() == old(self).handle(),
            final(self)@ == Seq::<RawInterfaceRecord>::empty(),
    {
        if self.held {
            self.records = Vec::new();
            self.held = false;
            TeardownAction::Release { handle: self.handle }
        } else {
            proof {
                use_type_invariant(&*self);
            }
            TeardownAction::Nothing
        }
    }
}

/// A walk over the records of a list, from the head of the chain to its end.
///
/// It borrows the list, and so cannot outlive it.
pub struct IfAddrsIterator<'a> {
    list: &'a IfAddrs,
    next: usize,
}

impl<'a> View for IfAddrsIterator<'a> {
    type V = CursorView;

    closed spec fn view(&self) -> CursorView {
        CursorView { chain: self.list@, position: self.next as nat }
    }
}

impl<'a> IfAddrsIterator<'a> {
    #[verifier::type_invariant]
    spec fn within_chain(self) -> bool {
        self.next <= self.list.records@.len()
    }

    /// Hands out a copy of the record at the walk's position and moves one
    /// record on, or hands out `None` at the end of the chain and stays there.
    pub fn next(&mut self) -> (item: Option<RawInterfaceRecord>)
        ensures
            old(self)@.well_formed(),
            item == old(self)@.item(),
            final(self)@ == old(self)@.advance(),
    {
        proof {
            use_type_invariant(&*self);
        }
        if self.next < self.list.records.len() {
            let item = self.list.records[self.next].clone();
            self.next = self.next + 1;
            Some(item)
        } else {
            None
        }
    }

    /// Walks to the end of the chain and hands out, in the chain's order,
    /// copies of the records that the walk had yet to reach.
    pub fn collect(&mut self) -> (items: Vec<RawInterfaceRecord>)
        ensures
            items@ == old(self)@.remaining(),
            final(self)@.chain == old(self)@.chain,
            final(self)@.position == old(self)@.chain.len(),
    {
        proof {
            use_type_invariant(&*self);
        }
        let mut items: Vec<RawInterfaceRecord> = Vec::new();
        loop
            invariant
                self@.chain == old(self)@.chain,
                old(self)@.position <= self@.position <= self@.chain.len(),
                items@ == self@.chain.subrange(old(self)@.position as int, self@.position as int),
            ensures
                self@.position == self@.chain.len(),
            decreases self@.chain.len() - self@.position,
        {
            match self.next() {
                Some(item) => {
                    items.push(item);
                },
                None => {
                    break ;
                },
            }
        }
        items
    }
}

} // verus!
