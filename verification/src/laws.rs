//! What holds of every list and of every walk.

use crate::list::{teardown_action, CursorView};
use crate::record::RawInterfaceRecord;
use vstd::prelude::*;

verus! {

/// One thing that is done with a list while it lives.
pub enum Use {
    /// A walk is taken from the list and makes `steps` steps, which may or may
    /// not bring it to the end of the chain.
    Walk { steps: nat },
    /// The list is torn down.
    Teardown,
}

/// Whether a list holds its snapshot after a use. A walk only reads the list;
/// a teardown ends the hold.
pub open spec fn held_after(held: bool, done: Use) -> bool {
    match done {
        Use::Walk { .. } => held,
        Use::Teardown => false,
    }
}

/// How many releases one use asks for: a teardown as many as its action says,
/// a walk none.
pub open spec fn releases_of(held: bool, handle: usize, done: Use) -> nat {
    match done {
        Use::Walk { .. } => 0,
        Use::Teardown => if teardown_action(held, handle) is Release {
            1
        } else {
            0
        },
    }
}

/// How many releases the uses of `life` ask for, one after the other on the
/// same list, which at first holds its snapshot or not, as `held` says.
pub open spec fn releases_asked(held: bool, handle: usize, life: Seq<Use>) -> nat
    decreases life.len(),
{
    if life.len() == 0 {
        0
    } else {
        releases_of(held, handle, life[0]) + releases_asked(
            held_after(held, life[0]),
            handle,
            life.drop_first(),
        )
    }
}

/// A list that has released its snapshot asks for no release again, whatever
/// is done with it.
pub proof fn lemma_released_stays_released(handle: usize, life: Seq<Use>)
    ensures
        releases_asked(false, handle, life) == 0,
    decreases life.len(),
{
    if life.len() > 0 {
        lemma_released_stays_released(handle, life.drop_first());
    }
}

/// Over a life that holds a teardown, the release of a list is asked for
/// exactly once, and it is the first teardown that asks for it. This holds
/// whether none, one or many walks were taken from the list, before the
/// teardown or after it, and however far each went.
pub proof fn lemma_released_exactly_once(handle: usize, life: Seq<Use>)
    requires
        exists|i: int| 0 <= i < life.len() && life[i] is Teardown,
    ensures
        releases_asked(true, handle, life) == 1,
    decreases life.len(),
{
    let rest = life.drop_first();
    if life[0] is Teardown {
        lemma_released_stays_released(handle, rest);
    } else {
        let i = choose|i: int| 0 <= i < life.len() && life[i] is Teardown;
        assert(rest[i - 1] is Teardown);
        lemma_released_exactly_once(handle, rest);
    }
}

/// Walks release nothing: a life without a teardown asks for no release.
pub proof fn lemma_no_release_without_teardown(held: bool, handle: usize, life: Seq<Use>)
    requires
        forall|i: int| 0 <= i < life.len() ==> life[i] is Walk,
    ensures
        releases_asked(held, handle, life) == 0,
    decreases life.len(),
{
    if life.len() > 0 {
        let rest = life.drop_first();
        assert forall|i: int| 0 <= i < rest.len() implies rest[i] is Walk by {
            assert(rest[i] == life[i + 1]);
        }
        lemma_no_release_without_teardown(held, handle, rest);
    }
}

/// Where a walk stands after a number of steps: that many records further,
/// or at the end of the chain if fewer were left.
pub proof fn lemma_after(walk: CursorView, steps: nat)
    ensures
        walk.after(steps).chain == walk.chain,
        walk.after(steps).position == if walk.exhausted() {
            walk.position
        } else if walk.position + steps <= walk.chain.len() {
            walk.position + steps
        } else {
            walk.chain.len()
        },
    decreases steps,
{
    if steps > 0 {
        lemma_after(walk.advance(), (steps - 1) as nat);
    }
}

/// A walk hands out the records that it has yet to reach, each once, in the
/// chain's order, and nothing after the last of them.
pub proof fn lemma_walk_keeps_order(walk: CursorView, n: nat)
    requires
        walk.well_formed(),
    ensures
        n < walk.remaining().len() ==> walk.nth(n) == Some(walk.remaining()[n as int]),
        n >= walk.remaining().len() ==> walk.nth(n) is None,
{
    lemma_after(walk, n);
}

/// A walk from the head of a chain hands out the whole chain as it stands:
/// step `n` hands out record `n`, and the steps after the last record hand
/// out nothing.
pub proof fn lemma_walk_from_head(chain: Seq<RawInterfaceRecord>, n: nat)
    ensures
        n < chain.len() ==> CursorView::start(chain).nth(n) == Some(chain[n as int]),
        n >= chain.len() ==> CursorView::start(chain).nth(n) is None,
{
    let walk = CursorView::start(chain);
    assert(walk.remaining() =~= chain);
    lemma_walk_keeps_order(walk, n);
}

/// Once a step of a walk has handed out nothing, every later step hands out
/// nothing.
pub proof fn lemma_exhaustion_is_final(walk: CursorView, first: nat, later: nat)
    requires
        walk.nth(first) is None,
        first <= later,
    ensures
        walk.nth(later) is None,
{
    lemma_after(walk, first);
    lemma_after(walk, later);
}

/// Two walks taken from the head of one chain hand out the same records step
/// by step, and neither touches the other: however many steps the first has
/// made, the chain that the second reads is as it was.
pub proof fn lemma_walks_are_independent(
    first: CursorView,
    second: CursorView,
    steps_of_first: nat,
    n: nat,
)
    requires
        first == CursorView::start(second.chain),
        second == CursorView::start(first.chain),
    ensures
        first.nth(n) == second.nth(n),
        first.after(steps_of_first).chain == second.chain,
        second.after(n) == first.after(n),
{
    lemma_after(first, steps_of_first);
}

} // verus!
