//! The correlator that puts the responses of a batch back in order.
//!
//! Every element of a batch that is owed a response gets a slot, numbered in
//! the order of the batch. Responses arrive in any order, each tagged with
//! its slot. The batch is emitted once every slot is filled, in slot order.

use vstd::prelude::*;
use vstd::pervasive::VecAdditionalExecFns;
use crate::methods::response_models;
use crate::types::{Response, ResponseView};

verus! {

/// The slots of one batch that is being answered.
pub struct BatchContext {
    responses: Vec<Option<Response>>,
    expected_count: usize,
}

/// The model of a slot.
pub open spec fn slot_view(slot: Option<Response>) -> Option<ResponseView> {
    match slot {
        Some(r) => Some(r@),
        None => None,
    }
}

/// Whether every slot is filled.
pub open spec fn all_filled(slots: Seq<Option<ResponseView>>) -> bool {
    forall|i: int| 0 <= i < slots.len() ==> (#[trigger] slots[i]).is_some()
}

/// The responses in the filled slots, in slot order.
pub open spec fn filled(slots: Seq<Option<ResponseView>>) -> Seq<ResponseView>
    decreases slots.len(),
{
    if slots.len() == 0 {
        Seq::empty()
    } else {
        match slots.last() {
            Some(r) => filled(slots.drop_last()).push(r),
            None => filled(slots.drop_last()),
        }
    }
}

/// The slots after the deliveries, each a slot and its response, were made
/// one after the other.
pub open spec fn deliver(
    slots: Seq<Option<ResponseView>>,
    deliveries: Seq<(int, ResponseView)>,
) -> Seq<Option<ResponseView>>
    decreases deliveries.len(),
{
    if deliveries.len() == 0 {
        slots
    } else {
        deliver(slots, deliveries.drop_last()).update(
            deliveries.last().0,
            Some(deliveries.last().1),
        )
    }
}

/// Whether one of the deliveries is made to the slot `index`.
pub open spec fn delivers_to(deliveries: Seq<(int, ResponseView)>, index: int) -> bool {
    exists|j: int| 0 <= j < deliveries.len() && (#[trigger] deliveries[j]).0 == index
}

/// Where every slot is filled, the filled slots are all of them, in order.
pub proof fn lemma_filled_complete(slots: Seq<Option<ResponseView>>)
    requires
        all_filled(slots),
    ensures
        filled(slots).len() == slots.len(),
        forall|i: int| 0 <= i < slots.len() ==> slots[i] == Some(#[trigger] filled(slots)[i]),
    decreases slots.len(),
{
    if slots.len() > 0 {
        let front = slots.drop_last();
        assert(all_filled(front)) by {
            assert forall|i: int| 0 <= i < front.len() implies (#[trigger] front[i]).is_some() by {
                assert(front[i] == slots[i]);
            }
        }
        lemma_filled_complete(front);
        assert(slots.last().is_some());
        assert forall|i: int| 0 <= i < slots.len() implies slots[i] == Some(
            #[trigger] filled(slots)[i],
        ) by {
            if i < front.len() {
                assert(front[i] == slots[i]);
            }
        }
    }
}

/// Delivering keeps the number of slots.
pub proof fn lemma_deliver_len(
    slots: Seq<Option<ResponseView>>,
    deliveries: Seq<(int, ResponseView)>,
)
    requires
        forall|j: int| 0 <= j < deliveries.len() ==> 0 <= (#[trigger] deliveries[j]).0 < slots.len(),
    ensures
        deliver(slots, deliveries).len() == slots.len(),
    decreases deliveries.len(),
{
    if deliveries.len() > 0 {
        let front = deliveries.drop_last();
        assert forall|j: int| 0 <= j < front.len() implies 0 <= (#[trigger] front[j]).0
            < slots.len() by {
            assert(front[j] == deliveries[j]);
        }
        lemma_deliver_len(slots, front);
        assert(0 <= deliveries[deliveries.len() - 1].0 < slots.len());
    }
}

/// Order independence: whatever the order in which the responses of a batch
/// arrive, as long as each arrives once and for a slot of the batch, every
/// slot that was delivered to holds the response that was delivered to it,
/// and every other slot is as it was.
pub proof fn law_delivery_order(
    slots: Seq<Option<ResponseView>>,
    deliveries: Seq<(int, ResponseView)>,
)
    requires
        forall|j: int| 0 <= j < deliveries.len() ==> 0 <= (#[trigger] deliveries[j]).0 < slots.len(),
        forall|j: int, k: int|
            0 <= j < k < deliveries.len() ==> (#[trigger] deliveries[j]).0 != (
            #[trigger] deliveries[k]).0,
    ensures
        deliver(slots, deliveries).len() == slots.len(),
        forall|j: int|
            0 <= j < deliveries.len() ==> deliver(slots, deliveries)[(#[trigger] deliveries[j]).0]
                == Some(deliveries[j].1),
        forall|i: int|
            0 <= i < slots.len() && (forall|j: int|
                0 <= j < deliveries.len() ==> (#[trigger] deliveries[j]).0 != i) ==> (
            #[trigger] deliver(slots, deliveries)[i]) == slots[i],
    decreases deliveries.len(),
{
    lemma_deliver_len(slots, deliveries);
    if deliveries.len() > 0 {
        let front = deliveries.drop_last();
        assert forall|j: int| 0 <= j < front.len() implies 0 <= (#[trigger] front[j]).0
            < slots.len() by {
            assert(front[j] == deliveries[j]);
        }
        lemma_deliver_len(slots, front);
        assert forall|j: int, k: int| 0 <= j < k < front.len() implies (#[trigger] front[j]).0 != (
        #[trigger] front[k]).0 by {
            assert(front[j] == deliveries[j]);
            assert(front[k] == deliveries[k]);
        }
        law_delivery_order(slots, front);
        let last = deliveries.len() - 1;
        assert forall|j: int| 0 <= j < deliveries.len() implies deliver(slots, deliveries)[(
        #[trigger] deliveries[j]).0] == Some(deliveries[j].1) by {
            if j < last {
                assert(front[j] == deliveries[j]);
                assert(deliveries[j].0 != deliveries[last].0);
            }
        }
        assert forall|i: int|
            0 <= i < slots.len() && (forall|j: int|
                0 <= j < deliveries.len() ==> (#[trigger] deliveries[j]).0 != i) implies (
        #[trigger] deliver(slots, deliveries)[i]) == slots[i] by {
            assert(deliveries[last].0 != i);
            assert forall|j: int| 0 <= j < front.len() implies (#[trigger] front[j]).0 != i by {
                assert(front[j] == deliveries[j]);
            }
        }
    }
}

/// Two orders of the same deliveries fill the slots alike: where both make
/// one delivery to each slot of the batch, and each slot gets the same
/// response in both, the batches that are emitted are the same.
pub proof fn law_same_batch_in_any_order(
    count: nat,
    first: Seq<(int, ResponseView)>,
    second: Seq<(int, ResponseView)>,
    answer: Seq<ResponseView>,
)
    requires
        answer.len() == count,
        first.len() == count,
        second.len() == count,
        forall|j: int|
            0 <= j < count ==> 0 <= (#[trigger] first[j]).0 < count && first[j].1
                == answer[first[j].0],
        forall|j: int|
            0 <= j < count ==> 0 <= (#[trigger] second[j]).0 < count && second[j].1
                == answer[second[j].0],
        forall|i: int| 0 <= i < count ==> #[trigger] delivers_to(first, i),
        forall|i: int| 0 <= i < count ==> #[trigger] delivers_to(second, i),
        forall|j: int, k: int|
            0 <= j < k < count ==> (#[trigger] first[j]).0 != (#[trigger] first[k]).0,
        forall|j: int, k: int|
            0 <= j < k < count ==> (#[trigger] second[j]).0 != (#[trigger] second[k]).0,
    ensures
        deliver(Seq::new(count, |i: int| None), first) == deliver(Seq::new(count, |i: int| None), second),
        all_filled(deliver(Seq::new(count, |i: int| None), first)),
        filled(deliver(Seq::new(count, |i: int| None), first)) == answer,
{
    let empty = Seq::new(count, |i: int| None::<ResponseView>);
    law_delivery_order(empty, first);
    law_delivery_order(empty, second);
    let a = deliver(empty, first);
    let b = deliver(empty, second);
    assert forall|i: int| 0 <= i < count implies a[i] == Some(answer[i]) && b[i] == Some(answer[i]) by {
        assert(delivers_to(first, i));
        let j = choose|j: int| 0 <= j < first.len() && (#[trigger] first[j]).0 == i;
        assert(a[first[j].0] == Some(first[j].1));
        assert(delivers_to(second, i));
        let k = choose|k: int| 0 <= k < second.len() && (#[trigger] second[k]).0 == i;
        assert(b[second[k].0] == Some(second[k].1));
    }
    assert(a =~= b);
    assert(all_filled(a));
    lemma_filled_complete(a);
    assert(filled(a) =~= answer);
}

impl BatchContext {
    /// The slots: `None` where the response is still awaited.
    pub closed spec fn slots(&self) -> Seq<Option<ResponseView>> {
        Seq::new(self.responses.len() as nat, |i: int| slot_view(self.responses[i]))
    }

    /// The number of responses that the batch is owed.
    pub closed spec fn expected(&self) -> nat {
        self.expected_count as nat
    }

    /// Whether the context is well formed: it has one slot for each
    /// response that the batch is owed.
    pub closed spec fn wf(&self) -> bool {
        self.expected_count == self.responses.len()
    }

    /// A context with `expected_count` slots, none of them filled.
    pub fn new(expected_count: usize) -> (out: BatchContext)
        ensures
            out.wf(),
            out.expected() == expected_count,
            out.slots() == Seq::new(expected_count as nat, |i: int| None::<ResponseView>),
    {
        let mut responses: Vec<Option<Response>> = Vec::new();
        let mut i: usize = 0;
        while i < expected_count
            invariant
                i <= expected_count,
                responses.len() == i,
                forall|k: int| 0 <= k < i ==> responses[k] is None,
            decreases expected_count - i,
        {
            responses.push(None);
            i += 1;
        }
        let out = BatchContext { responses, expected_count };
        proof {
            assert(out.slots() =~= Seq::new(expected_count as nat, |i: int| None::<ResponseView>));
        }
        out
    }

    /// A context with the given slots.
    pub fn with_slots(responses: Vec<Option<Response>>) -> (out: BatchContext)
        ensures
            out.wf(),
            out.expected() == responses.len(),
            out.slots() == Seq::new(responses.len() as nat, |i: int| slot_view(responses[i])),
    {
        let expected_count = responses.len();
        BatchContext { responses, expected_count }
    }

    /// The number of slots.
    pub fn len(&self) -> (out: usize)
        ensures
            out == self.slots().len(),
    {
        self.responses.len()
    }

    /// Puts `response` into the slot `index`. Returns whether the batch has
    /// such a slot; without one nothing changes.
    pub fn fill(&mut self, index: usize, response: Response) -> (out: bool)
        requires
            old(self).wf(),
        ensures
            final(self).wf(),
            final(self).expected() == old(self).expected(),
            out == (index < old(self).slots().len()),
            out ==> final(self).slots() == old(self).slots().update(index as int, Some(response@)),
            !out ==> final(self).slots() == old(self).slots(),
    {
        if index < self.responses.len() {
            self.responses.set(index, Some(response));
            proof {
                assert(self.slots() =~= old(self).slots().update(index as int, Some(response@)));
            }
            true
        } else {
            proof {
                assert(self.slots() =~= old(self).slots());
            }
            false
        }
    }

    /// Whether every slot is filled.
    pub fn is_complete(&self) -> (out: bool)
        ensures
            out == all_filled(self.slots()),
    {
        let mut i: usize = 0;
        while i < self.responses.len()
            invariant
                i <= self.responses.len(),
                forall|k: int| 0 <= k < i ==> (#[trigger] self.slots()[k]).is_some(),
            decreases self.responses.len() - i,
        {
            if self.responses[i].is_none() {
                proof {
                    assert(self.slots()[i as int].is_none());
                }
                return false;
            }
            proof {
                assert(self.slots()[i as int].is_some());
            }
            i += 1;
        }
        true
    }

    /// Takes the responses out of the filled slots, in slot order.
    pub fn drain(self) -> (out: Vec<Response>)
        ensures
            response_models(out@) == filled(self.slots()),
    {
        let mut responses = self.responses;
        let ghost slots = self.slots();
        let mut out: Vec<Response> = Vec::new();
        let mut i: usize = 0;
        proof {
            assert(slots.take(0) =~= Seq::empty());
            assert(response_models(out@) =~= Seq::empty());
        }
        while i < responses.len()
            invariant
                i <= responses.len(),
                responses.len() == slots.len(),
                forall|k: int| i <= k < responses.len() ==> slot_view(responses[k]) == slots[k],
                response_models(out@) == filled(slots.take(i as int)),
            decreases responses.len() - i,
        {
            let ghost before = response_models(out@);
            proof {
                assert(slots.take(i as int + 1).drop_last() =~= slots.take(i as int));
                assert(slots.take(i as int + 1).last() == slots[i as int]);
            }
            let mut slot: Option<Response> = None;
            responses.set_and_swap(i, &mut slot);
            match slot {
                Some(r) => {
                    out.push(r);
                    proof {
                        assert(response_models(out@) =~= before.push(r@));
                    }
                },
                None => {},
            }
            i += 1;
        }
        proof {
            assert(slots.take(i as int) =~= slots);
        }
        out
    }
}

} // verus!
