//! Receipt polling for the synchronous "bundle now" path: the caller polls
//! the blockchain client and the library decides when the wait is over.

use vstd::prelude::*;

use crate::types::Receipt;

verus! {

/// Index of the first poll outcome that carried a receipt, if any.
pub open spec fn first_receipt_index(polls: Seq<Option<Receipt>>) -> Option<int>
    decreases polls.len(),
{
    if polls.len() == 0 {
        None
    } else if polls.first() is Some {
        Some(0)
    } else {
        match first_receipt_index(polls.drop_first()) {
            None => None,
            Some(i) => Some(i + 1),
        }
    }
}

/// Whether one poll outcome ends the wait: the wait is over exactly when a
/// receipt was observed.
pub fn receipt_wait_done(poll: &Option<Receipt>) -> (done: bool)
    ensures
        done == (poll is Some),
{
    poll.is_some()
}

/// Walk a recorded sequence of poll outcomes in order and return the index
/// of the first one that carried a receipt; the wait makes exactly
/// `index + 1` polls before returning.
pub fn poll_for_receipt(polls: &Vec<Option<Receipt>>) -> (r: Option<usize>)
    ensures
        match r {
            Some(i) => first_receipt_index(polls@) == Some(i as int),
            None => first_receipt_index(polls@) is None,
        },
{
    let mut i: usize = 0;
    while i < polls.len()
        invariant
            i <= polls@.len(),
            forall|j: int| 0 <= j < i ==> polls@[j] is None,
        decreases polls@.len() - i,
    {
        if receipt_wait_done(&polls[i]) {
            proof {
                lemma_receipt_wait_ends_at_first_receipt(polls@, i as int);
            }
            return Some(i);
        }
        i = i + 1;
    }
    proof {
        lemma_all_none_no_receipt(polls@);
    }
    None
}

/// The wait ends exactly when the first receipt is observed: if the first
/// `n` polls return nothing and the `n + 1`-th returns a receipt, the wait
/// returns after that poll and not before.
pub proof fn lemma_receipt_wait_ends_at_first_receipt(polls: Seq<Option<Receipt>>, n: int)
    requires
        0 <= n < polls.len(),
        forall|j: int| 0 <= j < n ==> polls[j] is None,
        polls[n] is Some,
    ensures
        first_receipt_index(polls) == Some(n),
    decreases n,
{
    if n == 0 {
        assert(polls.first() is Some);
    } else {
        assert(polls.first() is None);
        assert forall|j: int| 0 <= j < n - 1 implies polls.drop_first()[j] is None by {
            assert(polls.drop_first()[j] == polls[j + 1]);
        }
        assert(polls.drop_first()[n - 1] == polls[n]);
        lemma_receipt_wait_ends_at_first_receipt(polls.drop_first(), n - 1);
    }
}

/// A wait over polls that never carry a receipt never ends.
pub proof fn lemma_all_none_no_receipt(polls: Seq<Option<Receipt>>)
    requires
        forall|j: int| 0 <= j < polls.len() ==> polls[j] is None,
    ensures
        first_receipt_index(polls) is None,
    decreases polls.len(),
{
    if polls.len() > 0 {
        assert(polls.first() is None);
        assert forall|j: int| 0 <= j < polls.drop_first().len() implies polls.drop_first()[j]
            is None by {
            assert(polls.drop_first()[j] == polls[j + 1]);
        }
        lemma_all_none_no_receipt(polls.drop_first());
    }
}

} // verus!
