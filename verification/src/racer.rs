//! The connection racer: one handshake attempt runs per discovered
//! candidate, concurrently, and the first to *complete successfully* wins.
//!
//! The embedding program spawns the attempts and collects their results in
//! completion order — it waits for all of them, losers are not cancelled.
//! [`pick_winner`] then chooses the winner: the first success in that order,
//! which is deliberately not a lexical or priority choice.

use vstd::prelude::*;

verus! {

/// The first `Some` in `results` from index `i` on, `None` if there is none.
pub open spec fn spec_first_success_from(results: Seq<Option<Seq<char>>>, i: int) -> Option<
    Seq<char>,
>
    decreases results.len() - i,
{
    if i < 0 || i >= results.len() {
        None
    } else {
        match results[i] {
            Some(name) => Some(name),
            None => spec_first_success_from(results, i + 1),
        }
    }
}

/// The winner among handshake results in completion order: the device name
/// of the first successful attempt, `None` if every attempt failed.
pub open spec fn spec_first_success(results: Seq<Option<Seq<char>>>) -> Option<Seq<char>> {
    spec_first_success_from(results, 0)
}

/// Choose the winner of the race: `results` holds, in completion order, the
/// device name of each successful handshake and `None` for each failed one.
pub fn pick_winner(results: &Vec<Option<String>>) -> (r: Option<String>)
    ensures
        r.deep_view() == spec_first_success(results.deep_view()),
{
    let ghost model = results.deep_view();
    let mut i: usize = 0;
    while i < results.len()
        invariant
            0 <= i <= results@.len(),
            model == results.deep_view(),
            model.len() == results@.len(),
            spec_first_success_from(model, 0) == spec_first_success_from(model, i as int),
        decreases results@.len() - i,
    {
        match &results[i] {
            Some(name) => {
                proof {
                    assert(model[i as int] == results@[i as int].deep_view());
                }
                return Some(name.clone());
            },
            None => {
                proof {
                    assert(model[i as int] == results@[i as int].deep_view());
                }
            },
        }
        i = i + 1;
    }
    None
}

/// The race law: when exactly one attempt succeeds, the race returns that
/// attempt's device, wherever the losers fall in the completion order.
pub proof fn lemma_single_winner(results: Seq<Option<Seq<char>>>, i: int)
    requires
        0 <= i < results.len(),
        results[i] is Some,
        forall|j: int| 0 <= j < results.len() && j != i ==> results[j] is None,
    ensures
        spec_first_success(results) == results[i],
{
    lemma_first_success_reaches(results, 0, i);
}

proof fn lemma_first_success_reaches(results: Seq<Option<Seq<char>>>, h: int, i: int)
    requires
        0 <= h <= i < results.len(),
        results[i] is Some,
        forall|j: int| h <= j < i ==> results[j] is None,
    ensures
        spec_first_success_from(results, h) == results[i],
    decreases i - h,
{
    if h < i {
        lemma_first_success_reaches(results, h + 1, i);
    }
}

} // verus!
