//! Random choice among node identities.

use crate::node_id::NodeId;
use rand::seq::IteratorRandom;
use vstd::prelude::*;

verus! {

/// `rand::rngs::StdRng`, the random number generator of the node. Nothing is
/// known of what is inside.
#[verifier::external_type_specification]
#[verifier::external_body]
pub struct ExStdRng(rand::rngs::StdRng);

/// The texts of a list of identities, in order.
pub open spec fn id_texts(ids: Seq<NodeId>) -> Seq<Seq<char>> {
    Seq::new(ids.len(), |i: int| ids[i]@)
}

/// Calls `rand::seq::IteratorRandom::choose_multiple` on the clones of the
/// candidates. Trusted: the result holds `amount` of the candidates, none of
/// them more often than the candidates hold it; which ones, and in what order,
/// depends on the generator. With `amount` beyond the number of candidates the
/// call would reserve room for more items than there are, so such an `amount`
/// is kept out.
#[verifier::external_body]
pub(crate) fn choose_multiple(
    rng: &mut rand::rngs::StdRng,
    candidates: &Vec<NodeId>,
    amount: usize,
) -> (chosen: Vec<NodeId>)
    requires
        amount <= candidates@.len(),
    ensures
        chosen@.len() == amount,
        id_texts(chosen@).to_multiset().subset_of(id_texts(candidates@).to_multiset()),
{
    candidates.iter().cloned().choose_multiple(rng, amount)
}

/// A choice among candidates without duplicates holds no duplicates, and
/// holds candidates only.
pub proof fn lemma_choice_is_unique(chosen: Seq<Seq<char>>, candidates: Seq<Seq<char>>)
    requires
        candidates.no_duplicates(),
        chosen.to_multiset().subset_of(candidates.to_multiset()),
    ensures
        chosen.no_duplicates(),
        forall|i: int| 0 <= i < chosen.len() ==> candidates.contains(#[trigger] chosen[i]),
{
    broadcast use vstd::multiset::group_multiset_axioms;

    candidates.lemma_multiset_has_no_duplicates();
    assert forall|x: Seq<char>| chosen.to_multiset().contains(x) implies chosen.to_multiset().count(x)
        == 1 by {
        assert(chosen.to_multiset().count(x) <= candidates.to_multiset().count(x));
        assert(candidates.to_multiset().contains(x));
    }
    chosen.lemma_multiset_has_no_duplicates_conv();
    assert forall|i: int| 0 <= i < chosen.len() implies candidates.contains(#[trigger] chosen[i]) by {
        let x = chosen[i];
        assert(chosen.contains(x));
        vstd::seq_lib::to_multiset_contains(chosen, x);
        assert(chosen.to_multiset().count(x) <= candidates.to_multiset().count(x));
        vstd::seq_lib::to_multiset_contains(candidates, x);
    }
}

} // verus!
