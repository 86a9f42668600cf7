//! The rate tiers of the runs of a day.

use vstd::prelude::*;

verus! {

/// A rate tier. The run with the index `vector_id` mints at this tier.
#[derive(Clone, Debug, PartialEq)]
pub struct Vector {
    /// Vector identifier
    pub vector_id: u16,
    /// Name or label of the vector tier
    pub name: String,
    /// The markup on the price, in thousandths.
    pub vector_rate: u128,
}

/// The tier provider's answer to the question for all tiers.
#[derive(Clone, Debug, PartialEq)]
pub struct AllVectorsResponse {
    pub vectors: Vec<Vector>,
}

/// Whether `found` is the place of the first tier with the identifier `run`,
/// or says rightly that there is none.
pub open spec fn is_vector_for(vectors: Seq<Vector>, run: u16, found: Option<usize>) -> bool {
    match found {
        Some(i) => {
            &&& i < vectors.len()
            &&& vectors[i as int].vector_id == run
            &&& forall|j: int| 0 <= j < i ==> (#[trigger] vectors[j]).vector_id != run
        },
        None => forall|j: int| 0 <= j < vectors.len() ==> (#[trigger] vectors[j]).vector_id != run,
    }
}

/// Whether some tier has the identifier `run`.
pub open spec fn has_vector(vectors: Seq<Vector>, run: u16) -> bool {
    exists|j: int| 0 <= j < vectors.len() && (#[trigger] vectors[j]).vector_id == run
}

/// The rate of the first tier with the identifier `run`.
pub open spec fn vector_rate_for(vectors: Seq<Vector>, run: u16) -> u128
    decreases vectors.len(),
{
    if vectors.len() == 0 {
        0
    } else if vectors[0].vector_id == run {
        vectors[0].vector_rate
    } else {
        vector_rate_for(vectors.drop_first(), run)
    }
}

proof fn lemma_first_vector(vectors: Seq<Vector>, run: u16, i: int)
    requires
        0 <= i < vectors.len(),
        vectors[i].vector_id == run,
        forall|j: int| 0 <= j < i ==> (#[trigger] vectors[j]).vector_id != run,
    ensures
        vector_rate_for(vectors, run) == vectors[i].vector_rate,
    decreases i,
{
    if i > 0 {
        let rest = vectors.drop_first();
        assert(vectors[0].vector_id != run);
        assert forall|j: int| 0 <= j < i - 1 implies (#[trigger] rest[j]).vector_id != run by {
            assert(rest[j] == vectors[j + 1]);
        }
        lemma_first_vector(rest, run, i - 1);
    }
}

/// Looks up the tier of a run: the first tier whose identifier is the run's
/// index.
pub fn find_vector(vectors: &Vec<Vector>, run: u16) -> (found: Option<usize>)
    ensures
        is_vector_for(vectors@, run, found),
        found is Some <==> has_vector(vectors@, run),
        found is Some ==> vectors@[found->0 as int].vector_rate == vector_rate_for(vectors@, run),
{
    let mut i: usize = 0;
    while i < vectors.len()
        invariant
            0 <= i <= vectors.len(),
            forall|j: int| 0 <= j < i ==> (#[trigger] vectors@[j]).vector_id != run,
        decreases vectors.len() - i,
    {
        if vectors[i].vector_id == run {
            proof {
                lemma_first_vector(vectors@, run, i as int);
            }
            return Some(i);
        }
        i = i + 1;
    }
    None
}

} // verus!
