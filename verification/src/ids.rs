//! Identifiers of records, and lists of them.

use vstd::prelude::*;

verus! {

/// The identifiers of a list, each as the characters it is made of.
pub open spec fn ids_view(ids: Seq<String>) -> Seq<Seq<char>> {
    Seq::new(ids.len(), |k: int| ids[k]@)
}

/// The pools of a list of pools, each as the identifiers of its members.
pub open spec fn pools_view(pools: Seq<Vec<String>>) -> Seq<Seq<Seq<char>>> {
    Seq::new(pools.len(), |p: int| ids_view(pools[p]@))
}

/// The identifiers that occur in a list.
pub open spec fn id_set(ids: Seq<String>) -> Set<Seq<char>> {
    Set::new(|id: Seq<char>| exists|k: int| 0 <= k < ids.len() && (#[trigger] ids[k])@ == id)
}

/// One more identifier at the end of a list is one more in its set.
pub proof fn lemma_id_set_push(ids: Seq<String>, id: String)
    ensures
        id_set(ids.push(id)) == id_set(ids).insert(id@),
        ids_view(ids.push(id)) == ids_view(ids).push(id@),
{
    let longer = ids.push(id);
    assert forall|x: Seq<char>| id_set(longer).contains(x) <==> id_set(ids).insert(id@).contains(
        x,
    ) by {
        if id_set(longer).contains(x) {
            let k = choose|k: int| 0 <= k < longer.len() && (#[trigger] longer[k])@ == x;
            if k < ids.len() {
                assert(ids[k]@ == x);
            }
        }
        if id_set(ids).contains(x) {
            let k = choose|k: int| 0 <= k < ids.len() && (#[trigger] ids[k])@ == x;
            assert(longer[k]@ == x);
        }
        if x == id@ {
            assert(longer[ids.len() as int]@ == x);
        }
    }
    assert(id_set(longer) =~= id_set(ids).insert(id@));
    assert(ids_view(longer) =~= ids_view(ids).push(id@));
}

/// Whether `id` occurs in `ids`.
pub fn contains_id(ids: &Vec<String>, id: &String) -> (found: bool)
    ensures
        found == id_set(ids@).contains(id@),
{
    let mut k: usize = 0;
    while k < ids.len()
        invariant
            0 <= k <= ids.len(),
            forall|j: int| 0 <= j < k ==> (#[trigger] ids@[j])@ != id@,
        decreases ids.len() - k,
    {
        if ids[k] == *id {
            return true;
        }
        k = k + 1;
    }
    false
}

} // verus!

verus! {

/// A copy of a list of identifiers.
pub fn clone_ids(ids: &Vec<String>) -> (copy: Vec<String>)
    ensures
        ids_view(copy@) == ids_view(ids@),
{
    let mut copy: Vec<String> = Vec::new();
    let mut k: usize = 0;
    while k < ids.len()
        invariant
            0 <= k <= ids.len(),
            copy.len() == k,
            forall|j: int| 0 <= j < k ==> (#[trigger] copy@[j])@ == ids@[j]@,
        decreases ids.len() - k,
    {
        copy.push(ids[k].clone());
        k = k + 1;
    }
    assert(ids_view(copy@) =~= ids_view(ids@));
    copy
}

} // verus!
