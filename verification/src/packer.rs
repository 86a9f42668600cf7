//! First-fit packing of a day's tributes into pools of one capacity.
//!
//! The pools are filled one after the other. Each pool scans the tributes in
//! the order given and takes every tribute that no pool has taken yet and
//! that still fits, until the pool is full. A tribute that fits no pool is
//! left out.

use vstd::prelude::*;
use crate::ids::{contains_id, id_set, ids_view, lemma_id_set_push};
use crate::tribute::FullTributeData;

verus! {

/// How far a pool has been filled: the positions of the tributes it took, in
/// the order taken, the sum of their weights, and the identifiers that this
/// pool and the pools before it have taken.
pub struct PoolFill {
    pub picked: Seq<int>,
    pub allocated: int,
    pub taken: Set<Seq<char>>,
}

/// Whether a pool filled as far as `before` takes the tribute at `i`: the pool
/// is not full, no pool took the tribute's identifier, and its weight fits.
pub open spec fn takes(
    tributes: Seq<FullTributeData>,
    capacity: int,
    before: PoolFill,
    i: int,
) -> bool {
    &&& before.allocated < capacity
    &&& !before.taken.contains(tributes[i].token_id@)
    &&& before.allocated + tributes[i].data.symbolic_load <= capacity
}

/// A pool after it has scanned the first `n` tributes, where the pools before
/// it took the identifiers `taken`.
pub open spec fn scan(
    tributes: Seq<FullTributeData>,
    capacity: int,
    taken: Set<Seq<char>>,
    n: int,
) -> PoolFill
    decreases n,
{
    if n <= 0 {
        PoolFill { picked: Seq::empty(), allocated: 0, taken }
    } else {
        let before = scan(tributes, capacity, taken, n - 1);
        if takes(tributes, capacity, before, n - 1) {
            PoolFill {
                picked: before.picked.push(n - 1),
                allocated: before.allocated + tributes[n - 1].data.symbolic_load,
                taken: before.taken.insert(tributes[n - 1].token_id@),
            }
        } else {
            before
        }
    }
}

/// The identifiers that the pools before pool `pool` have taken.
pub open spec fn taken_before(tributes: Seq<FullTributeData>, capacity: int, pool: int) -> Set<
    Seq<char>,
>
    decreases pool,
{
    if pool <= 0 {
        Set::empty()
    } else {
        scan(
            tributes,
            capacity,
            taken_before(tributes, capacity, pool - 1),
            tributes.len() as int,
        ).taken
    }
}

/// Pool `pool`, counted from zero, once it has scanned all tributes.
pub open spec fn pool_fill(tributes: Seq<FullTributeData>, capacity: int, pool: int) -> PoolFill {
    scan(tributes, capacity, taken_before(tributes, capacity, pool), tributes.len() as int)
}

/// The identifiers of the tributes at the positions `picked`.
pub open spec fn ids_at(tributes: Seq<FullTributeData>, picked: Seq<int>) -> Seq<Seq<char>> {
    Seq::new(picked.len(), |k: int| tributes[picked[k]].token_id@)
}

/// The members of pool `pool`, counted from zero, in the order taken.
pub open spec fn pool_members(tributes: Seq<FullTributeData>, capacity: int, pool: int) -> Seq<
    Seq<char>,
> {
    ids_at(tributes, pool_fill(tributes, capacity, pool).picked)
}

/// The sum of the weights of the tributes at the positions `picked`.
pub open spec fn load_sum(tributes: Seq<FullTributeData>, picked: Seq<int>) -> int
    decreases picked.len(),
{
    if picked.len() == 0 {
        0
    } else {
        load_sum(tributes, picked.drop_last()) + tributes[picked.last()].data.symbolic_load
    }
}

/// What holds of a pool that has scanned the first `n` tributes after the
/// identifiers `taken` were gone.
pub open spec fn fill_ok(
    tributes: Seq<FullTributeData>,
    capacity: int,
    taken: Set<Seq<char>>,
    n: int,
    f: PoolFill,
) -> bool {
    &&& 0 <= f.allocated <= capacity
    &&& f.allocated == load_sum(tributes, f.picked)
    &&& forall|id: Seq<char>| taken.contains(id) ==> f.taken.contains(id)
    &&& forall|k: int| 0 <= k < f.picked.len() ==> 0 <= #[trigger] f.picked[k] < n
    &&& forall|j: int, k: int|
        #![trigger f.picked[j], f.picked[k]]
        0 <= j < k < f.picked.len() ==> f.picked[j] < f.picked[k]
    &&& forall|k: int|
        0 <= k < f.picked.len() ==> !taken.contains(tributes[#[trigger] f.picked[k]].token_id@)
    &&& forall|k: int|
        0 <= k < f.picked.len() ==> f.taken.contains(tributes[#[trigger] f.picked[k]].token_id@)
    &&& forall|j: int, k: int|
        #![trigger f.picked[j], f.picked[k]]
        0 <= j < k < f.picked.len() ==> tributes[f.picked[j]].token_id@
            != tributes[f.picked[k]].token_id@
    &&& forall|k: int|
        0 <= k < f.picked.len() ==> tributes[#[trigger] f.picked[k]].data.symbolic_load
            <= capacity
}

/// A scan keeps within the capacity, takes no identifier twice and none that
/// was gone, and takes its tributes in the order given.
pub proof fn lemma_scan_ok(
    tributes: Seq<FullTributeData>,
    capacity: int,
    taken: Set<Seq<char>>,
    n: int,
)
    requires
        0 <= n <= tributes.len(),
        0 <= capacity,
    ensures
        fill_ok(tributes, capacity, taken, n, scan(tributes, capacity, taken, n)),
    decreases n,
{
    if n > 0 {
        lemma_scan_ok(tributes, capacity, taken, n - 1);
        let before = scan(tributes, capacity, taken, n - 1);
        let f = scan(tributes, capacity, taken, n);
        if takes(tributes, capacity, before, n - 1) {
            assert(f.picked.drop_last() =~= before.picked);
            assert(f.picked.last() == n - 1);
            assert forall|k: int| 0 <= k < f.picked.len() implies 0 <= #[trigger] f.picked[k]
                < n by {
                if k < before.picked.len() {
                    assert(f.picked[k] == before.picked[k]);
                }
            }
            assert forall|j: int, k: int|
                #![trigger f.picked[j], f.picked[k]]
                0 <= j < k < f.picked.len() implies f.picked[j] < f.picked[k]
                && tributes[f.picked[j]].token_id@ != tributes[f.picked[k]].token_id@ by {
                assert(f.picked[j] == before.picked[j]);
                if k < before.picked.len() {
                    assert(f.picked[k] == before.picked[k]);
                }
            }
            assert forall|k: int| 0 <= k < f.picked.len() implies !taken.contains(
                tributes[#[trigger] f.picked[k]].token_id@,
            ) && f.taken.contains(tributes[f.picked[k]].token_id@)
                && tributes[f.picked[k]].data.symbolic_load <= capacity by {
                if k < before.picked.len() {
                    assert(f.picked[k] == before.picked[k]);
                }
            }
        }
    }
}

/// Once a pool is full, the rest of the scan changes nothing.
pub proof fn lemma_scan_full(
    tributes: Seq<FullTributeData>,
    capacity: int,
    taken: Set<Seq<char>>,
    i: int,
    n: int,
)
    requires
        0 <= i <= n,
        scan(tributes, capacity, taken, i).allocated >= capacity,
    ensures
        scan(tributes, capacity, taken, n) == scan(tributes, capacity, taken, i),
    decreases n - i,
{
    if i < n {
        lemma_scan_full(tributes, capacity, taken, i, n - 1);
    }
}

/// What one pool has taken is gone for every pool after it.
pub proof fn lemma_taken_grows(tributes: Seq<FullTributeData>, capacity: int, p: int, q: int)
    requires
        0 <= p <= q,
        0 <= capacity,
    ensures
        taken_before(tributes, capacity, p).subset_of(taken_before(tributes, capacity, q)),
    decreases q - p,
{
    if p < q {
        lemma_taken_grows(tributes, capacity, p, q - 1);
        lemma_scan_ok(
            tributes,
            capacity,
            taken_before(tributes, capacity, q - 1),
            tributes.len() as int,
        );
    }
}

/// No pool holds more than its capacity: the sum of the weights of a pool's
/// members is what the pool has allocated, and that is at most the capacity.
pub proof fn lemma_pool_within_capacity(tributes: Seq<FullTributeData>, capacity: int, pool: int)
    requires
        0 <= capacity,
    ensures
        load_sum(tributes, pool_fill(tributes, capacity, pool).picked) == pool_fill(
            tributes,
            capacity,
            pool,
        ).allocated,
        0 <= pool_fill(tributes, capacity, pool).allocated <= capacity,
{
    lemma_scan_ok(
        tributes,
        capacity,
        taken_before(tributes, capacity, pool),
        tributes.len() as int,
    );
}

/// No tribute is raffled twice: two places in the pools, in one pool or in
/// two, hold two tributes, and their identifiers differ.
pub proof fn lemma_picked_once(
    tributes: Seq<FullTributeData>,
    capacity: int,
    p: int,
    a: int,
    q: int,
    b: int,
)
    requires
        0 <= capacity,
        0 <= p,
        0 <= q,
        0 <= a < pool_fill(tributes, capacity, p).picked.len(),
        0 <= b < pool_fill(tributes, capacity, q).picked.len(),
        p != q || a != b,
    ensures
        pool_fill(tributes, capacity, p).picked[a] != pool_fill(tributes, capacity, q).picked[b],
        pool_members(tributes, capacity, p)[a] != pool_members(tributes, capacity, q)[b],
{
    let n = tributes.len() as int;
    lemma_scan_ok(tributes, capacity, taken_before(tributes, capacity, p), n);
    lemma_scan_ok(tributes, capacity, taken_before(tributes, capacity, q), n);
    let fp = pool_fill(tributes, capacity, p);
    let fq = pool_fill(tributes, capacity, q);
    let ia = fp.picked[a];
    let ib = fq.picked[b];
    if p == q {
        if a < b {
            assert(tributes[fp.picked[a]].token_id@ != tributes[fp.picked[b]].token_id@);
        } else {
            assert(tributes[fp.picked[b]].token_id@ != tributes[fp.picked[a]].token_id@);
        }
    } else if p < q {
        lemma_taken_grows(tributes, capacity, p + 1, q);
        assert(fp.taken.contains(tributes[ia].token_id@));
        assert(taken_before(tributes, capacity, p + 1) == fp.taken);
        assert(!taken_before(tributes, capacity, q).contains(tributes[ib].token_id@));
    } else {
        lemma_taken_grows(tributes, capacity, q + 1, p);
        assert(fq.taken.contains(tributes[ib].token_id@));
        assert(taken_before(tributes, capacity, q + 1) == fq.taken);
        assert(!taken_before(tributes, capacity, p).contains(tributes[ia].token_id@));
    }
}

/// A tribute that weighs more than a pool can take is in no pool.
pub proof fn lemma_oversized_left_out(
    tributes: Seq<FullTributeData>,
    capacity: int,
    pool: int,
    i: int,
)
    requires
        0 <= capacity,
        0 <= i < tributes.len(),
        tributes[i].data.symbolic_load > capacity,
    ensures
        !pool_fill(tributes, capacity, pool).picked.contains(i),
{
    lemma_scan_ok(
        tributes,
        capacity,
        taken_before(tributes, capacity, pool),
        tributes.len() as int,
    );
    let f = pool_fill(tributes, capacity, pool);
    if f.picked.contains(i) {
        let k = choose|k: int| 0 <= k < f.picked.len() && f.picked[k] == i;
        assert(tributes[f.picked[k]].data.symbolic_load <= capacity);
    }
}

/// The pools of a day and what each has allocated.
#[derive(Debug)]
pub struct Packing {
    /// The identifiers of each pool's members, in the order taken.
    pub pools: Vec<Vec<String>>,
    /// The sum of the weights of each pool's members.
    pub utilization: Vec<u128>,
}

impl Packing {
    /// Whether this is what packing `tributes` at `capacity` gives.
    pub open spec fn is_packing_of(self, tributes: Seq<FullTributeData>, capacity: int) -> bool {
        &&& self.pools.len() == 24
        &&& self.utilization.len() == 24
        &&& forall|p: int|
            0 <= p < 24 ==> ids_view((#[trigger] self.pools[p])@) == pool_members(
                tributes,
                capacity,
                p,
            )
        &&& forall|p: int|
            0 <= p < 24 ==> (#[trigger] self.utilization[p]) as int == pool_fill(
                tributes,
                capacity,
                p,
            ).allocated
    }
}

/// Fills one pool: scans the tributes in order and takes each whose
/// identifier is not in `distributed` and whose weight still fits. The
/// identifiers taken are added to `distributed`.
pub fn fill_pool(
    tributes: &Vec<FullTributeData>,
    pool_capacity: u128,
    distributed: &mut Vec<String>,
) -> (filled: (Vec<String>, u128))
    ensures
        ids_view(filled.0@) == ids_at(
            tributes@,
            scan(
                tributes@,
                pool_capacity as int,
                id_set(old(distributed)@),
                tributes@.len() as int,
            ).picked,
        ),
        filled.1 == scan(
            tributes@,
            pool_capacity as int,
            id_set(old(distributed)@),
            tributes@.len() as int,
        ).allocated,
        id_set(final(distributed)@) == scan(
            tributes@,
            pool_capacity as int,
            id_set(old(distributed)@),
            tributes@.len() as int,
        ).taken,
{
    let ghost taken = id_set(distributed@);
    let ghost capacity = pool_capacity as int;
    let mut members: Vec<String> = Vec::new();
    let mut allocated: u128 = 0;
    let mut i: usize = 0;
    assert(ids_view(members@) =~= ids_at(tributes@, scan(tributes@, capacity, taken, 0).picked));
    while i < tributes.len() && allocated < pool_capacity
        invariant
            0 <= i <= tributes.len(),
            capacity == pool_capacity as int,
            allocated <= pool_capacity,
            allocated == scan(tributes@, capacity, taken, i as int).allocated,
            ids_view(members@) == ids_at(
                tributes@,
                scan(tributes@, capacity, taken, i as int).picked,
            ),
            id_set(distributed@) == scan(tributes@, capacity, taken, i as int).taken,
        decreases tributes.len() - i,
    {
        let ghost before = scan(tributes@, capacity, taken, i as int);
        let tribute = &tributes[i];
        if !contains_id(distributed, &tribute.token_id) {
            if tribute.data.symbolic_load <= pool_capacity - allocated {
                allocated = allocated + tribute.data.symbolic_load;
                proof {
                    lemma_id_set_push(members@, tribute.token_id);
                    lemma_id_set_push(distributed@, tribute.token_id);
                    assert(takes(tributes@, capacity, before, i as int));
                    let after = scan(tributes@, capacity, taken, i + 1);
                    assert(after.picked == before.picked.push(i as int));
                    assert(ids_at(tributes@, after.picked) =~= ids_at(
                        tributes@,
                        before.picked,
                    ).push(tribute.token_id@));
                }
                members.push(tribute.token_id.clone());
                distributed.push(tribute.token_id.clone());
            }
        }
        i = i + 1;
    }
    proof {
        if i < tributes.len() {
            lemma_scan_full(tributes@, capacity, taken, i as int, tributes@.len() as int);
        }
    }
    (members, allocated)
}

/// Packs the tributes into twenty-four pools of capacity `pool_capacity`,
/// first-fit in the order given.
pub fn pack(tributes: &Vec<FullTributeData>, pool_capacity: u128) -> (packing: Packing)
    ensures
        packing.is_packing_of(tributes@, pool_capacity as int),
{
    let ghost capacity = pool_capacity as int;
    let mut pools: Vec<Vec<String>> = Vec::new();
    let mut utilization: Vec<u128> = Vec::new();
    let mut distributed: Vec<String> = Vec::new();
    let mut pool_index: u16 = 0;
    assert(id_set(distributed@) =~= taken_before(tributes@, capacity, 0));
    while pool_index < 24
        invariant
            0 <= pool_index <= 24,
            capacity == pool_capacity as int,
            pools.len() == pool_index,
            utilization.len() == pool_index,
            id_set(distributed@) == taken_before(tributes@, capacity, pool_index as int),
            forall|p: int|
                0 <= p < pool_index ==> ids_view((#[trigger] pools[p])@) == pool_members(
                    tributes@,
                    capacity,
                    p,
                ),
            forall|p: int|
                0 <= p < pool_index ==> (#[trigger] utilization[p]) as int == pool_fill(
                    tributes@,
                    capacity,
                    p,
                ).allocated,
        decreases 24 - pool_index,
    {
        let (members, allocated) = fill_pool(tributes, pool_capacity, &mut distributed);
        pools.push(members);
        utilization.push(allocated);
        pool_index = pool_index + 1;
    }
    Packing { pools, utilization }
}

} // verus!
