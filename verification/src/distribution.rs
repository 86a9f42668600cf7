//! The stored assignment of tributes to pools.
//!
//! A record says which tribute stands at one position of one pool of one day.
//! The store is a log: recording adds a line, and the last line written for a
//! key is the one that counts. Replaying a pool reads its positions from zero
//! up to the first that has no record.

use vstd::prelude::*;
use vstd::set_lib::lemma_len_subset;
use crate::ids::{ids_view, pools_view};

verus! {

/// The key of a record: the day in seconds, the pool's number counted from
/// one, and the position in the pool counted from zero.
pub type RecordKey = (int, int, int);

/// One line of the log.
#[derive(Clone, Debug)]
pub struct DistributionRecord {
    pub date: u64,
    pub pool_number: u16,
    pub position: u64,
    pub item_id: String,
}

impl DistributionRecord {
    pub open spec fn key(self) -> RecordKey {
        (self.date as int, self.pool_number as int, self.position as int)
    }
}

/// What a log says: for each key the tribute of the last line written for it.
pub open spec fn log_map(records: Seq<DistributionRecord>) -> Map<RecordKey, Seq<char>>
    decreases records.len(),
{
    if records.len() == 0 {
        Map::empty()
    } else {
        log_map(records.drop_last()).insert(records.last().key(), records.last().item_id@)
    }
}

/// Whether the positions below `n` of a pool all have a record.
pub open spec fn present_upto(
    records: Map<RecordKey, Seq<char>>,
    date: int,
    pool_number: int,
    n: int,
) -> bool {
    forall|j: int| 0 <= j < n ==> records.contains_key((date, pool_number, j))
}

/// Whether `n` is the first position of a pool that has no record.
pub open spec fn is_replay_len(
    records: Map<RecordKey, Seq<char>>,
    date: int,
    pool_number: int,
    n: int,
) -> bool {
    &&& 0 <= n
    &&& present_upto(records, date, pool_number, n)
    &&& !records.contains_key((date, pool_number, n))
}

/// The first position of a pool that has no record.
pub open spec fn replay_len(records: Map<RecordKey, Seq<char>>, date: int, pool_number: int) -> int {
    choose|n: int| is_replay_len(records, date, pool_number, n)
}

/// The members of a pool as the records give them: the positions from zero
/// up to the first that has no record.
pub open spec fn replayed(records: Map<RecordKey, Seq<char>>, date: int, pool_number: int) -> Seq<
    Seq<char>,
> {
    Seq::new(
        replay_len(records, date, pool_number) as nat,
        |j: int| records[(date, pool_number, j)],
    )
}

/// Whether `key` is a place in the pools of `date`: pool `p` of the list has
/// the number `p + 1`.
pub open spec fn in_pools(pools: Seq<Seq<Seq<char>>>, date: int, key: RecordKey) -> bool {
    &&& key.0 == date
    &&& 1 <= key.1 <= pools.len()
    &&& 0 <= key.2 < pools[key.1 - 1].len()
}

/// The records after the pools of `date` were written over `records`.
pub open spec fn with_pools(
    records: Map<RecordKey, Seq<char>>,
    date: int,
    pools: Seq<Seq<Seq<char>>>,
) -> Map<RecordKey, Seq<char>> {
    Map::new(
        |key: RecordKey| records.contains_key(key) || in_pools(pools, date, key),
        |key: RecordKey|
            if in_pools(pools, date, key) {
                pools[key.1 - 1][key.2]
            } else {
                records[key]
            },
    )
}

/// Whether the records hold nothing of `date`.
pub open spec fn no_record_of(records: Map<RecordKey, Seq<char>>, date: int) -> bool {
    forall|key: RecordKey| records.contains_key(key) ==> key.0 != date
}

/// A pool has one first position without a record, not two.
pub proof fn lemma_replay_len_unique(
    records: Map<RecordKey, Seq<char>>,
    date: int,
    pool_number: int,
    n: int,
)
    requires
        is_replay_len(records, date, pool_number, n),
    ensures
        replay_len(records, date, pool_number) == n,
{
    let m = replay_len(records, date, pool_number);
    assert(is_replay_len(records, date, pool_number, m));
    if m < n {
        assert(records.contains_key((date, pool_number, m)));
    } else if n < m {
        assert(records.contains_key((date, pool_number, n)));
    }
}

/// Replay gives back what was packed: once the pools of a day are written to
/// records that held nothing of that day, replaying the pool with the number
/// `p + 1` gives the members of pool `p`, in their order. Replay reads and
/// does not write, so every replay of the pool gives the same.
pub proof fn lemma_replay_returns_pool(
    records: Map<RecordKey, Seq<char>>,
    date: int,
    pools: Seq<Seq<Seq<char>>>,
    p: int,
)
    requires
        no_record_of(records, date),
        0 <= p < pools.len(),
    ensures
        replayed(with_pools(records, date, pools), date, p + 1) == pools[p],
{
    let written = with_pools(records, date, pools);
    let n = pools[p].len() as int;
    let q = p + 1;
    assert(is_replay_len(written, date, q, n)) by {
        assert forall|j: int| 0 <= j < n implies written.contains_key((date, q, j)) by {
            assert(in_pools(pools, date, (date, q, j)));
        }
        assert(!in_pools(pools, date, (date, q, n)));
    }
    lemma_replay_len_unique(written, date, q, n);
    assert forall|j: int| 0 <= j < n implies written[(date, q, j)] == pools[p][j] by {
        assert(in_pools(pools, date, (date, q, j)));
    }
    assert(replayed(written, date, q) =~= pools[p]);
}

/// A pool number that the day has no pool for replays to nothing.
pub proof fn lemma_replay_beyond_pools(
    records: Map<RecordKey, Seq<char>>,
    date: int,
    pools: Seq<Seq<Seq<char>>>,
    pool_number: int,
)
    requires
        no_record_of(records, date),
        pool_number < 1 || pool_number > pools.len(),
    ensures
        replayed(with_pools(records, date, pools), date, pool_number) == Seq::<Seq<char>>::empty(),
{
    let written = with_pools(records, date, pools);
    assert(is_replay_len(written, date, pool_number, 0));
    lemma_replay_len_unique(written, date, pool_number, 0);
    assert(replayed(written, date, pool_number) =~= Seq::<Seq<char>>::empty());
}

/// Where nothing is recorded, every replay is empty: position zero is
/// missing.
pub proof fn lemma_replay_of_nothing(date: int, pool_number: int)
    ensures
        replayed(Map::<RecordKey, Seq<char>>::empty(), date, pool_number) == Seq::<
            Seq<char>,
        >::empty(),
{
    let nothing = Map::<RecordKey, Seq<char>>::empty();
    assert(is_replay_len(nothing, date, pool_number, 0));
    lemma_replay_len_unique(nothing, date, pool_number, 0);
    assert(replayed(nothing, date, pool_number) =~= Seq::<Seq<char>>::empty());
}

/// The line that counts for a key is the last one written for it.
pub proof fn lemma_log_lookup(records: Seq<DistributionRecord>, key: RecordKey, k: int)
    requires
        0 <= k < records.len(),
        records[k].key() == key,
        forall|j: int| k < j < records.len() ==> (#[trigger] records[j]).key() != key,
    ensures
        log_map(records).contains_key(key),
        log_map(records)[key] == records[k].item_id@,
    decreases records.len(),
{
    if k < records.len() - 1 {
        let earlier = records.drop_last();
        assert(records.last().key() != key);
        assert forall|j: int| k < j < earlier.len() implies (#[trigger] earlier[j]).key()
            != key by {
            assert(earlier[j] == records[j]);
        }
        lemma_log_lookup(earlier, key, k);
    }
}

/// A key that no line was written for has no record.
pub proof fn lemma_log_absent(records: Seq<DistributionRecord>, key: RecordKey)
    requires
        forall|j: int| 0 <= j < records.len() ==> (#[trigger] records[j]).key() != key,
    ensures
        !log_map(records).contains_key(key),
    decreases records.len(),
{
    if records.len() > 0 {
        let earlier = records.drop_last();
        assert(records.last().key() != key);
        assert forall|j: int| 0 <= j < earlier.len() implies (#[trigger] earlier[j]).key()
            != key by {
            assert(earlier[j] == records[j]);
        }
        lemma_log_absent(earlier, key);
    }
}

/// A log has at most as many keys as lines.
pub proof fn lemma_log_size(records: Seq<DistributionRecord>)
    ensures
        log_map(records).dom().finite(),
        log_map(records).dom().len() <= records.len(),
    decreases records.len(),
{
    if records.len() > 0 {
        lemma_log_size(records.drop_last());
    }
}

/// The keys of the first `n` positions of a pool.
pub open spec fn prefix_keys(date: int, pool_number: int, n: int) -> Set<RecordKey>
    decreases n,
{
    if n <= 0 {
        Set::empty()
    } else {
        prefix_keys(date, pool_number, n - 1).insert((date, pool_number, n - 1))
    }
}

proof fn lemma_prefix_keys(date: int, pool_number: int, n: int)
    requires
        0 <= n,
    ensures
        prefix_keys(date, pool_number, n).finite(),
        prefix_keys(date, pool_number, n).len() == n,
        forall|key: RecordKey|
            prefix_keys(date, pool_number, n).contains(key) <==> key.0 == date && key.1
                == pool_number && 0 <= key.2 < n,
    decreases n,
{
    if n > 0 {
        lemma_prefix_keys(date, pool_number, n - 1);
    }
}

/// A pool has no more positions on record than the log has lines.
pub proof fn lemma_replay_bounded(
    records: Seq<DistributionRecord>,
    date: int,
    pool_number: int,
    n: int,
)
    requires
        0 <= n,
        present_upto(log_map(records), date, pool_number, n),
    ensures
        n <= records.len(),
{
    lemma_log_size(records);
    lemma_prefix_keys(date, pool_number, n);
    let keys = prefix_keys(date, pool_number, n);
    assert forall|key: RecordKey| keys.contains(key) implies log_map(records).dom().contains(
        key,
    ) by {
        assert(log_map(records).contains_key((date, pool_number, key.2)));
    }
    lemma_len_subset(keys, log_map(records).dom());
}

/// The store of the assignments of all days.
pub struct DistributionStore {
    pub records: Vec<DistributionRecord>,
}

impl View for DistributionStore {
    type V = Map<RecordKey, Seq<char>>;

    open spec fn view(&self) -> Map<RecordKey, Seq<char>> {
        log_map(self.records@)
    }
}

impl DistributionStore {
    /// A store without a record.
    pub fn new() -> (store: DistributionStore)
        ensures
            store@ == Map::<RecordKey, Seq<char>>::empty(),
    {
        DistributionStore { records: Vec::new() }
    }

    /// Records that `item_id` stands at `position` of pool `pool_number` of
    /// `date`. A record that the key had before is replaced.
    pub fn record(&mut self, date: u64, pool_number: u16, position: u64, item_id: String)
        ensures
            final(self)@ == old(self)@.insert(
                (date as int, pool_number as int, position as int),
                item_id@,
            ),
    {
        let ghost before = self.records@;
        self.records.push(DistributionRecord { date, pool_number, position, item_id });
        assert(self.records@.drop_last() =~= before);
    }

    /// The tribute on record for a key, if there is one.
    pub fn load(&self, date: u64, pool_number: u16, position: u64) -> (item_id: Option<String>)
        ensures
            item_id is Some <==> self@.contains_key(
                (date as int, pool_number as int, position as int),
            ),
            item_id is Some ==> item_id->0@ == self@[(
                date as int,
                pool_number as int,
                position as int,
            )],
    {
        let ghost key: RecordKey = (date as int, pool_number as int, position as int);
        let mut k: usize = self.records.len();
        while k > 0
            invariant
                0 <= k <= self.records.len(),
                key == (date as int, pool_number as int, position as int),
                forall|j: int|
                    k <= j < self.records.len() ==> (#[trigger] self.records@[j]).key() != key,
            decreases k,
        {
            k = k - 1;
            let line = &self.records[k];
            if line.date == date && line.pool_number == pool_number && line.position == position {
                proof {
                    lemma_log_lookup(self.records@, key, k as int);
                }
                return Some(line.item_id.clone());
            }
        }
        proof {
            lemma_log_absent(self.records@, key);
        }
        None
    }

    /// The members of pool `pool_number` of `date`, read from the records:
    /// the positions from zero up to the first that has no record.
    pub fn replay(&self, date: u64, pool_number: u16) -> (members: Vec<String>)
        ensures
            ids_view(members@) == replayed(self@, date as int, pool_number as int),
    {
        let mut members: Vec<String> = Vec::new();
        let mut position: usize = 0;
        loop
            invariant
                0 <= position <= self.records.len(),
                members.len() == position,
                present_upto(self@, date as int, pool_number as int, position as int),
                forall|j: int|
                    0 <= j < position ==> (#[trigger] members@[j])@ == self@[(
                        date as int,
                        pool_number as int,
                        j,
                    )],
            decreases self.records.len() - position,
        {
            match self.load(date, pool_number, position as u64) {
                None => {
                    proof {
                        lemma_replay_len_unique(
                            self@,
                            date as int,
                            pool_number as int,
                            position as int,
                        );
                        assert(ids_view(members@) =~= replayed(
                            self@,
                            date as int,
                            pool_number as int,
                        ));
                    }
                    return members;
                },
                Some(item_id) => {
                    proof {
                        assert(present_upto(
                            self@,
                            date as int,
                            pool_number as int,
                            position + 1,
                        ));
                        lemma_replay_bounded(
                            self.records@,
                            date as int,
                            pool_number as int,
                            position + 1,
                        );
                    }
                    members.push(item_id);
                    position = position + 1;
                },
            }
        }
    }

    /// Records the pools of `date`: the member at position `j` of the pool at
    /// `p` goes under the pool number `p + 1` and the position `j`.
    pub fn record_pools(&mut self, date: u64, pools: &Vec<Vec<String>>)
        requires
            pools.len() < 65536,
        ensures
            final(self)@ == with_pools(old(self)@, date as int, pools_view(pools@)),
    {
        let ghost before = self@;
        let ghost all = pools_view(pools@);
        let mut p: usize = 0;
        assert(self@ =~= with_pools(before, date as int, all.take(0)));
        while p < pools.len()
            invariant
                0 <= p <= pools.len(),
                pools.len() < 65536,
                all == pools_view(pools@),
                self@ == with_pools(before, date as int, all.take(p as int)),
            decreases pools.len() - p,
        {
            let pool = &pools[p];
            let ghost done = all.take(p as int);
            let ghost ids = ids_view(pool@);
            let mut j: usize = 0;
            assert(self@ =~= with_pools(before, date as int, done.push(ids.take(0))));
            while j < pool.len()
                invariant
                    0 <= j <= pool.len(),
                    0 <= p < pools.len(),
                    pools.len() < 65536,
                    done.len() == p,
                    ids == ids_view(pool@),
                    self@ == with_pools(before, date as int, done.push(ids.take(j as int))),
                decreases pool.len() - j,
            {
                let ghost so_far = self@;
                self.record(date, (p + 1) as u16, j as u64, pool[j].clone());
                proof {
                    let old_pools = done.push(ids.take(j as int));
                    let new_pools = done.push(ids.take(j + 1));
                    let key: RecordKey = (date as int, p + 1, j as int);
                    assert(new_pools[p as int] == ids.take(j + 1));
                    assert(old_pools[p as int] == ids.take(j as int));
                    assert forall|k: RecordKey|
                        in_pools(new_pools, date as int, k) <==> in_pools(
                            old_pools,
                            date as int,
                            k,
                        ) || k == key by {
                        if k.0 == date as int && 1 <= k.1 <= p {
                            assert(new_pools[k.1 - 1] == old_pools[k.1 - 1]);
                        }
                    }
                    assert forall|k: RecordKey|
                        in_pools(old_pools, date as int, k) implies new_pools[k.1 - 1][k.2]
                        == old_pools[k.1 - 1][k.2] by {
                        if k.1 <= p {
                            assert(new_pools[k.1 - 1] == old_pools[k.1 - 1]);
                        }
                    }
                    assert(new_pools[p as int][j as int] == pool@[j as int]@);
                    assert(self@ =~= with_pools(before, date as int, new_pools));
                }
                j = j + 1;
            }
            proof {
                assert(ids.take(pool.len() as int) =~= ids);
                assert(done.push(ids) =~= all.take(p + 1));
            }
            p = p + 1;
        }
        assert(all.take(pools.len() as int) =~= all);
    }

    /// Removes every record.
    pub fn clear_all(&mut self)
        ensures
            final(self)@ == Map::<RecordKey, Seq<char>>::empty(),
    {
        self.records = Vec::new();
    }
}

} // verus!
