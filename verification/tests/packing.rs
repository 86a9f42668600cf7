use raffle::counter::RunCounter;
use raffle::distribution::DistributionStore;
use raffle::ids::{clone_ids, contains_id};
use raffle::packer::{fill_pool, pack};
use raffle::tribute::{FullTributeData, TributeData};

fn item(id: &str, load: u128) -> FullTributeData {
    FullTributeData {
        token_id: id.to_string(),
        owner: "owner".to_string(),
        data: TributeData {
            settlement_token: "usdc".to_string(),
            nominal_minor_qty: 1,
            symbolic_load: load,
        },
    }
}

fn ids(names: &[&str]) -> Vec<String> {
    names.iter().map(|name| name.to_string()).collect()
}

#[test]
fn one_item_goes_to_the_first_pool() {
    let packing = pack(&vec![item("t1", 100)], 1000);
    assert_eq!(packing.pools.len(), 24);
    assert_eq!(packing.utilization.len(), 24);
    assert_eq!(packing.pools[0], ids(&["t1"]));
    assert_eq!(packing.utilization[0], 100);
    for p in 1..24 {
        assert!(packing.pools[p].is_empty());
        assert_eq!(packing.utilization[p], 0);
    }
}

#[test]
fn packing_is_first_fit_in_the_order_given() {
    let items = vec![item("a", 60), item("b", 50), item("c", 40), item("d", 10), item("e", 100)];
    let packing = pack(&items, 100);
    assert_eq!(packing.pools[0], ids(&["a", "c"]));
    assert_eq!(packing.utilization[0], 100);
    assert_eq!(packing.pools[1], ids(&["b", "d"]));
    assert_eq!(packing.utilization[1], 60);
    assert_eq!(packing.pools[2], ids(&["e"]));
    assert_eq!(packing.utilization[2], 100);
    for p in 3..24 {
        assert!(packing.pools[p].is_empty());
    }
}

#[test]
fn a_full_pool_stops_scanning() {
    let items = vec![item("a", 100), item("zero", 0), item("b", 30)];
    let packing = pack(&items, 100);
    assert_eq!(packing.pools[0], ids(&["a"]));
    assert_eq!(packing.pools[1], ids(&["zero", "b"]));
    assert_eq!(packing.utilization[1], 30);
}

#[test]
fn oversized_items_are_left_out() {
    let items = vec![item("big", 101), item("fits", 100), item("huge", u128::MAX)];
    let packing = pack(&items, 100);
    assert_eq!(packing.pools[0], ids(&["fits"]));
    for p in 0..24 {
        assert!(!packing.pools[p].contains(&"big".to_string()));
        assert!(!packing.pools[p].contains(&"huge".to_string()));
    }
}

#[test]
fn no_capacity_no_members() {
    let items = vec![item("zero", 0), item("one", 1)];
    let packing = pack(&items, 0);
    for p in 0..24 {
        assert!(packing.pools[p].is_empty());
        assert_eq!(packing.utilization[p], 0);
    }
}

#[test]
fn no_items_no_members() {
    let packing = pack(&Vec::new(), 1000);
    assert_eq!(packing.pools.len(), 24);
    assert!(packing.pools.iter().all(|pool| pool.is_empty()));
}

#[test]
fn more_items_than_the_pools_hold_stay_out() {
    let mut items = Vec::new();
    for k in 0..30 {
        items.push(item(&format!("t{}", k), 10));
    }
    let packing = pack(&items, 10);
    for p in 0..24 {
        assert_eq!(packing.pools[p], vec![format!("t{}", p)]);
        assert_eq!(packing.utilization[p], 10);
    }
}

#[test]
fn pools_keep_within_capacity_and_share_no_item() {
    let mut items = Vec::new();
    for k in 0..200u128 {
        items.push(item(&format!("t{}", k), (k * 37) % 53));
    }
    let capacity: u128 = 90;
    let packing = pack(&items, capacity);
    let mut seen: Vec<String> = Vec::new();
    for p in 0..24 {
        let mut sum: u128 = 0;
        for id in &packing.pools[p] {
            assert!(!seen.contains(id));
            seen.push(id.clone());
            let found = items.iter().find(|t| &t.token_id == id).unwrap();
            assert!(found.data.symbolic_load <= capacity);
            sum += found.data.symbolic_load;
        }
        assert_eq!(sum, packing.utilization[p]);
        assert!(sum <= capacity);
    }
}

#[test]
fn an_identifier_is_raffled_once() {
    let items = vec![item("a", 10), item("a", 20), item("b", 95), item("a", 5)];
    let packing = pack(&items, 100);
    assert_eq!(packing.pools[0], ids(&["a"]));
    assert_eq!(packing.utilization[0], 10);
    assert_eq!(packing.pools[1], ids(&["b"]));
    assert!(packing.pools[2].is_empty());
}

#[test]
fn packing_is_reproducible() {
    let items = vec![item("a", 60), item("b", 50), item("c", 40), item("d", 10)];
    let first = pack(&items, 100);
    let second = pack(&items, 100);
    assert_eq!(first.pools, second.pools);
    assert_eq!(first.utilization, second.utilization);
}

#[test]
fn fill_pool_skips_what_is_distributed() {
    let items = vec![item("a", 10), item("b", 20), item("c", 30)];
    let mut distributed = ids(&["b"]);
    let (members, allocated) = fill_pool(&items, 100, &mut distributed);
    assert_eq!(members, ids(&["a", "c"]));
    assert_eq!(allocated, 40);
    assert_eq!(distributed, ids(&["b", "a", "c"]));
}

#[test]
fn identifiers_are_found_and_copied() {
    let list = ids(&["x", "y"]);
    assert!(contains_id(&list, &"y".to_string()));
    assert!(!contains_id(&list, &"z".to_string()));
    assert!(!contains_id(&Vec::new(), &"x".to_string()));
    assert_eq!(clone_ids(&list), list);
}

#[test]
fn runs_count_from_one_without_gaps() {
    let mut counter = RunCounter::new();
    assert_eq!(counter.current(86400), 0);
    for expected in 1..=30u16 {
        assert_eq!(counter.next_run(86400), expected);
        assert_eq!(counter.current(86400), expected);
    }
    assert_eq!(counter.current(172800), 0);
    assert_eq!(counter.next_run(172800), 1);
    assert_eq!(counter.next_run(86400), 31);
    counter.clear();
    assert_eq!(counter.current(86400), 0);
    assert_eq!(counter.next_run(86400), 1);
}

#[test]
fn counter_can_be_set() {
    let mut counter = RunCounter::new();
    counter.set(5, 7);
    assert_eq!(counter.current(5), 7);
    assert_eq!(counter.next_run(5), 8);
}

#[test]
fn replay_returns_the_recorded_pool() {
    let items = vec![item("a", 60), item("b", 50), item("c", 40), item("d", 10), item("e", 100)];
    let packing = pack(&items, 100);
    let mut store = DistributionStore::new();
    store.record_pools(86400, &packing.pools);
    for p in 0..24u16 {
        let replayed = store.replay(86400, p + 1);
        assert_eq!(replayed, packing.pools[p as usize]);
        assert_eq!(store.replay(86400, p + 1), replayed);
    }
    assert!(store.replay(86400, 0).is_empty());
    assert!(store.replay(86400, 25).is_empty());
    assert!(store.replay(172800, 1).is_empty());
}

#[test]
fn replay_stops_at_the_first_gap() {
    let mut store = DistributionStore::new();
    store.record(1, 1, 0, "a".to_string());
    store.record(1, 1, 1, "b".to_string());
    store.record(1, 1, 3, "d".to_string());
    assert_eq!(store.replay(1, 1), ids(&["a", "b"]));
    assert_eq!(store.load(1, 1, 3), Some("d".to_string()));
    assert_eq!(store.load(1, 1, 2), None);
    store.record(1, 1, 2, "c".to_string());
    assert_eq!(store.replay(1, 1), ids(&["a", "b", "c", "d"]));
}

#[test]
fn the_last_record_of_a_key_counts() {
    let mut store = DistributionStore::new();
    store.record(1, 2, 0, "old".to_string());
    store.record(1, 2, 0, "new".to_string());
    assert_eq!(store.load(1, 2, 0), Some("new".to_string()));
    assert_eq!(store.replay(1, 2), ids(&["new"]));
}

#[test]
fn days_and_pools_are_kept_apart() {
    let mut store = DistributionStore::new();
    store.record(1, 1, 0, "a".to_string());
    store.record(2, 1, 0, "b".to_string());
    store.record(1, 2, 0, "c".to_string());
    assert_eq!(store.replay(1, 1), ids(&["a"]));
    assert_eq!(store.replay(2, 1), ids(&["b"]));
    assert_eq!(store.replay(1, 2), ids(&["c"]));
    assert_eq!(store.load(2, 2, 0), None);
}

#[test]
fn clearing_empties_every_replay() {
    let mut store = DistributionStore::new();
    store.record_pools(86400, &vec![ids(&["a", "b"]), ids(&["c"])]);
    assert_eq!(store.replay(86400, 1), ids(&["a", "b"]));
    store.clear_all();
    assert!(store.replay(86400, 1).is_empty());
    assert!(store.replay(86400, 2).is_empty());
    assert_eq!(store.load(86400, 1, 0), None);
}
