use core::time::Duration;
use unit_creator::creator::{Config, Creator};
use unit_creator::nodes::{NodeCount, NodeIndex};
use unit_creator::units::serialize_identity;

fn fnv_creator(bytes: &[u8]) -> u64 {
    let mut hash: u64 = 0xcbf2_9ce4_8422_2325;
    for byte in bytes {
        hash ^= *byte as u64;
        hash = hash.wrapping_mul(0x0000_0100_0000_01b3);
    }
    hash
}

fn config(node_ix: usize, n_members: usize) -> Config {
    Config {
        node_ix: NodeIndex(node_ix),
        n_members: NodeCount(n_members),
        create_lag: Duration::from_millis(50),
    }
}

fn tables<F: Fn(&[u8]) -> u64>(creator: &Creator<u64, F>) -> Vec<Vec<Option<u64>>> {
    (0..creator.n_rounds())
        .map(|round| creator.candidates(round).unwrap().as_slice().to_vec())
        .collect()
}

fn counts<F: Fn(&[u8]) -> u64>(creator: &Creator<u64, F>) -> Vec<usize> {
    (0..creator.n_rounds()).map(|round| creator.n_candidates(round).unwrap().0).collect()
}

#[test]
fn new_creator_is_in_round_zero_with_one_empty_table() {
    let creator = Creator::new(config(2, 4), fnv_creator);
    assert_eq!(creator.node_ix(), NodeIndex(2));
    assert_eq!(creator.n_members(), NodeCount(4));
    assert_eq!(creator.create_lag(), Duration::from_millis(50));
    assert_eq!(creator.current_round(), 0);
    assert_eq!(creator.n_rounds(), 1);
    assert_eq!(tables(&creator), vec![vec![None; 4]]);
    assert_eq!(counts(&creator), vec![0]);
    assert!(creator.candidates(1).is_none());
    assert!(creator.n_candidates(1).is_none());
}

#[test]
fn round_zero_is_always_ready() {
    for n_members in 1..8 {
        let creator = Creator::new(config(0, n_members), fnv_creator);
        assert!(creator.check_ready());
    }
}

#[test]
fn first_unit_has_round_zero_and_no_parent() {
    for n_members in 1..8 {
        let mut creator = Creator::new(config(n_members - 1, n_members), fnv_creator);
        let unit = creator.create_unit();
        assert_eq!(unit.round(), 0);
        assert_eq!(unit.creator(), NodeIndex(n_members - 1));
        assert_eq!(unit.parents().as_slice(), vec![None; n_members].as_slice());
        assert_eq!(
            unit.hash(),
            fnv_creator(&serialize_identity(NodeIndex(n_members - 1), 0, unit.parents()))
        );
        assert_eq!(creator.current_round(), 1);
        assert_eq!(creator.n_rounds(), 2);
    }
}

#[test]
fn init_round_adds_every_missing_table() {
    let mut creator = Creator::new(config(0, 3), fnv_creator);
    creator.init_round(3);
    assert_eq!(creator.n_rounds(), 4);
    assert_eq!(tables(&creator), vec![vec![None; 3]; 4]);
    assert_eq!(counts(&creator), vec![0; 4]);
    assert_eq!(creator.current_round(), 0);
}

#[test]
fn init_round_of_a_known_round_changes_nothing() {
    let mut creator = Creator::new(config(0, 3), fnv_creator);
    creator.add_unit(2, NodeIndex(1), 7);
    let before = (tables(&creator), counts(&creator));
    creator.init_round(1);
    creator.init_round(2);
    creator.init_round(0);
    assert_eq!((tables(&creator), counts(&creator)), before);
}

#[test]
fn add_unit_fills_the_slot_and_counts_it() {
    let mut creator = Creator::new(config(0, 4), fnv_creator);
    creator.add_unit(0, NodeIndex(3), 33);
    assert_eq!(tables(&creator), vec![vec![None, None, None, Some(33)]]);
    assert_eq!(counts(&creator), vec![1]);
    creator.add_unit(0, NodeIndex(1), 11);
    assert_eq!(tables(&creator), vec![vec![None, Some(11), None, Some(33)]]);
    assert_eq!(counts(&creator), vec![2]);
}

#[test]
fn add_unit_of_a_far_round_extends_the_tables() {
    let mut creator = Creator::new(config(0, 2), fnv_creator);
    creator.add_unit(3, NodeIndex(1), 9);
    assert_eq!(creator.n_rounds(), 4);
    assert_eq!(
        tables(&creator),
        vec![vec![None, None], vec![None, None], vec![None, None], vec![None, Some(9)]]
    );
    assert_eq!(counts(&creator), vec![0, 0, 0, 1]);
}

#[test]
fn same_unit_twice_is_as_once() {
    let mut once = Creator::new(config(0, 4), fnv_creator);
    once.add_unit(1, NodeIndex(2), 42);
    let mut twice = Creator::new(config(0, 4), fnv_creator);
    twice.add_unit(1, NodeIndex(2), 42);
    twice.add_unit(1, NodeIndex(2), 42);
    assert_eq!(tables(&twice), tables(&once));
    assert_eq!(counts(&twice), counts(&once));
    assert_eq!(counts(&twice), vec![0, 1]);
}

#[test]
fn first_of_two_hashes_stays() {
    let mut creator = Creator::new(config(0, 4), fnv_creator);
    creator.add_unit(0, NodeIndex(2), 1);
    creator.add_unit(0, NodeIndex(2), 2);
    assert_eq!(creator.candidates(0).unwrap().get(NodeIndex(2)), &Some(1));
    assert_eq!(counts(&creator), vec![1]);
}

#[test]
fn stale_unit_changes_nothing() {
    let mut creator = Creator::new(config(0, 1), fnv_creator);
    for round in 0..3 {
        creator.add_unit(round, NodeIndex(0), 100 + round as u64);
        assert!(creator.check_ready());
        creator.create_unit();
    }
    assert_eq!(creator.current_round(), 3);
    let before = (tables(&creator), counts(&creator));
    // round 0: 0 + 1 < 3, stale, even with an index outside the population
    creator.add_unit(0, NodeIndex(0), 999);
    creator.add_unit(0, NodeIndex(17), 999);
    assert_eq!((tables(&creator), counts(&creator)), before);
    // round 1: 1 + 1 < 3, stale
    creator.add_unit(1, NodeIndex(0), 999);
    assert_eq!((tables(&creator), counts(&creator)), before);
}

#[test]
fn unit_of_the_round_before_the_current_one_is_not_stale() {
    let mut creator = Creator::new(config(0, 2), fnv_creator);
    creator.create_unit();
    creator.add_unit(0, NodeIndex(0), 1);
    creator.add_unit(0, NodeIndex(1), 2);
    creator.create_unit();
    assert_eq!(creator.current_round(), 2);
    creator.init_round(1);
    // round 1: 1 + 1 == 2, still of interest
    creator.add_unit(1, NodeIndex(1), 5);
    assert_eq!(creator.candidates(1).unwrap().as_slice(), &[None, Some(5)]);
    // round 0: 0 + 1 < 2, stale
    let before = tables(&creator);
    creator.add_unit(0, NodeIndex(1), 6);
    assert_eq!(tables(&creator), before);
}

#[test]
fn stale_unit_stays_stale_in_later_rounds() {
    let mut creator = Creator::new(config(0, 1), fnv_creator);
    for round in 0..5 {
        creator.add_unit(round, NodeIndex(0), round as u64);
        creator.create_unit();
        let before = (tables(&creator), counts(&creator));
        if round >= 1 {
            creator.add_unit(0, NodeIndex(0), 77);
            assert_eq!((tables(&creator), counts(&creator)), before);
        }
    }
}

#[test]
fn ready_needs_more_than_the_threshold() {
    let mut creator = Creator::new(config(0, 4), fnv_creator);
    creator.create_unit();
    assert!(!creator.check_ready());
    creator.add_unit(0, NodeIndex(0), 10);
    assert!(!creator.check_ready());
    creator.add_unit(0, NodeIndex(1), 11);
    // two of four is the threshold itself
    assert!(!creator.check_ready());
    creator.add_unit(0, NodeIndex(2), 12);
    assert!(creator.check_ready());
}

#[test]
fn ready_needs_the_own_unit() {
    let mut creator = Creator::new(config(0, 4), fnv_creator);
    creator.create_unit();
    creator.add_unit(0, NodeIndex(1), 11);
    creator.add_unit(0, NodeIndex(2), 12);
    creator.add_unit(0, NodeIndex(3), 13);
    assert_eq!(counts(&creator), vec![3, 0]);
    assert!(!creator.check_ready());
    creator.add_unit(0, NodeIndex(0), 10);
    assert!(creator.check_ready());
}

#[test]
fn ready_looks_at_the_round_before_only() {
    let mut creator = Creator::new(config(0, 4), fnv_creator);
    creator.create_unit();
    for pid in 0..4 {
        creator.add_unit(1, NodeIndex(pid), pid as u64);
    }
    assert!(!creator.check_ready());
}

#[test]
fn single_node_is_its_own_quorum() {
    let mut creator = Creator::new(config(0, 1), fnv_creator);
    let first = creator.create_unit();
    assert!(!creator.check_ready());
    creator.add_unit(0, NodeIndex(0), first.hash());
    assert!(creator.check_ready());
    let second = creator.create_unit();
    assert_eq!(second.round(), 1);
    assert_eq!(second.parents().as_slice(), &[Some(first.hash())]);
}

#[test]
fn unit_takes_the_table_of_the_round_before_as_it_stands() {
    let mut creator = Creator::new(config(1, 4), fnv_creator);
    creator.create_unit();
    creator.add_unit(0, NodeIndex(1), 21);
    creator.add_unit(0, NodeIndex(3), 23);
    creator.add_unit(0, NodeIndex(0), 20);
    let unit = creator.create_unit();
    assert_eq!(unit.round(), 1);
    assert_eq!(unit.creator(), NodeIndex(1));
    assert_eq!(unit.parents().as_slice(), &[Some(20), Some(21), None, Some(23)]);
    assert_eq!(unit.hash(), fnv_creator(&serialize_identity(NodeIndex(1), 1, unit.parents())));
    // a parent that comes later does not reach the unit: it is stale by then
    creator.add_unit(0, NodeIndex(2), 22);
    assert_eq!(unit.parents().as_slice(), &[Some(20), Some(21), None, Some(23)]);
    assert_eq!(creator.candidates(0).unwrap().as_slice(), &[Some(20), Some(21), None, Some(23)]);
}

#[test]
fn unit_is_a_copy_of_the_table() {
    let mut creator = Creator::new(config(0, 3), fnv_creator);
    creator.create_unit();
    creator.add_unit(1, NodeIndex(0), 40);
    creator.add_unit(0, NodeIndex(0), 30);
    creator.add_unit(0, NodeIndex(1), 31);
    creator.add_unit(0, NodeIndex(2), 32);
    let second = creator.create_unit();
    // round one is the round before the current one: its table can still grow,
    // and the unit that is made of it later sees what was added
    creator.add_unit(1, NodeIndex(2), 42);
    creator.add_unit(1, NodeIndex(1), 41);
    let third = creator.create_unit();
    assert_eq!(second.parents().as_slice(), &[Some(30), Some(31), Some(32)]);
    assert_eq!(third.parents().as_slice(), &[Some(40), Some(41), Some(42)]);
    assert_eq!(creator.candidates(1).unwrap(), third.parents());
}

#[test]
fn create_unit_moves_one_round_and_prepares_its_table() {
    let mut creator = Creator::new(config(0, 3), fnv_creator);
    for round in 0..4 {
        assert_eq!(creator.current_round(), round);
        let unit = creator.create_unit();
        assert_eq!(unit.round(), round);
        assert_eq!(creator.current_round(), round + 1);
        assert_eq!(creator.n_rounds(), round + 2);
        assert_eq!(creator.n_candidates(round + 1), Some(NodeCount(0)));
    }
}

#[test]
fn current_round_is_the_number_of_created_units() {
    let mut creator = Creator::new(config(0, 2), fnv_creator);
    let mut created = 0;
    for step in 0..20usize {
        match step % 4 {
            0 => creator.add_unit(step / 3, NodeIndex(step % 2), step as u64),
            1 => {
                creator.check_ready();
            }
            2 => creator.add_unit(step, NodeIndex(1), 1),
            _ => {
                creator.create_unit();
                created += 1;
            }
        }
        assert_eq!(creator.current_round(), created);
    }
    assert_eq!(created, 5);
}

#[test]
fn stale_is_more_than_one_round_below_the_current_one() {
    let mut creator = Creator::new(config(0, 2), fnv_creator);
    assert!(!creator.is_stale(0));
    assert!(!creator.is_stale(usize::MAX));
    creator.create_unit();
    assert!(!creator.is_stale(0));
    creator.create_unit();
    assert!(creator.is_stale(0));
    assert!(!creator.is_stale(1));
    creator.create_unit();
    assert!(creator.is_stale(0));
    assert!(creator.is_stale(1));
    assert!(!creator.is_stale(2));
    assert!(!creator.is_stale(3));
    assert!(!creator.is_stale(usize::MAX));
}
