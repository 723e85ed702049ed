use coin_bank::collection::ReserveCollection;
use coin_bank::denomination::get_coin_index;
use coin_bank::denomination::index_of_lowercase_name;
use coin_bank::denomination::Denomination;
use coin_bank::denomination::{DIMES_INDEX, NICKELS_INDEX, PENNIES_INDEX, QUARTERS_INDEX};
use coin_bank::error::APIError;
use coin_bank::reserve::Direction;
use coin_bank::reserve::Reserve;
use coin_bank::store::apply_with_access;
use coin_bank::store::ReserveStore;

fn counts(r: &Reserve) -> (Denomination, u8, u8) {
    (r.denomination(), r.current_count(), r.max_count())
}

fn all_counts(c: &ReserveCollection) -> Vec<(Denomination, u8, u8)> {
    c.reserves().iter().map(counts).collect()
}

fn seed_counts() -> Vec<(Denomination, u8, u8)> {
    vec![
        (Denomination::Quarter, 4, 20),
        (Denomination::Dime, 8, 50),
        (Denomination::Nickel, 0, 15),
        (Denomination::Penny, 0, 50),
    ]
}

#[test]
fn seed_collection_holds_the_starting_reserves() {
    let c = ReserveCollection::seed();
    assert_eq!(all_counts(&c), seed_counts());
    assert_eq!(counts(&c.reserve(Denomination::Dime)), (Denomination::Dime, 8, 50));
}

#[test]
fn store_snapshot_before_any_transaction_is_the_seed() {
    let store = ReserveStore::new();
    let snapshot = store.snapshot().unwrap();
    assert_eq!(all_counts(&snapshot), seed_counts());
    assert_eq!(snapshot, ReserveCollection::seed());
}

#[test]
fn listed_names_and_values() {
    assert_eq!(Denomination::Quarter.name(), "Quarters");
    assert_eq!(Denomination::Dime.name(), "Dimes");
    assert_eq!(Denomination::Nickel.name(), "Nickels");
    assert_eq!(Denomination::Penny.name(), "Pennies");
    assert_eq!(Denomination::Quarter.value_in_minor_units(), 25);
    assert_eq!(Denomination::Dime.value_in_minor_units(), 10);
    assert_eq!(Denomination::Nickel.value_in_minor_units(), 5);
    assert_eq!(Denomination::Penny.value_in_minor_units(), 1);
}

#[test]
fn positions_and_denominations_correspond() {
    let all = [
        Denomination::Quarter,
        Denomination::Dime,
        Denomination::Nickel,
        Denomination::Penny,
    ];
    for (i, d) in all.iter().enumerate() {
        assert_eq!(d.index(), i);
        assert_eq!(Denomination::from_index(i), Some(*d));
    }
    assert_eq!(Denomination::from_index(4), None);
    assert_eq!(Denomination::from_index(usize::MAX), None);
}

#[test]
fn coin_index_of_each_accepted_name() {
    assert_eq!(get_coin_index(String::from("quarter")), Some(QUARTERS_INDEX));
    assert_eq!(get_coin_index(String::from("dime")), Some(DIMES_INDEX));
    assert_eq!(get_coin_index(String::from("nickel")), Some(NICKELS_INDEX));
    assert_eq!(get_coin_index(String::from("penny")), Some(PENNIES_INDEX));
    assert_eq!((QUARTERS_INDEX, DIMES_INDEX, NICKELS_INDEX, PENNIES_INDEX), (0, 1, 2, 3));
}

#[test]
fn coin_index_ignores_case() {
    assert_eq!(get_coin_index(String::from("QUARTER")), Some(0));
    assert_eq!(get_coin_index(String::from("Dime")), Some(1));
    assert_eq!(get_coin_index(String::from("nIcKeL")), Some(2));
    assert_eq!(get_coin_index(String::from("PENNY")), Some(3));
}

#[test]
fn coin_index_lowercases_beyond_ascii() {
    assert_eq!(get_coin_index(String::from("nic\u{212A}el")), Some(2));
}

#[test]
fn coin_index_rejects_other_names() {
    assert_eq!(get_coin_index(String::from("loonie")), None);
    assert_eq!(get_coin_index(String::from("")), None);
    assert_eq!(get_coin_index(String::from("quarters")), None);
    assert_eq!(get_coin_index(String::from("Quarters")), None);
    assert_eq!(get_coin_index(String::from(" dime")), None);
    assert_eq!(get_coin_index(String::from("pennies")), None);
}

#[test]
fn lowercase_match_is_exact() {
    assert_eq!(index_of_lowercase_name(&String::from("nickel")), Some(2));
    assert_eq!(index_of_lowercase_name(&String::from("NICKEL")), None);
    assert_eq!(index_of_lowercase_name(&String::from("Quarter")), None);
    assert_eq!(index_of_lowercase_name(&String::from("penny")), Some(3));
}

#[test]
fn resolve_gives_the_denomination() {
    assert_eq!(Denomination::resolve(String::from("Penny")), Some(Denomination::Penny));
    assert_eq!(Denomination::resolve(String::from("DIME")), Some(Denomination::Dime));
    assert_eq!(Denomination::resolve(String::from("toonie")), None);
}

#[test]
fn new_reserve_needs_current_within_max() {
    let r = Reserve::new(Denomination::Dime, 3, 3).unwrap();
    assert_eq!(counts(&r), (Denomination::Dime, 3, 3));
    assert_eq!(Reserve::new(Denomination::Dime, 4, 3), None);
    assert!(Reserve::new(Denomination::Penny, 0, 0).is_some());
    assert!(Reserve::new(Denomination::Penny, 255, 255).is_some());
}

#[test]
fn reserve_add_is_exact_below_capacity_and_clamped_above() {
    let mut r = Reserve::new(Denomination::Quarter, 4, 20).unwrap();
    r.add_coins(5);
    assert_eq!(r.current_count(), 9);
    r.add_coins(11);
    assert_eq!(r.current_count(), 20);
    r.add_coins(1);
    assert_eq!(r.current_count(), 20);
    assert_eq!(r.max_count(), 20);
}

#[test]
fn reserve_add_does_not_wrap_around() {
    let mut r = Reserve::new(Denomination::Quarter, 4, 20).unwrap();
    r.add_coins(255);
    assert_eq!(r.current_count(), 20);
    let mut full = Reserve::new(Denomination::Penny, 200, 255).unwrap();
    full.add_coins(100);
    assert_eq!(full.current_count(), 255);
}

#[test]
fn reserve_subtract_is_exact_above_zero_and_floored_below() {
    let mut r = Reserve::new(Denomination::Dime, 8, 50).unwrap();
    r.subtract_coins(3);
    assert_eq!(r.current_count(), 5);
    r.subtract_coins(5);
    assert_eq!(r.current_count(), 0);
    r.subtract_coins(200);
    assert_eq!(r.current_count(), 0);
    assert_eq!(r.max_count(), 50);
}

#[test]
fn reserve_apply_follows_the_direction() {
    let mut r = Reserve::new(Denomination::Dime, 8, 50).unwrap();
    r.apply(2, Direction::Add);
    assert_eq!(r.current_count(), 10);
    r.apply(7, Direction::Subtract);
    assert_eq!(r.current_count(), 3);
}

#[test]
fn zero_count_is_a_no_op() {
    let names = ["quarter", "dime", "nickel", "penny"];
    for name in names {
        let mut c = ReserveCollection::seed();
        let before = c.reserve(Denomination::resolve(name.to_string()).unwrap());
        assert_eq!(c.add_coins(name.to_string(), 0), Ok(before));
        assert_eq!(c, ReserveCollection::seed());
        assert_eq!(c.subtract_coins(name.to_string(), 0), Ok(before));
        assert_eq!(c, ReserveCollection::seed());
    }
    let store = ReserveStore::new();
    let dimes = store.add_coins(String::from("dime"), 0).unwrap();
    assert_eq!(counts(&dimes), (Denomination::Dime, 8, 50));
    let dimes = store.subtract_coins(String::from("dime"), 0).unwrap();
    assert_eq!(counts(&dimes), (Denomination::Dime, 8, 50));
    assert_eq!(store.snapshot().unwrap(), ReserveCollection::seed());
}

#[test]
fn adding_past_the_capacity_clamps() {
    let store = ReserveStore::new();
    let r = store.add_coins(String::from("quarter"), 100).unwrap();
    assert_eq!(counts(&r), (Denomination::Quarter, 20, 20));
    let mut c = ReserveCollection::seed();
    let r = c.add_coins(String::from("quarter"), 100).unwrap();
    assert_eq!(counts(&r), (Denomination::Quarter, 20, 20));
    assert_eq!(counts(&c.reserve(Denomination::Quarter)), (Denomination::Quarter, 20, 20));
}

#[test]
fn subtracting_past_zero_floors() {
    let store = ReserveStore::new();
    let r = store.subtract_coins(String::from("nickel"), 5).unwrap();
    assert_eq!(counts(&r), (Denomination::Nickel, 0, 15));
    let mut c = ReserveCollection::seed();
    let r = c.subtract_coins(String::from("nickel"), 5).unwrap();
    assert_eq!(counts(&r), (Denomination::Nickel, 0, 15));
    assert_eq!(c, ReserveCollection::seed());
}

#[test]
fn subtracting_exactly_what_is_held_empties_the_reserve() {
    let mut c = ReserveCollection::seed();
    let r = c.subtract_coins(String::from("dime"), 8).unwrap();
    assert_eq!(r.current_count(), 0);
    let mut c = ReserveCollection::seed();
    let r = c.subtract_coins(String::from("dime"), 7).unwrap();
    assert_eq!(r.current_count(), 1);
}

#[test]
fn unknown_name_is_refused_and_changes_nothing() {
    let store = ReserveStore::new();
    assert_eq!(
        store.add_coins(String::from("loonie"), 1),
        Err(APIError::IllegalDenominationName)
    );
    assert_eq!(
        store.subtract_coins(String::from("loonie"), 1),
        Err(APIError::IllegalDenominationName)
    );
    assert_eq!(all_counts(&store.snapshot().unwrap()), seed_counts());
    let mut c = ReserveCollection::seed();
    assert_eq!(c.add_coins(String::from("loonie"), 1), Err(APIError::IllegalDenominationName));
    assert_eq!(
        c.transact(String::from("loonie"), 1, Direction::Subtract),
        Err(APIError::IllegalDenominationName)
    );
    assert_eq!(c, ReserveCollection::seed());
}

#[test]
fn upper_and_lower_case_names_reach_the_same_reserve() {
    let store = ReserveStore::new();
    let first = store.add_coins(String::from("QUARTER"), 1).unwrap();
    assert_eq!(counts(&first), (Denomination::Quarter, 5, 20));
    let second = store.add_coins(String::from("quarter"), 1).unwrap();
    assert_eq!(counts(&second), (Denomination::Quarter, 6, 20));
    assert_eq!(
        all_counts(&store.snapshot().unwrap()),
        vec![
            (Denomination::Quarter, 6, 20),
            (Denomination::Dime, 8, 50),
            (Denomination::Nickel, 0, 15),
            (Denomination::Penny, 0, 50),
        ]
    );
}

#[test]
fn a_transaction_changes_only_its_own_reserve() {
    let mut c = ReserveCollection::seed();
    let r = c.apply(Denomination::Penny, 7, Direction::Add);
    assert_eq!(counts(&r), (Denomination::Penny, 7, 50));
    assert_eq!(
        all_counts(&c),
        vec![
            (Denomination::Quarter, 4, 20),
            (Denomination::Dime, 8, 50),
            (Denomination::Nickel, 0, 15),
            (Denomination::Penny, 7, 50),
        ]
    );
}

#[test]
fn single_dimes_accumulate_without_loss() {
    let store = ReserveStore::new();
    for n in 1..=42u8 {
        let r = store.add_coins(String::from("dime"), 1).unwrap();
        assert_eq!(r.current_count(), 8 + n);
    }
    assert_eq!(store.snapshot().unwrap().reserve(Denomination::Dime).current_count(), 50);
    for _ in 0..10 {
        let r = store.add_coins(String::from("dime"), 1).unwrap();
        assert_eq!(r.current_count(), 50);
    }
}

#[test]
fn counts_stay_within_capacity_under_any_sequence() {
    let store = ReserveStore::new();
    let names = ["quarter", "dime", "nickel", "penny"];
    let mut step: u32 = 7;
    for round in 0..400u32 {
        step = step.wrapping_mul(1_103_515_245).wrapping_add(12_345);
        let name = names[(step >> 16) as usize % 4];
        let count = (step >> 8) as u8;
        let r = if round % 3 == 0 {
            store.subtract_coins(name.to_string(), count).unwrap()
        } else {
            store.add_coins(name.to_string(), count).unwrap()
        };
        assert!(r.current_count() <= r.max_count());
        for reserve in store.snapshot().unwrap().reserves() {
            assert!(reserve.current_count() <= reserve.max_count());
        }
    }
    let maxima: Vec<u8> =
        store.snapshot().unwrap().reserves().iter().map(|r| r.max_count()).collect();
    assert_eq!(maxima, vec![20, 50, 15, 50]);
}

#[test]
fn store_starts_from_given_reserves() {
    let mut c = ReserveCollection::seed();
    c.apply(Denomination::Nickel, 9, Direction::Add);
    let store = ReserveStore::with_reserves(c);
    assert_eq!(store.snapshot().unwrap(), c);
    let r = store.with_exclusive_access(Denomination::Nickel, 4, Direction::Subtract).unwrap();
    assert_eq!(counts(&r), (Denomination::Nickel, 5, 15));
}

#[test]
fn no_access_means_state_unavailable() {
    assert_eq!(
        apply_with_access(None, Denomination::Dime, 1, Direction::Add),
        Err(APIError::StateUnavailable)
    );
    let mut c = ReserveCollection::seed();
    let r = apply_with_access(Some(&mut c), Denomination::Dime, 1, Direction::Add).unwrap();
    assert_eq!(counts(&r), (Denomination::Dime, 9, 50));
    assert_eq!(c.reserve(Denomination::Dime).current_count(), 9);
}

#[test]
fn errors_carry_status_and_message() {
    assert_eq!(APIError::IllegalDenominationName.status_code(), 406);
    assert_eq!(APIError::StateUnavailable.status_code(), 423);
    assert_eq!(
        APIError::IllegalDenominationName.message("loonie"),
        "denomination name loonie is not acceptable.  Acceptable values are 'quarter', 'dime', 'nickel' and 'penny'"
    );
    assert_eq!(APIError::StateUnavailable.message("loonie"), "Application state data is locked");
}
