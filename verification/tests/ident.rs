use std::collections::HashMap;

use agent_control::ident::fresh_id;

#[test]
fn free_seed_is_taken_as_it_is() {
    let taken: HashMap<u128, ()> = HashMap::new();
    assert_eq!(fresh_id(&taken, 42), 42);
}

#[test]
fn taken_seed_steps_to_the_next_free_number() {
    let mut taken: HashMap<u128, ()> = HashMap::new();
    taken.insert(7, ());
    taken.insert(8, ());
    taken.insert(10, ());
    assert_eq!(fresh_id(&taken, 7), 9);
    assert_eq!(fresh_id(&taken, 10), 11);
    assert_eq!(fresh_id(&taken, 6), 6);
}

#[test]
fn search_wraps_round_at_the_largest_number() {
    let mut taken: HashMap<u128, ()> = HashMap::new();
    taken.insert(u128::MAX, ());
    taken.insert(0, ());
    assert_eq!(fresh_id(&taken, u128::MAX), 1);
}
