use essential_apps::counter::App;
use essential_apps::error::Error;
use essential_apps::types::{ContentAddress, PredicateAddress};

fn test_address() -> PredicateAddress {
    PredicateAddress {
        contract: ContentAddress([3u8; 32]),
        predicate: ContentAddress([4u8; 32]),
    }
}

#[test]
fn read_uninitialized_counter_is_zero() {
    let app = App::new(test_address());
    assert_eq!(app.decode_counter_value(&vec![]), Ok(0));
}

#[test]
fn read_single_word_counter() {
    let app = App::new(test_address());
    assert_eq!(app.decode_counter_value(&vec![41]), Ok(41));
}

#[test]
fn read_counter_fails_on_extra_words() {
    let app = App::new(test_address());
    assert_eq!(
        app.decode_counter_value(&vec![1, 2]),
        Err(Error::UnexpectedStateWords)
    );
    assert_eq!(
        app.decode_counter_value(&vec![0, 0, 0]),
        Err(Error::UnexpectedStateWords)
    );
}

#[test]
fn next_counter_value_adds_one() {
    let app = App::new(test_address());
    assert_eq!(app.next_counter_value(0), 1);
    assert_eq!(app.next_counter_value(41), 42);
}

#[test]
fn counter_key_is_first_storage_slot() {
    let app = App::new(test_address());
    assert_eq!(app.counter_key(), vec![0]);
}

#[test]
fn increment_solution_shape() {
    let addr = test_address();
    let app = App::new(addr);
    let s = app.increment_solution(7);
    assert_eq!(s.data.len(), 1);
    assert_eq!(s.data[0].predicate_to_solve, addr);
    assert_eq!(s.data[0].decision_variables.len(), 0);
    assert_eq!(s.data[0].state_mutations.len(), 1);
    assert_eq!(s.data[0].state_mutations[0].key, vec![0]);
    assert_eq!(s.data[0].state_mutations[0].value, vec![7]);
}

#[test]
fn sequence_of_increments_counts_up() {
    // Each round decodes the cell the previous round wrote, adds one, and
    // builds the solution whose mutation writes the new value back.
    let app = App::new(test_address());
    let mut cell: Vec<i64> = vec![];
    for round in 1..=5i64 {
        let current = app.decode_counter_value(&cell).unwrap();
        let next = app.next_counter_value(current);
        let s = app.increment_solution(next);
        cell = s.data[0].state_mutations[0].value.clone();
        assert_eq!(app.decode_counter_value(&cell), Ok(round));
    }
}
