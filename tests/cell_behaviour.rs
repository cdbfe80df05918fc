use always_cell::AlwaysCell;

#[test]
fn fresh_cell_is_empty() {
    let c: AlwaysCell<i32> = AlwaysCell::new();
    assert!(!AlwaysCell::is_set(&c));
    assert_eq!(AlwaysCell::get(&c), None);
}

#[test]
fn integer_cell_walkthrough() {
    let mut c: AlwaysCell<i32> = AlwaysCell::new();
    assert!(!AlwaysCell::is_set(&c));
    assert_eq!(AlwaysCell::get(&c), None);
    assert_eq!(AlwaysCell::try_set(&mut c, 42), Ok(()));
    assert!(AlwaysCell::is_set(&c));
    assert_eq!(AlwaysCell::get(&c), Some(&42));
    assert_eq!(*c, 42);
    assert_eq!(AlwaysCell::try_set(&mut c, 7), Err(7));
    assert_eq!(*c, 42);
    assert_eq!(*AlwaysCell::value(&c), 42);
}

#[test]
fn set_then_reads_return_value() {
    let mut c: AlwaysCell<String> = AlwaysCell::new();
    AlwaysCell::set(&mut c, String::from("config"));
    assert!(AlwaysCell::is_set(&c));
    assert_eq!(AlwaysCell::get(&c).map(|s| s.as_str()), Some("config"));
    assert_eq!(c.as_str(), "config");
    assert_eq!(AlwaysCell::value(&c).len(), 6);
    assert_eq!(AlwaysCell::get(&c).map(|s| s.as_str()), Some("config"));
}

#[test]
fn try_set_after_set_hands_value_back() {
    let mut c: AlwaysCell<String> = AlwaysCell::new();
    AlwaysCell::set(&mut c, String::from("first"));
    for word in ["second", "third", "first"] {
        let r = AlwaysCell::try_set(&mut c, String::from(word));
        assert_eq!(r, Err(String::from(word)));
        assert_eq!(&*c, "first");
        assert!(AlwaysCell::is_set(&c));
    }
}

#[test]
fn run_of_try_sets_has_one_winner() {
    let mut c: AlwaysCell<u64> = AlwaysCell::new();
    let values: Vec<u64> = vec![5, 9, 1, 5, 300];
    let mut wins: usize = 0;
    for (i, v) in values.iter().enumerate() {
        match AlwaysCell::try_set(&mut c, *v) {
            Ok(()) => {
                assert_eq!(i, 0);
                wins += 1;
            }
            Err(back) => assert_eq!(back, *v),
        }
    }
    assert_eq!(wins, 1);
    assert_eq!(AlwaysCell::get(&c), Some(&5));
}

#[test]
fn is_set_stays_true() {
    let mut c: AlwaysCell<u8> = AlwaysCell::new();
    AlwaysCell::set(&mut c, 0);
    for _ in 0..3 {
        assert!(AlwaysCell::is_set(&c));
        assert_eq!(AlwaysCell::get(&c), Some(&0));
    }
}

#[test]
fn try_set_on_empty_stores_given_value() {
    let mut c: AlwaysCell<Vec<u8>> = AlwaysCell::new();
    assert_eq!(AlwaysCell::try_set(&mut c, vec![1, 2, 3]), Ok(()));
    assert_eq!(AlwaysCell::get(&c), Some(&vec![1, 2, 3]));
    assert_eq!(c.len(), 3);
}

#[test]
fn largest_value_is_kept() {
    let mut c: AlwaysCell<u64> = AlwaysCell::new();
    AlwaysCell::set(&mut c, u64::MAX);
    assert_eq!(AlwaysCell::try_set(&mut c, 0), Err(0));
    assert_eq!(*c, u64::MAX);
}

#[test]
fn separate_cells_are_independent() {
    let mut a: AlwaysCell<i64> = AlwaysCell::new();
    let b: AlwaysCell<i64> = AlwaysCell::new();
    AlwaysCell::set(&mut a, -1);
    assert!(AlwaysCell::is_set(&a));
    assert!(!AlwaysCell::is_set(&b));
    assert_eq!(AlwaysCell::get(&b), None);
}
