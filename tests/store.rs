use reminder_store::store::{Guard, LoadError, Reading};

fn open_ok(reading: Reading<Vec<u64>>) -> Guard<Vec<u64>> {
    match Guard::open(reading) {
        Ok(g) => g,
        Err(e) => panic!("load failed: {:?}", e),
    }
}

#[test]
fn saved_value_loads_back_equal() {
    let mut g = open_ok(Reading::Absent);
    let old = g.replace(vec![3, 1, 4]);
    assert!(old.is_empty());
    let disk = g.release();
    assert_eq!(disk, Some(vec![3, 1, 4]));
    let g2 = open_ok(Reading::Decoded(disk.unwrap()));
    assert_eq!(g2.value(), &vec![3, 1, 4]);
}

#[test]
fn absent_file_loads_empty_value() {
    let g = open_ok(Reading::Absent);
    assert!(g.value().is_empty());
}

#[test]
fn absent_file_stays_absent_after_take() {
    let mut g = open_ok(Reading::Absent);
    let v = g.take();
    assert!(v.is_empty());
    assert_eq!(g.release(), None);
}

#[test]
fn take_hands_out_value_and_suppresses_write() {
    let mut g = open_ok(Reading::Decoded(vec![7, 8]));
    let v = g.take();
    assert_eq!(v, vec![7, 8]);
    assert!(g.value().is_empty());
    assert_eq!(g.release(), None);
}

#[test]
fn plain_release_writes_value_back() {
    let g = open_ok(Reading::Decoded(vec![5]));
    assert_eq!(g.release(), Some(vec![5]));
}

#[test]
fn malformed_file_fails_to_load() {
    let r = Guard::<Vec<u64>>::open(Reading::Malformed);
    assert!(matches!(r, Err(LoadError::Malformed)));
}

#[test]
fn unreadable_file_fails_with_io_failure() {
    let r = Guard::<Vec<u64>>::open(Reading::Unreadable);
    assert!(matches!(r, Err(LoadError::IoFailure)));
}

#[test]
fn replace_keeps_write_back_after_take() {
    let mut g = open_ok(Reading::Decoded(vec![1]));
    let _ = g.take();
    let _ = g.replace(vec![2]);
    assert_eq!(g.release(), None);
}
