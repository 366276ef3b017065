use desktop::event_sourcing::Transaction;

#[test]
fn transactions_keep_their_order() {
    let mut t: Transaction<u32> = Transaction::none();
    assert!(t.is_none());
    t.push(1);
    t.append(Transaction::from(vec![2, 3]));
    let t = t.then(Transaction::single(4));
    assert!(!t.is_none());
    assert_eq!(t.into_vec(), vec![1, 2, 3, 4]);
}

#[test]
fn map_transforms_each_command_in_order() {
    let t = Transaction::from(vec![1u32, 2, 3]);
    let mapped = t.map(|c| c * 10);
    assert_eq!(mapped.into_vec(), vec![10, 20, 30]);
    let empty: Transaction<u32> = Transaction::none();
    assert!(empty.map(|c| c + 1).is_none());
}
