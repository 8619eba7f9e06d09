use txstack::TxStack;

#[test]
fn test_push_pop() {
    let mut ts = TxStack::new();
    ts.push(0);
    ts.push(1);

    assert_eq!(ts.pop().unwrap(), 1);
    assert_eq!(ts.pop().unwrap(), 0);
}

#[test]
fn test_rollback() {
    let mut ts = TxStack::new();
    ts.push("foo");
    ts.push("bar");
    ts.begin();
    ts.push("baz");
    assert_eq!(ts.top().clone().pop().unwrap(), "baz");
    ts.rollback();
    assert_eq!(ts.pop().unwrap(), "bar");
    assert_eq!(ts.pop().unwrap(), "foo")
}

#[test]
fn test_commit() {
    let mut ts = TxStack::new();
    ts.push("foo");
    ts.push("bar");
    ts.begin();
    ts.push("baz");
    assert_eq!(ts.top().clone().pop().unwrap(), "baz");
    ts.commit();
    assert_eq!(ts.pop().unwrap(), "baz");
    assert_eq!(ts.pop().unwrap(), "bar");
    assert_eq!(ts.pop().unwrap(), "foo")
}

#[test]
fn new_stack_is_empty() {
    let mut ts: TxStack<u32> = TxStack::new();
    assert!(ts.top().is_empty());
    assert_eq!(ts.pop(), None);
    assert!(ts.top().is_empty());
}

#[test]
fn pops_come_in_reverse_order_then_none() {
    let mut ts = TxStack::new();
    ts.push('a');
    ts.push('b');
    ts.push('c');
    assert_eq!(ts.top(), &vec!['a', 'b', 'c']);
    assert_eq!(ts.pop(), Some('c'));
    assert_eq!(ts.pop(), Some('b'));
    assert_eq!(ts.pop(), Some('a'));
    assert_eq!(ts.pop(), None);
    assert_eq!(ts.pop(), None);
}

#[test]
fn rollback_gives_back_the_checkpoint() {
    let mut ts = TxStack::from(vec![10, 20]);
    ts.begin();
    ts.push(30);
    assert_eq!(ts.top(), &vec![10, 20, 30]);
    ts.rollback();
    assert_eq!(ts.top(), &vec![10, 20]);
    assert_eq!(ts.pop(), Some(20));
    assert_eq!(ts.pop(), Some(10));
    assert_eq!(ts.pop(), None);
}

#[test]
fn rollback_undoes_pops_too() {
    let mut ts = TxStack::from(vec![1, 2, 3]);
    ts.begin();
    assert_eq!(ts.pop(), Some(3));
    assert_eq!(ts.pop(), Some(2));
    ts.push(9);
    assert_eq!(ts.top(), &vec![1, 9]);
    ts.rollback();
    assert_eq!(ts.top(), &vec![1, 2, 3]);
}

#[test]
fn commit_keeps_the_changes() {
    let mut ts = TxStack::from(vec![10, 20]);
    ts.begin();
    ts.push(30);
    ts.commit();
    assert_eq!(ts.top(), &vec![10, 20, 30]);
    assert_eq!(ts.pop(), Some(30));
    assert_eq!(ts.pop(), Some(20));
    assert_eq!(ts.pop(), Some(10));
    assert_eq!(ts.pop(), None);
}

#[test]
fn commit_closes_one_transaction_only() {
    let mut ts = TxStack::from(vec![1]);
    ts.begin();
    ts.push(2);
    ts.begin();
    ts.push(3);
    ts.commit();
    assert_eq!(ts.top(), &vec![1, 2, 3]);
    ts.rollback();
    assert_eq!(ts.top(), &vec![1]);
}

#[test]
fn inner_rollback_then_outer_commit() {
    let mut ts: TxStack<char> = TxStack::from(Vec::new());
    ts.begin();
    ts.begin();
    ts.push('w');
    ts.rollback();
    ts.push('v');
    ts.commit();
    assert_eq!(ts.top(), &vec!['v']);
    // No transaction is open any more: a rollback leaves the stack alone.
    ts.rollback();
    assert_eq!(ts.top(), &vec!['v']);
}

#[test]
fn top_reads_without_changing() {
    let mut ts = TxStack::from(vec![4, 5]);
    ts.begin();
    ts.push(6);
    let first = ts.top().clone();
    let second = ts.top().clone();
    assert_eq!(first, vec![4, 5, 6]);
    assert_eq!(first, second);
    assert_eq!(ts.pop(), Some(6));
    ts.rollback();
    assert_eq!(ts.top(), &vec![4, 5]);
    assert_eq!(ts.top(), &vec![4, 5]);
}

#[test]
fn from_then_into_is_the_same_vector() {
    let v = vec![3u8, 1, 4, 1, 5];
    let ts = TxStack::from(v.clone());
    let back: Vec<u8> = ts.into();
    assert_eq!(back, v);

    let ts: TxStack<u8> = TxStack::from(Vec::new());
    let back: Vec<u8> = ts.into();
    assert_eq!(back, Vec::<u8>::new());
}

#[test]
fn new_then_into_is_empty() {
    let ts: TxStack<i64> = TxStack::new();
    let back: Vec<i64> = ts.into();
    assert!(back.is_empty());
}

#[test]
fn into_takes_the_live_layer() {
    let mut ts = TxStack::from(vec![1, 2]);
    ts.begin();
    ts.push(3);
    ts.begin();
    ts.push(4);
    let back: Vec<i32> = ts.into();
    assert_eq!(back, vec![1, 2, 3, 4]);
}

#[test]
fn rollback_without_transaction_changes_nothing() {
    let mut ts = TxStack::from(vec![7, 8]);
    ts.rollback();
    assert_eq!(ts.top(), &vec![7, 8]);
    ts.rollback();
    ts.rollback();
    assert_eq!(ts.top(), &vec![7, 8]);
    ts.push(9);
    assert_eq!(ts.pop(), Some(9));
}

#[test]
fn commit_without_transaction_changes_nothing() {
    let mut ts = TxStack::from(vec![7, 8]);
    ts.commit();
    assert_eq!(ts.top(), &vec![7, 8]);
    ts.commit();
    ts.commit();
    assert_eq!(ts.top(), &vec![7, 8]);
    ts.push(9);
    assert_eq!(ts.pop(), Some(9));
}

#[test]
fn more_closes_than_begins_keeps_the_stack_usable() {
    let mut ts: TxStack<u16> = TxStack::new();
    ts.rollback();
    ts.commit();
    ts.push(1);
    ts.begin();
    ts.push(2);
    ts.rollback();
    ts.rollback();
    ts.rollback();
    assert_eq!(ts.top(), &vec![1]);
    ts.begin();
    ts.push(3);
    ts.commit();
    ts.commit();
    ts.commit();
    ts.rollback();
    assert_eq!(ts.top(), &vec![1, 3]);
    assert_eq!(ts.pop(), Some(3));
    assert_eq!(ts.pop(), Some(1));
    assert_eq!(ts.pop(), None);
    ts.rollback();
    assert!(ts.top().is_empty());
}

#[test]
fn begin_keeps_the_contents() {
    let mut ts = TxStack::from(vec![String::from("x"), String::from("y")]);
    ts.begin();
    assert_eq!(ts.top(), &vec![String::from("x"), String::from("y")]);
    assert_eq!(ts.pop(), Some(String::from("y")));
    ts.rollback();
    assert_eq!(ts.top(), &vec![String::from("x"), String::from("y")]);
}

#[test]
fn pop_on_empty_layer_inside_transaction() {
    let mut ts: TxStack<u8> = TxStack::new();
    ts.begin();
    assert_eq!(ts.pop(), None);
    ts.push(1);
    ts.commit();
    assert_eq!(ts.top(), &vec![1]);
}

#[test]
fn foo_bar_baz_rollback() {
    let mut ts: TxStack<&str> = TxStack::from(Vec::new());
    ts.push("foo");
    ts.push("bar");
    ts.begin();
    ts.push("baz");
    assert_eq!(ts.top(), &vec!["foo", "bar", "baz"]);
    ts.rollback();
    assert_eq!(ts.pop(), Some("bar"));
    assert_eq!(ts.pop(), Some("foo"));
    assert_eq!(ts.pop(), None);
}
