use burnt_sushi::handles::HandleTable;

#[test]
fn new_table_holds_nothing() {
    let mut table: HandleTable<String> = HandleTable::new();
    assert_eq!(table.get(0), None);
    assert_eq!(table.redeem(0), None);
}

#[test]
fn tokens_are_issued_in_sequence() {
    let mut table = HandleTable::new();
    assert_eq!(table.issue("a"), Ok(0));
    assert_eq!(table.issue("b"), Ok(1));
    assert_eq!(table.issue("c"), Ok(2));
    assert_eq!(table.get(0), Some(&"a"));
    assert_eq!(table.get(1), Some(&"b"));
    assert_eq!(table.get(2), Some(&"c"));
    assert_eq!(table.get(3), None);
}

#[test]
fn a_token_is_redeemed_once() {
    let mut table = HandleTable::new();
    let token = table.issue(String::from("module")).unwrap();
    assert_eq!(table.redeem(token), Some(String::from("module")));
    assert_eq!(table.redeem(token), None);
    assert_eq!(table.get(token), None);
}

#[test]
fn redeeming_leaves_the_other_resources() {
    let mut table = HandleTable::new();
    let first = table.issue(10).unwrap();
    let second = table.issue(20).unwrap();
    assert_eq!(table.redeem(first), Some(10));
    assert_eq!(table.get(second), Some(&20));
    assert_eq!(table.redeem(second), Some(20));
}

#[test]
fn tokens_are_not_reused_after_redeeming() {
    let mut table = HandleTable::new();
    let first = table.issue('a').unwrap();
    table.redeem(first);
    let second = table.issue('b').unwrap();
    assert_ne!(first, second);
    assert_eq!(table.get(first), None);
    assert_eq!(table.get(second), Some(&'b'));
}

#[test]
fn unknown_token_redeems_nothing() {
    let mut table = HandleTable::new();
    table.issue(1u8).unwrap();
    assert_eq!(table.redeem(7), None);
    assert_eq!(table.redeem(u64::MAX), None);
    assert_eq!(table.get(0), Some(&1u8));
}
