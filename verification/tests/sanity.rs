use auction::fees::calculate_fee;

#[test]
fn test_sanity() {
    assert_eq!(1, 1);
}

#[test]
fn library_is_linked() {
    assert_eq!(calculate_fee(0, 0, 0), Some(0));
}
