use webserver::global::GlobalOnceCell;

#[test]
fn cell_is_empty_until_initialised() {
    let mut cell: GlobalOnceCell<u32> = GlobalOnceCell::new();
    assert!(!cell.is_initialized());
    cell.init(7);
    assert!(cell.is_initialized());
    assert_eq!(*cell.get(), 7);
}
