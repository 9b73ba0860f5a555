use hv_altar::sync::NoSharedAccess;

#[test]
fn wrap_then_unwrap_gives_the_value_back() {
    let w = NoSharedAccess::new(vec![1u8, 2, 3]);
    assert_eq!(w.into_inner(), vec![1u8, 2, 3]);
}

#[test]
fn get_reads_without_changing() {
    let mut w = NoSharedAccess::new(7u32);
    assert_eq!(*w.get(), 7);
    assert_eq!(*w.get(), 7);
    assert_eq!(w.into_inner(), 7);
}

#[test]
fn write_through_get_mut_is_kept() {
    let mut w = NoSharedAccess::new(String::from("a"));
    assert_eq!(w.get_mut().as_str(), "a");
    w.get_mut().push('b');
    assert_eq!(w.get().as_str(), "ab");
    *w.get_mut() = String::from("z");
    assert_eq!(w.into_inner(), "z");
}
