use dynlib::handle::{symbol_from_lookup, symbol_if_present, Handle};

#[test]
fn null_open_result_is_not_found() {
    assert!(Handle::from_open_result(0).is_none());
}

#[test]
fn open_result_is_wrapped() {
    let h = Handle::from_open_result(0x7f00_1000).unwrap();
    assert_eq!(h.raw(), 0x7f00_1000);
}

#[test]
fn lookup_without_error_gives_the_address() {
    assert_eq!(symbol_from_lookup(0x4010, false), Some(0x4010));
}

#[test]
fn lookup_of_symbol_defined_as_null_is_found() {
    assert_eq!(symbol_from_lookup(0, false), Some(0));
}

#[test]
fn lookup_with_error_is_not_found() {
    assert_eq!(symbol_from_lookup(0x4010, true), None);
    assert_eq!(symbol_from_lookup(0, true), None);
}

#[test]
fn null_address_is_absent() {
    assert_eq!(symbol_if_present(0), None);
}

#[test]
fn address_is_present() {
    assert_eq!(symbol_if_present(0x5020), Some(0x5020));
}
