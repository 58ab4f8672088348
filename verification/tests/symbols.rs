use stabby_opaque::symbols::{is_valid_prefix, is_valid_symbol, symbol_ident, symbol_name};

#[test]
fn symbols_join_prefix_and_name() {
    assert_eq!(symbol_name("host", "log").as_deref(), Some("host_log"));
    assert_eq!(symbol_name("host_core", "interface_vtable").as_deref(), Some("host_core_interface_vtable"));
    assert_eq!(symbol_name("", "x").as_deref(), Some("_x"));
    assert_eq!(symbol_name("", "").as_deref(), Some("_"));
}

#[test]
fn invalid_prefixes_give_no_symbol() {
    assert_eq!(symbol_name("9host", "log"), None);
    assert_eq!(symbol_name("my-host", "log"), None);
    assert_eq!(symbol_name("hôte", "log"), None);
    assert_eq!(symbol_name("host", "lo g"), None);
}

#[test]
fn symbol_validity() {
    assert!(is_valid_symbol("a1_B"));
    assert!(is_valid_symbol("_9"));
    assert!(!is_valid_symbol(""));
    assert!(!is_valid_symbol("1a"));
    assert!(!is_valid_symbol("a.b"));
}

#[test]
fn symbol_identifiers_carry_the_symbol() {
    assert_eq!(symbol_ident("store", "len").to_string(), "store_len");
    assert_eq!(symbol_ident("host", "interface_bind").to_string(), "host_interface_bind");
}

#[test]
fn distinct_names_give_distinct_symbols() {
    assert_ne!(symbol_name("host", "log"), symbol_name("host", "logs"));
    assert_ne!(symbol_name("host", "a_b"), symbol_name("host", "a"));
    assert_eq!(symbol_name("host_a", "b"), symbol_name("host", "a_b"));
}

#[test]
fn prefixes_are_empty_or_symbols() {
    assert!(is_valid_prefix(""));
    assert!(is_valid_prefix("host_core"));
    assert!(!is_valid_prefix("1host"));
    assert!(!is_valid_prefix("ho-st"));
}
