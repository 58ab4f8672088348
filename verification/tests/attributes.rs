use stabby_opaque::args::{
    parse_version, ArgValue, ArgsError, AttrArg, InterfaceArgs, OpaqueArg, OpaqueArgs, OpaqueArgsError,
    Receiver,
};

fn flag(k: &str) -> AttrArg {
    AttrArg::Flag(k.to_string())
}

fn ty(k: &str, v: &str) -> AttrArg {
    AttrArg::Pair(k.to_string(), ArgValue::Type(v.to_string()))
}

fn lit(k: &str, v: &str) -> AttrArg {
    AttrArg::Pair(k.to_string(), ArgValue::Str(v.to_string()))
}

fn opaque_arg(k: &str, v: Option<&str>) -> OpaqueArg {
    OpaqueArg { key: k.to_string(), value: v.map(|v| v.to_string()) }
}

#[test]
fn interface_arguments_are_gathered() {
    let args = InterfaceArgs::parse(&vec![ty("opaque", "Host"), lit("prefix", "host_core"), flag("resolver")])
        .ok()
        .unwrap();
    assert!(matches!(&args.receiver, Receiver::Opaque(t) if t == "Host"));
    assert_eq!(args.prefix, "host_core");
    assert!(args.resolver);
    assert!(!args.has_link_args);
    assert!(args.link_args.is_empty());
    assert!(args.vtable.is_none());
}

#[test]
fn other_keys_become_link_arguments_in_order() {
    let args = InterfaceArgs::parse(&vec![
        ty("opaque", "crate::Counter"),
        lit("prefix", "counter"),
        lit("name", "opaque_library"),
        lit("kind", "dylib"),
        lit("resolver", "yes"),
    ])
    .ok()
    .unwrap();
    assert!(args.has_link_args);
    assert_eq!(
        args.link_args,
        vec![
            ("name".to_string(), "opaque_library".to_string()),
            ("kind".to_string(), "dylib".to_string()),
            ("resolver".to_string(), "yes".to_string()),
        ]
    );
    assert!(!args.resolver);
}

#[test]
fn later_settings_override_earlier_ones() {
    let args = InterfaceArgs::parse(&vec![
        ty("opaque", "A"),
        lit("prefix", "first"),
        ty("receiver", "B"),
        lit("prefix", "second"),
        ty("vtable", "V1"),
        ty("vtable", "V2"),
    ])
    .ok()
    .unwrap();
    assert!(matches!(&args.receiver, Receiver::Stable(t) if t == "B"));
    assert_eq!(args.prefix, "second");
    assert_eq!(args.vtable.as_deref(), Some("V2"));
}

#[test]
fn interface_argument_errors() {
    let err = |entries: Vec<AttrArg>| InterfaceArgs::parse(&entries).err().unwrap();
    assert!(err(vec![lit("prefix", "p")]) == ArgsError::MissingReceiver);
    assert!(err(vec![ty("opaque", "Host")]) == ArgsError::MissingPrefix);
    assert!(err(vec![flag("opaque")]) == ArgsError::ExpectedEquals);
    assert!(err(vec![lit("opaque", "Host"), lit("prefix", "p")]) == ArgsError::ExpectedType);
    assert!(err(vec![ty("opaque", "Host"), ty("prefix", "p")]) == ArgsError::ExpectedStringLiteral);
    assert!(err(vec![ty("opaque", "Host"), ty("name", "lib")]) == ArgsError::ExpectedStringLiteral);
    // The first malformed entry decides, before anything is found missing.
    assert!(err(vec![ty("prefix", "p"), flag("other")]) == ArgsError::ExpectedStringLiteral);
    assert!(err(vec![]) == ArgsError::MissingReceiver);
}

#[test]
fn opaque_arguments_are_gathered() {
    let args = OpaqueArgs::parse(&vec![
        opaque_arg("module", Some("\"examples::opaque_counter\"")),
        opaque_arg("version", Some("3")),
    ])
    .ok()
    .unwrap();
    assert_eq!(args.version, 3);
    assert_eq!(args.module, vec!["\"examples::opaque_counter\"".to_string()]);
    let defaults = OpaqueArgs::parse(&vec![]).ok().unwrap();
    assert_eq!(defaults.version, 0);
    assert!(defaults.module.is_empty());
    let twice = OpaqueArgs::parse(&vec![
        opaque_arg("version", Some("1")),
        opaque_arg("module", Some("a")),
        opaque_arg("version", Some("2")),
        opaque_arg("module", Some("b")),
    ])
    .ok()
    .unwrap();
    assert_eq!(twice.version, 2);
    assert_eq!(twice.module, vec!["a".to_string(), "b".to_string()]);
}

#[test]
fn opaque_argument_errors() {
    let err = |entries: Vec<OpaqueArg>| OpaqueArgs::parse(&entries).err().unwrap();
    assert!(err(vec![opaque_arg("name", Some("x"))]) == OpaqueArgsError::UnknownAttribute);
    assert!(err(vec![opaque_arg("version", None)]) == OpaqueArgsError::ExpectedEquals);
    assert!(err(vec![opaque_arg("module", None)]) == OpaqueArgsError::ExpectedEquals);
    assert!(err(vec![opaque_arg("version", Some("x1"))]) == OpaqueArgsError::InvalidVersion);
    assert!(err(vec![opaque_arg("version", Some("4294967296"))]) == OpaqueArgsError::InvalidVersion);
    assert!(err(vec![opaque_arg("version", Some("1")), opaque_arg("other", None)]) == OpaqueArgsError::UnknownAttribute);
}

#[test]
fn versions_are_decimal_u32() {
    assert_eq!(parse_version("0"), Some(0));
    assert_eq!(parse_version("42"), Some(42));
    assert_eq!(parse_version("4294967295"), Some(u32::MAX));
    assert_eq!(parse_version("4294967296"), None);
    assert_eq!(parse_version("99999999999999999999"), None);
    assert_eq!(parse_version(""), None);
    assert_eq!(parse_version("1_0"), None);
    assert_eq!(parse_version("-1"), None);
}
