use stabby_opaque::args::{ArgValue, AttrArg, InterfaceArgs, Receiver};
use stabby_opaque::lifetimes::{LifetimeShape, ReturnShape, TypeShape};
use stabby_opaque::methods::{
    BoundReceiverArg, ExportedReceiver, FnInput, ForeignReceiver, GenericParamShape,
    ImportedReceiverArg, Method, MethodError, MethodSig, SelfArg, TraitReceiver,
};
use stabby_opaque::plans::{
    check_opaque_marker, impl_methods, interface_names, snake_case_name, plan_export, plan_import, plan_interface, trait_methods,
    ItemShape, MacroError,
};

fn self_arg(mutable: bool, lifetime: Option<&str>) -> FnInput {
    FnInput::SelfArg(SelfArg { by_reference: true, lifetime: lifetime.map(|l| l.to_string()), mutable })
}

fn typed(text: &str) -> FnInput {
    FnInput::Typed(TypeShape::Other(text.to_string()))
}

fn sig(ident: &str, inputs: Vec<FnInput>) -> MethodSig {
    MethodSig {
        ident: ident.to_string(),
        generics: vec![],
        has_where_clause: false,
        unsafety: false,
        abi: Some(Some("C".to_string())),
        inputs,
        output: ReturnShape::Type(Box::new(TypeShape::Other("u32".to_string()))),
    }
}

fn method(ident: &str, mutable: bool) -> Method {
    Method::from_parts(sig(ident, vec![self_arg(mutable, None), typed("u32")]), "host").ok().unwrap()
}

fn args(entries: Vec<AttrArg>) -> InterfaceArgs {
    InterfaceArgs::parse(&entries).ok().unwrap()
}

fn ty(k: &str, v: &str) -> AttrArg {
    AttrArg::Pair(k.to_string(), ArgValue::Type(v.to_string()))
}

fn lit(k: &str, v: &str) -> AttrArg {
    AttrArg::Pair(k.to_string(), ArgValue::Str(v.to_string()))
}

#[test]
fn accepted_methods_keep_their_signature() {
    let mut s = sig("increment_counter", vec![self_arg(true, Some("'a")), typed("Str<'_>"), typed("u32")]);
    s.generics = vec![GenericParamShape::Lifetime("'a".to_string())];
    s.unsafety = true;
    let m = Method::from_parts(s, "host").ok().unwrap();
    assert_eq!(m.ident, "increment_counter");
    assert_eq!(m.symbol, "host_increment_counter");
    assert!(m.unsafety);
    assert!(m.receiver_mut);
    assert_eq!(m.receiver_lt.as_deref(), Some("'a"));
    assert_eq!(m.generics.len(), 1);
    assert_eq!(m.args.len(), 2);
    assert!(matches!(&m.args[0], TypeShape::Other(t) if t == "Str<'_>"));
    assert!(matches!(&m.args[1], TypeShape::Other(t) if t == "u32"));
    assert!(matches!(&m.output, ReturnShape::Type(t) if matches!(&**t, TypeShape::Other(u) if u == "u32")));
}

#[test]
fn refused_method_signatures() {
    let err = |s: MethodSig, prefix: &str| Method::from_parts(s, prefix).err().unwrap();
    let mut s = sig("f", vec![self_arg(false, None)]);
    s.generics = vec![GenericParamShape::Lifetime("'a".to_string()), GenericParamShape::Type("T".to_string())];
    assert!(err(s, "p") == MethodError::NonLifetimeGeneric);
    let mut s = sig("f", vec![self_arg(false, None)]);
    s.generics = vec![GenericParamShape::Const("N".to_string())];
    s.has_where_clause = true;
    assert!(err(s, "p") == MethodError::NonLifetimeGeneric);
    let mut s = sig("f", vec![self_arg(false, None)]);
    s.has_where_clause = true;
    assert!(err(s, "p") == MethodError::WhereClause);
    let mut s = sig("f", vec![self_arg(false, None)]);
    s.abi = None;
    assert!(err(s, "p") == MethodError::MissingAbi);
    let mut s = sig("f", vec![self_arg(false, None)]);
    s.abi = Some(None);
    assert!(err(s, "p") == MethodError::NotExternC);
    let mut s = sig("f", vec![self_arg(false, None)]);
    s.abi = Some(Some("system".to_string()));
    assert!(err(s, "p") == MethodError::NotExternC);
    assert!(err(sig("f", vec![]), "p") == MethodError::BadReceiver);
    assert!(err(sig("f", vec![typed("u32")]), "p") == MethodError::BadReceiver);
    let by_value = FnInput::SelfArg(SelfArg { by_reference: false, lifetime: None, mutable: false });
    assert!(err(sig("f", vec![by_value]), "p") == MethodError::BadReceiver);
    assert!(err(sig("f", vec![self_arg(false, None), self_arg(true, None)]), "p") == MethodError::ReceiverNotFirst);
    assert!(err(sig("f", vec![self_arg(false, None)]), "9p") == MethodError::InvalidSymbol);
}

#[test]
fn receivers_on_each_side_of_the_boundary() {
    let shared = method("len", false);
    let exclusive = method("bump", true);
    let opaque = Receiver::Opaque("Store".to_string());
    let stable = Receiver::Stable("Stable".to_string());
    assert!(shared.foreign_receiver(&opaque) == ForeignReceiver::OpaqueRef);
    assert!(exclusive.foreign_receiver(&opaque) == ForeignReceiver::OpaqueRefMut);
    assert!(shared.foreign_receiver(&stable) == ForeignReceiver::SharedRef);
    assert!(exclusive.foreign_receiver(&stable) == ForeignReceiver::MutRef);
    assert!(shared.trait_receiver() == TraitReceiver::Shared);
    assert!(exclusive.trait_receiver() == TraitReceiver::Exclusive);
    let with_lt = Method::from_parts(sig("g", vec![self_arg(true, Some("'a"))]), "p").ok().unwrap();
    assert!(with_lt.trait_receiver() == TraitReceiver::ExclusiveWithLifetime);
    let with_lt = Method::from_parts(sig("g", vec![self_arg(false, Some("'a"))]), "p").ok().unwrap();
    assert!(with_lt.trait_receiver() == TraitReceiver::SharedWithLifetime);
    assert!(shared.imported_receiver_arg(&opaque, false) == ImportedReceiverArg::Copy);
    assert!(shared.imported_receiver_arg(&opaque, true) == ImportedReceiverArg::AsRef);
    assert!(exclusive.imported_receiver_arg(&opaque, true) == ImportedReceiverArg::Reborrow);
    assert!(exclusive.imported_receiver_arg(&stable, false) == ImportedReceiverArg::SelfRef);
    assert!(shared.bound_receiver_arg(false) == BoundReceiverArg::AsOpaque);
    assert!(shared.bound_receiver_arg(true) == BoundReceiverArg::AsOpaque);
    assert!(exclusive.bound_receiver_arg(true) == BoundReceiverArg::AsOpaqueMut);
    assert!(shared.exported_receiver(&opaque) == ExportedReceiver::Cast);
    assert!(exclusive.exported_receiver(&opaque) == ExportedReceiver::CastMut);
    assert!(exclusive.exported_receiver(&stable) == ExportedReceiver::Direct);
}

#[test]
fn erased_signatures() {
    let s = MethodSig {
        output: ReturnShape::Type(Box::new(TypeShape::Reference {
            lifetime: Some(LifetimeShape::Named("'a".to_string())),
            mutable: false,
            elem: Box::new(TypeShape::Other("str".to_string())),
        })),
        ..sig(
            "name",
            vec![
                self_arg(false, None),
                FnInput::Typed(TypeShape::Reference {
                    lifetime: None,
                    mutable: false,
                    elem: Box::new(TypeShape::Other("u8".to_string())),
                }),
            ],
        )
    };
    let m = Method::from_parts(s, "p").ok().unwrap();
    let args = m.erased_args();
    assert!(matches!(&args[0], TypeShape::Reference { lifetime: Some(LifetimeShape::Static), .. }));
    let out = m.erased_output();
    assert!(matches!(&out, ReturnShape::Type(t) if matches!(&**t, TypeShape::Reference { lifetime: Some(LifetimeShape::Static), .. })));
}

#[test]
fn trait_and_impl_items() {
    let items = vec![
        ItemShape::Method(sig("len", vec![self_arg(false, None)])),
        ItemShape::Method(sig("bump", vec![self_arg(true, None), typed("u32")])),
    ];
    let ms = trait_methods(0, items, "store").ok().unwrap();
    assert_eq!(ms.len(), 2);
    assert_eq!(ms[0].symbol, "store_len");
    assert_eq!(ms[1].symbol, "store_bump");
    assert!(trait_methods(1, vec![], "store").err().unwrap() == MacroError::GenericTrait);
    let with_other = vec![ItemShape::Other, ItemShape::Method(sig("len", vec![self_arg(false, None)]))];
    assert!(trait_methods(0, with_other, "store").err().unwrap() == MacroError::NonMethodItem);
    let with_other = vec![ItemShape::Other, ItemShape::Method(sig("len", vec![self_arg(false, None)]))];
    let ms = impl_methods(0, with_other, "store").ok().unwrap();
    assert_eq!(ms.len(), 1);
    assert!(impl_methods(2, vec![], "store").err().unwrap() == MacroError::GenericImpl);
    let bad = vec![ItemShape::Method(sig("len", vec![])), ItemShape::Other];
    assert!(trait_methods(0, bad, "store").err().unwrap() == MacroError::Method(MethodError::BadReceiver));
}

#[test]
fn runtime_interfaces() {
    let host = args(vec![ty("opaque", "Host"), lit("prefix", "host")]);
    let items = vec![
        ItemShape::Method(sig("log", vec![self_arg(true, None), typed("Str<'_>")])),
        ItemShape::Method(sig("increment_counter", vec![self_arg(true, None), typed("Str<'_>"), typed("u32")])),
    ];
    let plan = plan_interface(&host, "HostApi", 0, items).ok().unwrap();
    assert_eq!(plan.methods.len(), 2);
    assert!(!plan.shared_impl);
    assert!(!plan.resolver);
    assert_eq!(plan.names.vtable, "HostApiVTable");
    assert_eq!(plan.names.resolver, "HostApiInterfaceResolver");
    assert_eq!(plan.names.ref_mut_alias, "HostApiRefMut");
    assert_eq!(plan.names.ext_trait, "HostApiInterfaceExt");
    assert_eq!(plan.names.resolve_method, "resolve_host_api");
    let shared = vec![ItemShape::Method(sig("get", vec![self_arg(false, None)]))];
    assert!(plan_interface(&host, "HostApi", 0, shared).ok().unwrap().shared_impl);

    let core = args(vec![ty("opaque", "Host"), lit("prefix", "host_core"), AttrArg::Flag("resolver".to_string())]);
    let query = vec![ItemShape::Method(sig("query_interface", vec![self_arg(true, None), typed("u64")]))];
    assert!(plan_interface(&core, "HostCore", 0, query).ok().unwrap().resolver);
    let query_second = vec![
        ItemShape::Method(sig("other", vec![self_arg(true, None)])),
        ItemShape::Method(sig("query_interface", vec![self_arg(true, None), typed("u64")])),
    ];
    let plan = plan_interface(&core, "HostCore", 0, query_second).ok().unwrap();
    assert!(plan.resolver);
    assert_eq!(plan.names.ref_mut_alias, "HostCoreRefMut");
    assert_eq!(plan.names.resolve_method, "resolve_host_core");
    let no_query = vec![ItemShape::Method(sig("other", vec![self_arg(true, None)]))];
    assert!(plan_interface(&core, "HostCore", 0, no_query).err().unwrap() == MacroError::MissingQueryInterface);

    let linked = args(vec![ty("opaque", "Host"), lit("prefix", "host"), lit("name", "lib")]);
    assert!(plan_interface(&linked, "Linked", 0, vec![]).err().unwrap() == MacroError::LinkArgsNotAllowed);
    let with_table = args(vec![ty("opaque", "Host"), lit("prefix", "host"), ty("vtable", "T")]);
    assert!(plan_interface(&with_table, "WithTable", 0, vec![]).err().unwrap() == MacroError::VtableNotAllowed);
    let stable = args(vec![ty("receiver", "S"), lit("prefix", "host")]);
    assert!(plan_interface(&stable, "Stable", 0, vec![]).err().unwrap() == MacroError::RequiresOpaque);
    assert!(plan_interface(&host, "HostApi", 1, vec![]).err().unwrap() == MacroError::GenericTrait);
}

#[test]
fn imported_interfaces() {
    let linked = args(vec![ty("opaque", "crate::Counter"), lit("prefix", "counter"), lit("name", "opaque_library")]);
    let items = vec![
        ItemShape::Method(sig("get", vec![self_arg(false, None)])),
        ItemShape::Method(sig("add", vec![self_arg(true, None), typed("u32")])),
    ];
    let plan = plan_import(&linked, 0, items).ok().unwrap();
    assert_eq!(plan.methods.len(), 2);
    assert!(!plan.shared_impl);
    let getters = vec![ItemShape::Method(sig("get", vec![self_arg(false, None)]))];
    assert!(plan_import(&linked, 0, getters).ok().unwrap().shared_impl);
    let stable = args(vec![ty("receiver", "S"), lit("prefix", "s"), lit("name", "lib")]);
    let getters = vec![ItemShape::Method(sig("get", vec![self_arg(false, None)]))];
    assert!(!plan_import(&stable, 0, getters).ok().unwrap().shared_impl);
    let unlinked = args(vec![ty("opaque", "C"), lit("prefix", "c")]);
    assert!(plan_import(&unlinked, 0, vec![]).err().unwrap() == MacroError::MissingLinkArgs);
}

#[test]
fn exported_interfaces() {
    let store = args(vec![ty("opaque", "Store"), lit("prefix", "store")]);
    let items = vec![ItemShape::Method(sig("len", vec![self_arg(false, None)])), ItemShape::Other];
    let plan = plan_export(&store, true, 0, items).ok().unwrap();
    assert_eq!(plan.methods.len(), 1);
    assert!(!plan.vtable_items);
    assert!(!plan.shared_bind);
    let host = args(vec![ty("opaque", "Host"), lit("prefix", "host"), ty("vtable", "HostApiVTable")]);
    let items = vec![ItemShape::Method(sig("log", vec![self_arg(true, None)]))];
    let plan = plan_export(&host, true, 0, items).ok().unwrap();
    assert!(plan.vtable_items);
    assert!(!plan.shared_bind);
    let items = vec![ItemShape::Method(sig("get", vec![self_arg(false, None)]))];
    assert!(plan_export(&host, true, 0, items).ok().unwrap().shared_bind);
    assert!(plan_export(&host, false, 0, vec![]).err().unwrap() == MacroError::NotTraitImpl);
    let stable = args(vec![ty("receiver", "S"), lit("prefix", "s"), ty("vtable", "V")]);
    assert!(plan_export(&stable, true, 0, vec![]).err().unwrap() == MacroError::RequiresOpaque);
    assert!(plan_export(&store, true, 3, vec![]).err().unwrap() == MacroError::GenericImpl);
}

#[test]
fn interface_symbols_need_a_valid_prefix() {
    let bad = args(vec![ty("opaque", "Host"), lit("prefix", "1host")]);
    assert!(plan_interface(&bad, "HostApi", 0, vec![]).err().unwrap() == MacroError::InvalidSymbol);
    let bad_table = args(vec![ty("opaque", "Host"), lit("prefix", "1host"), ty("vtable", "HostApiVTable")]);
    assert!(plan_export(&bad_table, true, 0, vec![]).err().unwrap() == MacroError::InvalidSymbol);
    let bad_no_table = args(vec![ty("opaque", "Host"), lit("prefix", "1host")]);
    assert!(plan_export(&bad_no_table, true, 0, vec![]).is_ok());
    let empty = args(vec![ty("opaque", "Host"), lit("prefix", "")]);
    assert!(plan_interface(&empty, "HostApi", 0, vec![]).is_ok());
}

#[test]
fn interface_names_follow_the_trait() {
    let names = interface_names("Counter");
    assert_eq!(names.vtable, "CounterVTable");
    assert_eq!(names.resolve_method, "resolve_counter");
    assert_eq!(snake_case_name("HostApi"), "host_api");
    assert_eq!(snake_case_name("HTTPServer"), "h_t_t_p_server");
    assert_eq!(snake_case_name("already_snake"), "already_snake");
    assert_eq!(snake_case_name(""), "");
}

#[test]
fn opaque_markers() {
    assert!(check_opaque_marker(true, 0).is_ok());
    assert!(check_opaque_marker(false, 0).err().unwrap() == MacroError::NotUnitStruct);
    assert!(check_opaque_marker(true, 1).err().unwrap() == MacroError::GenericMarker);
}
