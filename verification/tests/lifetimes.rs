use stabby_opaque::lifetimes::{
    erase_lifetimes_angle_arguments, erase_lifetimes_generic_argument, erase_lifetimes_path,
    erase_lifetimes_path_arguments, erase_lifetimes_return_type, erase_lifetimes_type,
    static_lifetime, AngleShape, ArgumentsShape, FnArgShape, GenericArgShape, LifetimeShape,
    PathShape, QSelfShape, ReturnShape, SegmentShape, TypeShape,
};

fn named(l: &str) -> LifetimeShape {
    LifetimeShape::Named(l.to_string())
}

fn path(segments: Vec<(&str, ArgumentsShape)>) -> TypeShape {
    TypeShape::Path {
        qself: None,
        path: PathShape {
            leading_colon: false,
            segments: segments
                .into_iter()
                .map(|(ident, arguments)| SegmentShape { ident: ident.to_string(), arguments })
                .collect(),
        },
    }
}

fn reference(lifetime: Option<LifetimeShape>, mutable: bool, elem: TypeShape) -> TypeShape {
    TypeShape::Reference { lifetime, mutable, elem: Box::new(elem) }
}

fn lifetime_of(ty: &TypeShape) -> Option<&LifetimeShape> {
    match ty {
        TypeShape::Reference { lifetime, .. } => lifetime.as_ref(),
        _ => None,
    }
}

fn is_static(l: Option<&LifetimeShape>) -> bool {
    matches!(l, Some(LifetimeShape::Static))
}

#[test]
fn references_get_static_lifetimes() {
    let ty = reference(Some(named("'a")), false, path(vec![("str", ArgumentsShape::Empty)]));
    let erased = erase_lifetimes_type(&ty);
    assert!(is_static(lifetime_of(&erased)));
    let elided = reference(None, true, path(vec![("u8", ArgumentsShape::Empty)]));
    let erased = erase_lifetimes_type(&elided);
    assert!(is_static(lifetime_of(&erased)));
    match erased {
        TypeShape::Reference { mutable, elem, .. } => {
            assert!(mutable);
            match *elem {
                TypeShape::Path { path, .. } => assert_eq!(path.segments[0].ident, "u8"),
                _ => panic!("the referenced type changed"),
            }
        }
        _ => panic!("not a reference any more"),
    }
}

#[test]
fn generic_lifetime_arguments_become_static() {
    let args = AngleShape {
        colon2: false,
        args: vec![
            GenericArgShape::Lifetime(named("'a")),
            GenericArgShape::Type(reference(Some(named("'b")), false, TypeShape::Other("T".to_string()))),
            GenericArgShape::Other("3".to_string()),
        ],
    };
    let ty = path(vec![("stabby", ArgumentsShape::Empty), ("Str", ArgumentsShape::AngleBracketed(args))]);
    let erased = erase_lifetimes_type(&ty);
    let TypeShape::Path { path, qself } = erased else { panic!("not a path") };
    assert!(qself.is_none());
    assert_eq!(path.segments.len(), 2);
    assert_eq!(path.segments[0].ident, "stabby");
    let ArgumentsShape::AngleBracketed(angle) = &path.segments[1].arguments else { panic!("arguments lost") };
    assert!(matches!(angle.args[0], GenericArgShape::Lifetime(LifetimeShape::Static)));
    let GenericArgShape::Type(inner) = &angle.args[1] else { panic!("type argument lost") };
    assert!(is_static(lifetime_of(inner)));
    assert!(matches!(&angle.args[2], GenericArgShape::Other(t) if t == "3"));
}

#[test]
fn bare_functions_lose_their_binder() {
    let ty = TypeShape::BareFn {
        binder: Some("for<'a>".to_string()),
        unsafety: true,
        abi: Some("extern \"C\"".to_string()),
        inputs: vec![FnArgShape {
            label: Some("x".to_string()),
            ty: reference(Some(named("'a")), false, TypeShape::Other("u8".to_string())),
        }],
        variadic: None,
        output: ReturnShape::Type(Box::new(reference(Some(named("'a")), false, TypeShape::Other("u8".to_string())))),
    };
    let erased = erase_lifetimes_type(&ty);
    let TypeShape::BareFn { binder, unsafety, abi, inputs, variadic, output } = erased else { panic!("not a bare fn") };
    assert!(binder.is_none());
    assert!(unsafety);
    assert_eq!(abi.as_deref(), Some("extern \"C\""));
    assert_eq!(inputs[0].label.as_deref(), Some("x"));
    assert!(is_static(lifetime_of(&inputs[0].ty)));
    assert!(variadic.is_none());
    let ReturnShape::Type(out) = output else { panic!("return type lost") };
    assert!(is_static(lifetime_of(&out)));
}

#[test]
fn containers_are_erased_throughout() {
    let r = || reference(Some(named("'x")), false, TypeShape::Other("T".to_string()));
    let tuple = TypeShape::Tuple(vec![r(), TypeShape::Slice(Box::new(r())), TypeShape::Paren(Box::new(r()))]);
    let TypeShape::Tuple(items) = erase_lifetimes_type(&tuple) else { panic!("not a tuple") };
    assert_eq!(items.len(), 3);
    assert!(is_static(lifetime_of(&items[0])));
    let TypeShape::Slice(inner) = &items[1] else { panic!() };
    assert!(is_static(lifetime_of(inner)));
    let TypeShape::Paren(inner) = &items[2] else { panic!() };
    assert!(is_static(lifetime_of(inner)));
    let array = TypeShape::Array { elem: Box::new(r()), len: "4".to_string() };
    let TypeShape::Array { elem, len } = erase_lifetimes_type(&array) else { panic!() };
    assert!(is_static(lifetime_of(&elem)));
    assert_eq!(len, "4");
    let ptr = TypeShape::Ptr { mutable: true, elem: Box::new(r()) };
    let TypeShape::Ptr { mutable, elem } = erase_lifetimes_type(&ptr) else { panic!() };
    assert!(mutable);
    assert!(is_static(lifetime_of(&elem)));
    let group = TypeShape::Group(Box::new(r()));
    let TypeShape::Group(elem) = erase_lifetimes_type(&group) else { panic!() };
    assert!(is_static(lifetime_of(&elem)));
    let other = TypeShape::Other("dyn Trait + 'a".to_string());
    assert!(matches!(erase_lifetimes_type(&other), TypeShape::Other(t) if t == "dyn Trait + 'a"));
}

#[test]
fn qualified_paths_and_associated_types_are_erased() {
    let ty = TypeShape::Path {
        qself: Some(QSelfShape {
            ty: Box::new(reference(Some(named("'q")), false, TypeShape::Other("T".to_string()))),
            position: 1,
            has_as: true,
        }),
        path: PathShape {
            leading_colon: true,
            segments: vec![SegmentShape {
                ident: "Iterator".to_string(),
                arguments: ArgumentsShape::AngleBracketed(AngleShape {
                    colon2: true,
                    args: vec![
                        GenericArgShape::AssocType {
                            ident: "Item".to_string(),
                            generics: Some(AngleShape { colon2: false, args: vec![GenericArgShape::Lifetime(named("'g"))] }),
                            ty: reference(Some(named("'i")), false, TypeShape::Other("u8".to_string())),
                        },
                        GenericArgShape::Constraint {
                            ident: "Bound".to_string(),
                            generics: None,
                            bounds: "Copy + 'c".to_string(),
                        },
                    ],
                }),
            }],
        },
    };
    let TypeShape::Path { qself, path } = erase_lifetimes_type(&ty) else { panic!() };
    let q = qself.unwrap();
    assert_eq!((q.position, q.has_as), (1, true));
    assert!(is_static(lifetime_of(&q.ty)));
    assert!(path.leading_colon);
    let ArgumentsShape::AngleBracketed(angle) = &path.segments[0].arguments else { panic!() };
    assert!(angle.colon2);
    let GenericArgShape::AssocType { ident, generics, ty } = &angle.args[0] else { panic!() };
    assert_eq!(ident, "Item");
    assert!(matches!(generics.as_ref().unwrap().args[0], GenericArgShape::Lifetime(LifetimeShape::Static)));
    assert!(is_static(lifetime_of(ty)));
    let GenericArgShape::Constraint { ident, bounds, generics } = &angle.args[1] else { panic!() };
    assert_eq!(ident, "Bound");
    assert_eq!(bounds, "Copy + 'c");
    assert!(generics.is_none());
}

#[test]
fn parenthesized_arguments_and_return_types_are_erased() {
    let args = ArgumentsShape::Parenthesized {
        inputs: vec![reference(Some(named("'a")), false, TypeShape::Other("u8".to_string()))],
        output: ReturnShape::Type(Box::new(reference(None, false, TypeShape::Other("u8".to_string())))),
    };
    let ArgumentsShape::Parenthesized { inputs, output } = erase_lifetimes_path_arguments(&args) else { panic!() };
    assert!(is_static(lifetime_of(&inputs[0])));
    let ReturnShape::Type(out) = output else { panic!() };
    assert!(is_static(lifetime_of(&out)));
    assert!(matches!(erase_lifetimes_return_type(&ReturnShape::Default), ReturnShape::Default));
    assert!(matches!(erase_lifetimes_path_arguments(&ArgumentsShape::Empty), ArgumentsShape::Empty));
    assert!(matches!(static_lifetime(), LifetimeShape::Static));
    let g = erase_lifetimes_generic_argument(&GenericArgShape::Lifetime(named("'z")));
    assert!(matches!(g, GenericArgShape::Lifetime(LifetimeShape::Static)));
    let angle = erase_lifetimes_angle_arguments(&AngleShape { colon2: false, args: vec![] });
    assert!(angle.args.is_empty());
    let p = erase_lifetimes_path(&PathShape { leading_colon: false, segments: vec![] });
    assert!(p.segments.is_empty());
}

#[test]
fn erasing_twice_is_erasing_once() {
    let ty = reference(
        Some(named("'a")),
        false,
        path(vec![(
            "Vec",
            ArgumentsShape::AngleBracketed(AngleShape {
                colon2: false,
                args: vec![GenericArgShape::Type(reference(Some(named("'b")), true, TypeShape::Other("u8".to_string())))],
            }),
        )]),
    );
    let once = erase_lifetimes_type(&ty);
    let twice = erase_lifetimes_type(&once);
    assert_eq!(format!("{:?}", once), format!("{:?}", twice));
}
