//! Type signatures as plain values, and the erasure of their lifetimes.
//!
//! Interface tables and exported symbols cannot carry the lifetimes of a
//! method's signature, so every lifetime in argument and return types is
//! replaced by `'static` before the signature is written into a table.

use vstd::prelude::*;

verus! {

/// A lifetime: `'static`, or a named one (held with its leading quote).
#[derive(Debug)]
pub enum LifetimeShape {
    Static,
    Named(String),
}

/// A type, as far as lifetime erasure reads it. Parts that erasure does not
/// look into are held as their source text.
#[derive(Debug)]
pub enum TypeShape {
    /// `[elem; len]`
    Array { elem: Box<TypeShape>, len: String },
    /// `binder unsafe abi fn(inputs, variadic) output`
    BareFn {
        binder: Option<String>,
        unsafety: bool,
        abi: Option<String>,
        inputs: Vec<FnArgShape>,
        variadic: Option<String>,
        output: ReturnShape,
    },
    /// A type in invisible delimiters.
    Group(Box<TypeShape>),
    /// `(elem)`
    Paren(Box<TypeShape>),
    /// `<qself as ...>::path` or `path`
    Path { qself: Option<QSelfShape>, path: PathShape },
    /// `*const elem` or `*mut elem`
    Ptr { mutable: bool, elem: Box<TypeShape> },
    /// `&lifetime mut elem`
    Reference { lifetime: Option<LifetimeShape>, mutable: bool, elem: Box<TypeShape> },
    /// `[elem]`
    Slice(Box<TypeShape>),
    /// `(elems, ...)`
    Tuple(Vec<TypeShape>),
    /// Any other type, as its source text.
    Other(String),
}

/// An argument of a bare function type: its attributes and name as source text, and its type.
#[derive(Debug)]
pub struct FnArgShape {
    pub label: Option<String>,
    pub ty: TypeShape,
}

/// The return type of a function type.
#[derive(Debug)]
pub enum ReturnShape {
    Default,
    Type(Box<TypeShape>),
}

/// The `<ty as Trait>` part of a qualified path.
#[derive(Debug)]
pub struct QSelfShape {
    pub ty: Box<TypeShape>,
    pub position: usize,
    pub has_as: bool,
}

/// A path: its segments, with or without a leading `::`.
#[derive(Debug)]
pub struct PathShape {
    pub leading_colon: bool,
    pub segments: Vec<SegmentShape>,
}

/// A path segment: its name and its arguments.
#[derive(Debug)]
pub struct SegmentShape {
    pub ident: String,
    pub arguments: ArgumentsShape,
}

/// The arguments of a path segment.
#[derive(Debug)]
pub enum ArgumentsShape {
    Empty,
    AngleBracketed(AngleShape),
    Parenthesized { inputs: Vec<TypeShape>, output: ReturnShape },
}

/// `::<args>` or `<args>`.
#[derive(Debug)]
pub struct AngleShape {
    pub colon2: bool,
    pub args: Vec<GenericArgShape>,
}

/// A generic argument.
#[derive(Debug)]
pub enum GenericArgShape {
    Lifetime(LifetimeShape),
    Type(TypeShape),
    /// `Ident<generics> = ty`
    AssocType { ident: String, generics: Option<AngleShape>, ty: TypeShape },
    /// `Ident<generics>: bounds`, the bounds as source text.
    Constraint { ident: String, generics: Option<AngleShape>, bounds: String },
    /// Any other argument, as its source text.
    Other(String),
}

// ---------------------------------------------------------------------------
// The same, as plain values.

pub enum LifetimeView {
    Static,
    Named(Seq<char>),
}

pub enum TypeView {
    Array { elem: Box<TypeView>, len: Seq<char> },
    BareFn {
        binder: Option<Seq<char>>,
        unsafety: bool,
        abi: Option<Seq<char>>,
        inputs: Seq<FnArgView>,
        variadic: Option<Seq<char>>,
        output: ReturnView,
    },
    Group(Box<TypeView>),
    Paren(Box<TypeView>),
    Path { qself: Option<QSelfView>, path: PathView },
    Ptr { mutable: bool, elem: Box<TypeView> },
    Reference { lifetime: Option<LifetimeView>, mutable: bool, elem: Box<TypeView> },
    Slice(Box<TypeView>),
    Tuple(Seq<TypeView>),
    Other(Seq<char>),
}

pub struct FnArgView {
    pub label: Option<Seq<char>>,
    pub ty: TypeView,
}

pub enum ReturnView {
    Default,
    Type(Box<TypeView>),
}

pub struct QSelfView {
    pub ty: Box<TypeView>,
    pub position: usize,
    pub has_as: bool,
}

pub struct PathView {
    pub leading_colon: bool,
    pub segments: Seq<SegmentView>,
}

pub struct SegmentView {
    pub ident: Seq<char>,
    pub arguments: ArgumentsView,
}

pub enum ArgumentsView {
    Empty,
    AngleBracketed(AngleView),
    Parenthesized { inputs: Seq<TypeView>, output: ReturnView },
}

pub struct AngleView {
    pub colon2: bool,
    pub args: Seq<GenericArgView>,
}

pub enum GenericArgView {
    Lifetime(LifetimeView),
    Type(TypeView),
    AssocType { ident: Seq<char>, generics: Option<AngleView>, ty: TypeView },
    Constraint { ident: Seq<char>, generics: Option<AngleView>, bounds: Seq<char> },
    Other(Seq<char>),
}

pub open spec fn text_view(s: Option<String>) -> Option<Seq<char>> {
    match s {
        Some(t) => Some(t@),
        None => None,
    }
}

pub open spec fn lifetime_view(l: LifetimeShape) -> LifetimeView {
    match l {
        LifetimeShape::Static => LifetimeView::Static,
        LifetimeShape::Named(n) => LifetimeView::Named(n@),
    }
}

pub open spec fn type_view(t: TypeShape) -> TypeView
    decreases t,
{
    match t {
        TypeShape::Array { elem, len } => TypeView::Array { elem: Box::new(type_view(*elem)), len: len@ },
        TypeShape::BareFn { binder, unsafety, abi, inputs, variadic, output } => TypeView::BareFn {
            binder: text_view(binder),
            unsafety: unsafety,
            abi: text_view(abi),
            inputs: fn_args_view(inputs@),
            variadic: text_view(variadic),
            output: return_view(output),
        },
        TypeShape::Group(elem) => TypeView::Group(Box::new(type_view(*elem))),
        TypeShape::Paren(elem) => TypeView::Paren(Box::new(type_view(*elem))),
        TypeShape::Path { qself, path } => TypeView::Path {
            qself: match qself {
                Some(q) => Some(QSelfView { ty: Box::new(type_view(*q.ty)), position: q.position, has_as: q.has_as }),
                None => None,
            },
            path: path_view(path),
        },
        TypeShape::Ptr { mutable, elem } => TypeView::Ptr { mutable: mutable, elem: Box::new(type_view(*elem)) },
        TypeShape::Reference { lifetime, mutable, elem } => TypeView::Reference {
            lifetime: match lifetime {
                Some(l) => Some(lifetime_view(l)),
                None => None,
            },
            mutable: mutable,
            elem: Box::new(type_view(*elem)),
        },
        TypeShape::Slice(elem) => TypeView::Slice(Box::new(type_view(*elem))),
        TypeShape::Tuple(elems) => TypeView::Tuple(types_view(elems@)),
        TypeShape::Other(text) => TypeView::Other(text@),
    }
}

pub open spec fn types_view(s: Seq<TypeShape>) -> Seq<TypeView>
    decreases s,
{
    if s.len() == 0 {
        Seq::empty()
    } else {
        types_view(s.drop_last()).push(type_view(s.last()))
    }
}

pub open spec fn fn_args_view(s: Seq<FnArgShape>) -> Seq<FnArgView>
    decreases s,
{
    if s.len() == 0 {
        Seq::empty()
    } else {
        fn_args_view(s.drop_last()).push(FnArgView { label: text_view(s.last().label), ty: type_view(s.last().ty) })
    }
}

pub open spec fn return_view(r: ReturnShape) -> ReturnView
    decreases r,
{
    match r {
        ReturnShape::Default => ReturnView::Default,
        ReturnShape::Type(ty) => ReturnView::Type(Box::new(type_view(*ty))),
    }
}

pub open spec fn path_view(p: PathShape) -> PathView
    decreases p,
{
    PathView { leading_colon: p.leading_colon, segments: segments_view(p.segments@) }
}

pub open spec fn segments_view(s: Seq<SegmentShape>) -> Seq<SegmentView>
    decreases s,
{
    if s.len() == 0 {
        Seq::empty()
    } else {
        segments_view(s.drop_last()).push(
            SegmentView { ident: s.last().ident@, arguments: arguments_view(s.last().arguments) },
        )
    }
}

pub open spec fn arguments_view(a: ArgumentsShape) -> ArgumentsView
    decreases a,
{
    match a {
        ArgumentsShape::Empty => ArgumentsView::Empty,
        ArgumentsShape::AngleBracketed(angle) => ArgumentsView::AngleBracketed(angle_view(angle)),
        ArgumentsShape::Parenthesized { inputs, output } => ArgumentsView::Parenthesized {
            inputs: types_view(inputs@),
            output: return_view(output),
        },
    }
}

pub open spec fn angle_view(a: AngleShape) -> AngleView
    decreases a,
{
    AngleView { colon2: a.colon2, args: generic_args_view(a.args@) }
}

pub open spec fn generic_args_view(s: Seq<GenericArgShape>) -> Seq<GenericArgView>
    decreases s,
{
    if s.len() == 0 {
        Seq::empty()
    } else {
        generic_args_view(s.drop_last()).push(generic_arg_view(s.last()))
    }
}

pub open spec fn generic_arg_view(g: GenericArgShape) -> GenericArgView
    decreases g,
{
    match g {
        GenericArgShape::Lifetime(l) => GenericArgView::Lifetime(lifetime_view(l)),
        GenericArgShape::Type(ty) => GenericArgView::Type(type_view(ty)),
        GenericArgShape::AssocType { ident, generics, ty } => GenericArgView::AssocType {
            ident: ident@,
            generics: match generics {
                Some(a) => Some(angle_view(a)),
                None => None,
            },
            ty: type_view(ty),
        },
        GenericArgShape::Constraint { ident, generics, bounds } => GenericArgView::Constraint {
            ident: ident@,
            generics: match generics {
                Some(a) => Some(angle_view(a)),
                None => None,
            },
            bounds: bounds@,
        },
        GenericArgShape::Other(text) => GenericArgView::Other(text@),
    }
}


// ---------------------------------------------------------------------------
// Erasure.

/// `ty` with every lifetime in a reference or a generic argument replaced by
/// `'static`, and with the lifetime binder of every bare function type dropped.
pub open spec fn erase_type(t: TypeView) -> TypeView
    decreases t,
{
    match t {
        TypeView::Array { elem, len } => TypeView::Array { elem: Box::new(erase_type(*elem)), len: len },
        TypeView::BareFn { binder, unsafety, abi, inputs, variadic, output } => TypeView::BareFn {
            binder: None,
            unsafety: unsafety,
            abi: abi,
            inputs: erase_fn_args(inputs),
            variadic: variadic,
            output: erase_return(output),
        },
        TypeView::Group(elem) => TypeView::Group(Box::new(erase_type(*elem))),
        TypeView::Paren(elem) => TypeView::Paren(Box::new(erase_type(*elem))),
        TypeView::Path { qself, path } => TypeView::Path {
            qself: match qself {
                Some(q) => Some(QSelfView { ty: Box::new(erase_type(*q.ty)), position: q.position, has_as: q.has_as }),
                None => None,
            },
            path: erase_path(path),
        },
        TypeView::Ptr { mutable, elem } => TypeView::Ptr { mutable: mutable, elem: Box::new(erase_type(*elem)) },
        TypeView::Reference { lifetime, mutable, elem } => TypeView::Reference {
            lifetime: Some(LifetimeView::Static),
            mutable: mutable,
            elem: Box::new(erase_type(*elem)),
        },
        TypeView::Slice(elem) => TypeView::Slice(Box::new(erase_type(*elem))),
        TypeView::Tuple(elems) => TypeView::Tuple(erase_types(elems)),
        TypeView::Other(text) => TypeView::Other(text),
    }
}

pub open spec fn erase_types(s: Seq<TypeView>) -> Seq<TypeView>
    decreases s,
{
    if s.len() == 0 {
        Seq::empty()
    } else {
        erase_types(s.drop_last()).push(erase_type(s.last()))
    }
}

pub open spec fn erase_fn_args(s: Seq<FnArgView>) -> Seq<FnArgView>
    decreases s,
{
    if s.len() == 0 {
        Seq::empty()
    } else {
        erase_fn_args(s.drop_last()).push(FnArgView { label: s.last().label, ty: erase_type(s.last().ty) })
    }
}

pub open spec fn erase_return(r: ReturnView) -> ReturnView
    decreases r,
{
    match r {
        ReturnView::Default => ReturnView::Default,
        ReturnView::Type(ty) => ReturnView::Type(Box::new(erase_type(*ty))),
    }
}

pub open spec fn erase_path(p: PathView) -> PathView
    decreases p,
{
    PathView { leading_colon: p.leading_colon, segments: erase_segments(p.segments) }
}

pub open spec fn erase_segments(s: Seq<SegmentView>) -> Seq<SegmentView>
    decreases s,
{
    if s.len() == 0 {
        Seq::empty()
    } else {
        erase_segments(s.drop_last()).push(
            SegmentView { ident: s.last().ident, arguments: erase_arguments(s.last().arguments) },
        )
    }
}

pub open spec fn erase_arguments(a: ArgumentsView) -> ArgumentsView
    decreases a,
{
    match a {
        ArgumentsView::Empty => ArgumentsView::Empty,
        ArgumentsView::AngleBracketed(angle) => ArgumentsView::AngleBracketed(erase_angle(angle)),
        ArgumentsView::Parenthesized { inputs, output } => ArgumentsView::Parenthesized {
            inputs: erase_types(inputs),
            output: erase_return(output),
        },
    }
}

pub open spec fn erase_angle(a: AngleView) -> AngleView
    decreases a,
{
    AngleView { colon2: a.colon2, args: erase_generic_args(a.args) }
}

pub open spec fn erase_generic_args(s: Seq<GenericArgView>) -> Seq<GenericArgView>
    decreases s,
{
    if s.len() == 0 {
        Seq::empty()
    } else {
        erase_generic_args(s.drop_last()).push(erase_generic_arg(s.last()))
    }
}

pub open spec fn erase_generic_arg(g: GenericArgView) -> GenericArgView
    decreases g,
{
    match g {
        GenericArgView::Lifetime(_) => GenericArgView::Lifetime(LifetimeView::Static),
        GenericArgView::Type(ty) => GenericArgView::Type(erase_type(ty)),
        GenericArgView::AssocType { ident, generics, ty } => GenericArgView::AssocType {
            ident: ident,
            generics: match generics {
                Some(a) => Some(erase_angle(a)),
                None => None,
            },
            ty: erase_type(ty),
        },
        GenericArgView::Constraint { ident, generics, bounds } => GenericArgView::Constraint {
            ident: ident,
            generics: match generics {
                Some(a) => Some(erase_angle(a)),
                None => None,
            },
            bounds: bounds,
        },
        GenericArgView::Other(text) => GenericArgView::Other(text),
    }
}


fn clone_text(s: &Option<String>) -> (r: Option<String>)
    ensures
        text_view(r) == text_view(*s),
{
    match s {
        Some(t) => Some(t.clone()),
        None => None,
    }
}

/// The lifetime `'static`.
pub fn static_lifetime() -> (r: LifetimeShape)
    ensures
        lifetime_view(r) == LifetimeView::Static,
{
    LifetimeShape::Static
}

/// Erases the lifetimes of a function's return type.
pub fn erase_lifetimes_return_type(output: &ReturnShape) -> (r: ReturnShape)
    ensures
        return_view(r) == erase_return(return_view(*output)),
    decreases output,
{
    match output {
        ReturnShape::Default => ReturnShape::Default,
        ReturnShape::Type(ty) => ReturnShape::Type(Box::new(erase_lifetimes_type(ty))),
    }
}

/// Erases the lifetimes of a type: every reference and every lifetime argument
/// gets `'static`, and bare function types lose their lifetime binder.
pub fn erase_lifetimes_type(ty: &TypeShape) -> (r: TypeShape)
    ensures
        type_view(r) == erase_type(type_view(*ty)),
        forget_type(type_view(r)) == forget_type(type_view(*ty)),
        is_erased(type_view(r)),
    decreases ty,
{
    proof {
        law_erasure_changes_only_lifetimes(type_view(*ty));
        law_erasure_leaves_static_lifetimes(type_view(*ty));
    }
    match ty {
        TypeShape::Array { elem, len } => TypeShape::Array {
            elem: Box::new(erase_lifetimes_type(elem)),
            len: len.clone(),
        },
        TypeShape::BareFn { binder, unsafety, abi, inputs, variadic, output } => TypeShape::BareFn {
            binder: None,
            unsafety: *unsafety,
            abi: clone_text(abi),
            inputs: erase_lifetimes_fn_args(inputs),
            variadic: clone_text(variadic),
            output: erase_lifetimes_return_type(output),
        },
        TypeShape::Group(elem) => TypeShape::Group(Box::new(erase_lifetimes_type(elem))),
        TypeShape::Paren(elem) => TypeShape::Paren(Box::new(erase_lifetimes_type(elem))),
        TypeShape::Path { qself, path } => TypeShape::Path {
            qself: match qself {
                Some(q) => Some(
                    QSelfShape {
                        ty: Box::new(erase_lifetimes_type(&q.ty)),
                        position: q.position,
                        has_as: q.has_as,
                    },
                ),
                None => None,
            },
            path: erase_lifetimes_path(path),
        },
        TypeShape::Ptr { mutable, elem } => TypeShape::Ptr {
            mutable: *mutable,
            elem: Box::new(erase_lifetimes_type(elem)),
        },
        TypeShape::Reference { lifetime, mutable, elem } => TypeShape::Reference {
            lifetime: Some(static_lifetime()),
            mutable: *mutable,
            elem: Box::new(erase_lifetimes_type(elem)),
        },
        TypeShape::Slice(elem) => TypeShape::Slice(Box::new(erase_lifetimes_type(elem))),
        TypeShape::Tuple(elems) => TypeShape::Tuple(erase_lifetimes_types(elems)),
        TypeShape::Other(text) => TypeShape::Other(text.clone()),
    }
}

fn erase_lifetimes_types(elems: &Vec<TypeShape>) -> (r: Vec<TypeShape>)
    ensures
        types_view(r@) == erase_types(types_view(elems@)),
    decreases elems,
{
    let mut out: Vec<TypeShape> = Vec::new();
    let mut i: usize = 0;
    while i < elems.len()
        invariant
            i <= elems.len(),
            types_view(out@) == erase_types(types_view(elems@.take(i as int))),
        decreases elems.len() - i,
    {
        assert(decreases_to!(elems => elems@[i as int]));
        let e = erase_lifetimes_type(&elems[i]);
        proof {
            let pre = elems@.take(i as int);
            let next = elems@.take(i + 1);
            assert(next.drop_last() =~= pre);
            assert(next.last() == elems@[i as int]);
            assert(types_view(next) == types_view(pre).push(type_view(elems@[i as int])));
            let pv = types_view(pre);
            assert(pv.push(type_view(elems@[i as int])).drop_last() =~= pv);
            assert(erase_types(pv.push(type_view(elems@[i as int]))) == erase_types(pv).push(erase_type(type_view(elems@[i as int]))));
            assert(out@.push(e).drop_last() =~= out@);
        }
        out.push(e);
        i = i + 1;
    }
    assert(elems@.take(elems.len() as int) =~= elems@);
    out
}

fn erase_lifetimes_fn_args(args: &Vec<FnArgShape>) -> (r: Vec<FnArgShape>)
    ensures
        fn_args_view(r@) == erase_fn_args(fn_args_view(args@)),
    decreases args,
{
    let mut out: Vec<FnArgShape> = Vec::new();
    let mut i: usize = 0;
    while i < args.len()
        invariant
            i <= args.len(),
            fn_args_view(out@) == erase_fn_args(fn_args_view(args@.take(i as int))),
        decreases args.len() - i,
    {
        assert(decreases_to!(args => args@[i as int].ty));
        let a = FnArgShape { label: clone_text(&args[i].label), ty: erase_lifetimes_type(&args[i].ty) };
        proof {
            let pre = args@.take(i as int);
            let next = args@.take(i + 1);
            assert(next.drop_last() =~= pre);
            assert(next.last() == args@[i as int]);
            assert(fn_args_view(next) == fn_args_view(pre).push(FnArgView { label: text_view(args@[i as int].label), ty: type_view(args@[i as int].ty) }));
            let pv = fn_args_view(pre);
            assert(pv.push(FnArgView { label: text_view(args@[i as int].label), ty: type_view(args@[i as int].ty) }).drop_last() =~= pv);
            assert(erase_fn_args(pv.push(FnArgView { label: text_view(args@[i as int].label), ty: type_view(args@[i as int].ty) })) == erase_fn_args(pv).push(FnArgView { label: text_view(args@[i as int].label), ty: erase_type(type_view(args@[i as int].ty)) }));
            assert(out@.push(a).drop_last() =~= out@);
        }
        out.push(a);
        i = i + 1;
    }
    assert(args@.take(args.len() as int) =~= args@);
    out
}

/// Erases the lifetimes of every segment of a path.
pub fn erase_lifetimes_path(path: &PathShape) -> (r: PathShape)
    ensures
        path_view(r) == erase_path(path_view(*path)),
    decreases path,
{
    let segments = &path.segments;
    let mut out: Vec<SegmentShape> = Vec::new();
    let mut i: usize = 0;
    while i < segments.len()
        invariant
            i <= segments.len(),
            segments == &path.segments,
            segments_view(out@) == erase_segments(segments_view(segments@.take(i as int))),
        decreases segments.len() - i,
    {
        assert(decreases_to!(path => path.segments@[i as int].arguments));
        let seg = SegmentShape {
            ident: segments[i].ident.clone(),
            arguments: erase_lifetimes_path_arguments(&segments[i].arguments),
        };
        proof {
            let pre = segments@.take(i as int);
            let next = segments@.take(i + 1);
            assert(next.drop_last() =~= pre);
            assert(next.last() == segments@[i as int]);
            assert(segments_view(next) == segments_view(pre).push(SegmentView { ident: segments@[i as int].ident@, arguments: arguments_view(segments@[i as int].arguments) }));
            let pv = segments_view(pre);
            assert(pv.push(SegmentView { ident: segments@[i as int].ident@, arguments: arguments_view(segments@[i as int].arguments) }).drop_last() =~= pv);
            assert(erase_segments(pv.push(SegmentView { ident: segments@[i as int].ident@, arguments: arguments_view(segments@[i as int].arguments) })) == erase_segments(pv).push(SegmentView { ident: segments@[i as int].ident@, arguments: erase_arguments(arguments_view(segments@[i as int].arguments)) }));
            assert(out@.push(seg).drop_last() =~= out@);
        }
        out.push(seg);
        i = i + 1;
    }
    assert(segments@.take(segments.len() as int) =~= segments@);
    PathShape { leading_colon: path.leading_colon, segments: out }
}

/// Erases the lifetimes of a path segment's arguments.
pub fn erase_lifetimes_path_arguments(arguments: &ArgumentsShape) -> (r: ArgumentsShape)
    ensures
        arguments_view(r) == erase_arguments(arguments_view(*arguments)),
    decreases arguments,
{
    match arguments {
        ArgumentsShape::Empty => ArgumentsShape::Empty,
        ArgumentsShape::AngleBracketed(angle) => ArgumentsShape::AngleBracketed(
            erase_lifetimes_angle_arguments(angle),
        ),
        ArgumentsShape::Parenthesized { inputs, output } => ArgumentsShape::Parenthesized {
            inputs: erase_lifetimes_types(inputs),
            output: erase_lifetimes_return_type(output),
        },
    }
}

/// Erases the lifetimes of angle-bracketed generic arguments.
pub fn erase_lifetimes_angle_arguments(arguments: &AngleShape) -> (r: AngleShape)
    ensures
        angle_view(r) == erase_angle(angle_view(*arguments)),
    decreases arguments,
{
    let args = &arguments.args;
    let mut out: Vec<GenericArgShape> = Vec::new();
    let mut i: usize = 0;
    while i < args.len()
        invariant
            i <= args.len(),
            args == &arguments.args,
            generic_args_view(out@) == erase_generic_args(generic_args_view(args@.take(i as int))),
        decreases args.len() - i,
    {
        assert(decreases_to!(arguments => arguments.args@[i as int]));
        let g = erase_lifetimes_generic_argument(&args[i]);
        proof {
            let pre = args@.take(i as int);
            let next = args@.take(i + 1);
            assert(next.drop_last() =~= pre);
            assert(next.last() == args@[i as int]);
            assert(generic_args_view(next) == generic_args_view(pre).push(generic_arg_view(args@[i as int])));
            let pv = generic_args_view(pre);
            assert(pv.push(generic_arg_view(args@[i as int])).drop_last() =~= pv);
            assert(erase_generic_args(pv.push(generic_arg_view(args@[i as int]))) == erase_generic_args(pv).push(erase_generic_arg(generic_arg_view(args@[i as int]))));
            assert(out@.push(g).drop_last() =~= out@);
        }
        out.push(g);
        i = i + 1;
    }
    assert(args@.take(args.len() as int) =~= args@);
    AngleShape { colon2: arguments.colon2, args: out }
}

/// Erases the lifetimes of one generic argument: a lifetime argument becomes `'static`.
pub fn erase_lifetimes_generic_argument(argument: &GenericArgShape) -> (r: GenericArgShape)
    ensures
        generic_arg_view(r) == erase_generic_arg(generic_arg_view(*argument)),
    decreases argument,
{
    match argument {
        GenericArgShape::Lifetime(_) => GenericArgShape::Lifetime(static_lifetime()),
        GenericArgShape::Type(ty) => GenericArgShape::Type(erase_lifetimes_type(ty)),
        GenericArgShape::AssocType { ident, generics, ty } => GenericArgShape::AssocType {
            ident: ident.clone(),
            generics: match generics {
                Some(a) => Some(erase_lifetimes_angle_arguments(a)),
                None => None,
            },
            ty: erase_lifetimes_type(ty),
        },
        GenericArgShape::Constraint { ident, generics, bounds } => GenericArgShape::Constraint {
            ident: ident.clone(),
            generics: match generics {
                Some(a) => Some(erase_lifetimes_angle_arguments(a)),
                None => None,
            },
            bounds: bounds.clone(),
        },
        GenericArgShape::Other(text) => GenericArgShape::Other(text.clone()),
    }
}


// ---------------------------------------------------------------------------
// What erasure leaves.

/// Whether every lifetime that a type names in a reference or a generic
/// argument is `'static`, every reference names one, and no bare function
/// type binds lifetimes.
pub open spec fn is_erased(t: TypeView) -> bool
    decreases t,
{
    match t {
        TypeView::Array { elem, len } => is_erased(*elem),
        TypeView::BareFn { binder, unsafety, abi, inputs, variadic, output } => binder is None
            && fn_args_erased(inputs) && return_erased(output),
        TypeView::Group(elem) => is_erased(*elem),
        TypeView::Paren(elem) => is_erased(*elem),
        TypeView::Path { qself, path } => (match qself {
            Some(q) => is_erased(*q.ty),
            None => true,
        }) && path_erased(path),
        TypeView::Ptr { mutable, elem } => is_erased(*elem),
        TypeView::Reference { lifetime, mutable, elem } => lifetime == Some(LifetimeView::Static)
            && is_erased(*elem),
        TypeView::Slice(elem) => is_erased(*elem),
        TypeView::Tuple(elems) => types_erased(elems),
        TypeView::Other(text) => true,
    }
}

pub open spec fn types_erased(s: Seq<TypeView>) -> bool
    decreases s,
{
    s.len() == 0 || (types_erased(s.drop_last()) && is_erased(s.last()))
}

pub open spec fn fn_args_erased(s: Seq<FnArgView>) -> bool
    decreases s,
{
    s.len() == 0 || (fn_args_erased(s.drop_last()) && is_erased(s.last().ty))
}

pub open spec fn return_erased(r: ReturnView) -> bool
    decreases r,
{
    match r {
        ReturnView::Default => true,
        ReturnView::Type(ty) => is_erased(*ty),
    }
}

pub open spec fn path_erased(p: PathView) -> bool
    decreases p,
{
    segments_erased(p.segments)
}

pub open spec fn segments_erased(s: Seq<SegmentView>) -> bool
    decreases s,
{
    s.len() == 0 || (segments_erased(s.drop_last()) && arguments_erased(s.last().arguments))
}

pub open spec fn arguments_erased(a: ArgumentsView) -> bool
    decreases a,
{
    match a {
        ArgumentsView::Empty => true,
        ArgumentsView::AngleBracketed(angle) => angle_erased(angle),
        ArgumentsView::Parenthesized { inputs, output } => types_erased(inputs) && return_erased(output),
    }
}

pub open spec fn angle_erased(a: AngleView) -> bool
    decreases a,
{
    generic_args_erased(a.args)
}

pub open spec fn generic_args_erased(s: Seq<GenericArgView>) -> bool
    decreases s,
{
    s.len() == 0 || (generic_args_erased(s.drop_last()) && generic_arg_erased(s.last()))
}

pub open spec fn generic_arg_erased(g: GenericArgView) -> bool
    decreases g,
{
    match g {
        GenericArgView::Lifetime(l) => l == LifetimeView::Static,
        GenericArgView::Type(ty) => is_erased(ty),
        GenericArgView::AssocType { ident, generics, ty } => (match generics {
            Some(a) => angle_erased(a),
            None => true,
        }) && is_erased(ty),
        GenericArgView::Constraint { ident, generics, bounds } => match generics {
            Some(a) => angle_erased(a),
            None => true,
        },
        GenericArgView::Other(text) => true,
    }
}

/// Erasure leaves no lifetime but `'static` in references and generic
/// arguments, and no lifetime binder on bare function types.
pub proof fn law_erasure_leaves_static_lifetimes(t: TypeView)
    ensures
        is_erased(erase_type(t)),
    decreases t,
{
    match t {
        TypeView::Array { elem, len } => law_erasure_leaves_static_lifetimes(*elem),
        TypeView::BareFn { binder, unsafety, abi, inputs, variadic, output } => {
            lemma_erase_fn_args_erased(inputs);
            lemma_erase_return_erased(output);
        },
        TypeView::Group(elem) => law_erasure_leaves_static_lifetimes(*elem),
        TypeView::Paren(elem) => law_erasure_leaves_static_lifetimes(*elem),
        TypeView::Path { qself, path } => {
            if let Some(q) = qself {
                law_erasure_leaves_static_lifetimes(*q.ty);
            }
            lemma_erase_segments_erased(path.segments);
            assert(erase_path(path).segments == erase_segments(path.segments));
            assert(path_erased(erase_path(path)));
        },
        TypeView::Ptr { mutable, elem } => law_erasure_leaves_static_lifetimes(*elem),
        TypeView::Reference { lifetime, mutable, elem } => law_erasure_leaves_static_lifetimes(*elem),
        TypeView::Slice(elem) => law_erasure_leaves_static_lifetimes(*elem),
        TypeView::Tuple(elems) => lemma_erase_types_erased(elems),
        TypeView::Other(text) => {},
    }
}

pub proof fn lemma_erase_types_erased(s: Seq<TypeView>)
    ensures
        types_erased(erase_types(s)),
    decreases s,
{
    if s.len() > 0 {
        lemma_erase_types_erased(s.drop_last());
        law_erasure_leaves_static_lifetimes(s.last());
        let r = erase_types(s);
        assert(r.drop_last() =~= erase_types(s.drop_last()));
    }
}

pub proof fn lemma_erase_fn_args_erased(s: Seq<FnArgView>)
    ensures
        fn_args_erased(erase_fn_args(s)),
    decreases s,
{
    if s.len() > 0 {
        lemma_erase_fn_args_erased(s.drop_last());
        law_erasure_leaves_static_lifetimes(s.last().ty);
        let r = erase_fn_args(s);
        assert(r.drop_last() =~= erase_fn_args(s.drop_last()));
    }
}

pub proof fn lemma_erase_return_erased(r: ReturnView)
    ensures
        return_erased(erase_return(r)),
    decreases r,
{
    if let ReturnView::Type(ty) = r {
        law_erasure_leaves_static_lifetimes(*ty);
    }
}

pub proof fn lemma_erase_segments_erased(s: Seq<SegmentView>)
    ensures
        segments_erased(erase_segments(s)),
    decreases s,
{
    if s.len() > 0 {
        lemma_erase_segments_erased(s.drop_last());
        lemma_erase_arguments_erased(s.last().arguments);
        let r = erase_segments(s);
        assert(r.drop_last() =~= erase_segments(s.drop_last()));
    }
}

pub proof fn lemma_erase_arguments_erased(a: ArgumentsView)
    ensures
        arguments_erased(erase_arguments(a)),
    decreases a,
{
    match a {
        ArgumentsView::Empty => {},
        ArgumentsView::AngleBracketed(angle) => lemma_erase_generic_args_erased(angle.args),
        ArgumentsView::Parenthesized { inputs, output } => {
            lemma_erase_types_erased(inputs);
            lemma_erase_return_erased(output);
        },
    }
}

pub proof fn lemma_erase_generic_args_erased(s: Seq<GenericArgView>)
    ensures
        generic_args_erased(erase_generic_args(s)),
    decreases s,
{
    if s.len() > 0 {
        lemma_erase_generic_args_erased(s.drop_last());
        lemma_erase_generic_arg_erased(s.last());
        let r = erase_generic_args(s);
        assert(r.drop_last() =~= erase_generic_args(s.drop_last()));
    }
}

pub proof fn lemma_erase_generic_arg_erased(g: GenericArgView)
    ensures
        generic_arg_erased(erase_generic_arg(g)),
    decreases g,
{
    match g {
        GenericArgView::Lifetime(_) => {},
        GenericArgView::Type(ty) => law_erasure_leaves_static_lifetimes(ty),
        GenericArgView::AssocType { ident, generics, ty } => {
            if let Some(a) = generics {
                lemma_erase_generic_args_erased(a.args);
            }
            law_erasure_leaves_static_lifetimes(ty);
        },
        GenericArgView::Constraint { ident, generics, bounds } => {
            if let Some(a) = generics {
                lemma_erase_generic_args_erased(a.args);
            }
        },
        GenericArgView::Other(text) => {},
    }
}


/// A type that already has only `'static` lifetimes is left as it is.
pub proof fn law_erasure_fixes_erased_types(t: TypeView)
    requires
        is_erased(t),
    ensures
        erase_type(t) == t,
    decreases t,
{
    match t {
        TypeView::Array { elem, len } => law_erasure_fixes_erased_types(*elem),
        TypeView::BareFn { binder, unsafety, abi, inputs, variadic, output } => {
            lemma_erased_fn_args_fixed(inputs);
            lemma_erased_return_fixed(output);
        },
        TypeView::Group(elem) => law_erasure_fixes_erased_types(*elem),
        TypeView::Paren(elem) => law_erasure_fixes_erased_types(*elem),
        TypeView::Path { qself, path } => {
            if let Some(q) = qself {
                law_erasure_fixes_erased_types(*q.ty);
            }
            assert(path_erased(path));
            assert(segments_erased(path.segments));
            lemma_erased_segments_fixed(path.segments);
            assert(erase_path(path) == path);
        },
        TypeView::Ptr { mutable, elem } => law_erasure_fixes_erased_types(*elem),
        TypeView::Reference { lifetime, mutable, elem } => law_erasure_fixes_erased_types(*elem),
        TypeView::Slice(elem) => law_erasure_fixes_erased_types(*elem),
        TypeView::Tuple(elems) => lemma_erased_types_fixed(elems),
        TypeView::Other(text) => {},
    }
}

pub proof fn lemma_erased_types_fixed(s: Seq<TypeView>)
    requires
        types_erased(s),
    ensures
        erase_types(s) == s,
    decreases s,
{
    if s.len() > 0 {
        lemma_erased_types_fixed(s.drop_last());
        law_erasure_fixes_erased_types(s.last());
        assert(erase_types(s) =~= s);
    }
}

pub proof fn lemma_erased_fn_args_fixed(s: Seq<FnArgView>)
    requires
        fn_args_erased(s),
    ensures
        erase_fn_args(s) == s,
    decreases s,
{
    if s.len() > 0 {
        lemma_erased_fn_args_fixed(s.drop_last());
        law_erasure_fixes_erased_types(s.last().ty);
        assert(erase_fn_args(s) =~= s);
    }
}

pub proof fn lemma_erased_return_fixed(r: ReturnView)
    requires
        return_erased(r),
    ensures
        erase_return(r) == r,
    decreases r,
{
    if let ReturnView::Type(ty) = r {
        law_erasure_fixes_erased_types(*ty);
    }
}

pub proof fn lemma_erased_segments_fixed(s: Seq<SegmentView>)
    requires
        segments_erased(s),
    ensures
        erase_segments(s) == s,
    decreases s,
{
    if s.len() > 0 {
        lemma_erased_segments_fixed(s.drop_last());
        lemma_erased_arguments_fixed(s.last().arguments);
        assert(erase_segments(s) =~= s);
    }
}

pub proof fn lemma_erased_arguments_fixed(a: ArgumentsView)
    requires
        arguments_erased(a),
    ensures
        erase_arguments(a) == a,
    decreases a,
{
    match a {
        ArgumentsView::Empty => {},
        ArgumentsView::AngleBracketed(angle) => lemma_erased_generic_args_fixed(angle.args),
        ArgumentsView::Parenthesized { inputs, output } => {
            lemma_erased_types_fixed(inputs);
            lemma_erased_return_fixed(output);
        },
    }
}

pub proof fn lemma_erased_generic_args_fixed(s: Seq<GenericArgView>)
    requires
        generic_args_erased(s),
    ensures
        erase_generic_args(s) == s,
    decreases s,
{
    if s.len() > 0 {
        lemma_erased_generic_args_fixed(s.drop_last());
        lemma_erased_generic_arg_fixed(s.last());
        assert(erase_generic_args(s) =~= s);
    }
}

pub proof fn lemma_erased_generic_arg_fixed(g: GenericArgView)
    requires
        generic_arg_erased(g),
    ensures
        erase_generic_arg(g) == g,
    decreases g,
{
    match g {
        GenericArgView::Lifetime(_) => {},
        GenericArgView::Type(ty) => law_erasure_fixes_erased_types(ty),
        GenericArgView::AssocType { ident, generics, ty } => {
            if let Some(a) = generics {
                lemma_erased_generic_args_fixed(a.args);
            }
            law_erasure_fixes_erased_types(ty);
        },
        GenericArgView::Constraint { ident, generics, bounds } => {
            if let Some(a) = generics {
                lemma_erased_generic_args_fixed(a.args);
            }
        },
        GenericArgView::Other(text) => {},
    }
}

/// Erasing twice is erasing once.
pub proof fn law_erasure_idempotent(t: TypeView)
    ensures
        erase_type(erase_type(t)) == erase_type(t),
{
    law_erasure_leaves_static_lifetimes(t);
    law_erasure_fixes_erased_types(erase_type(t));
}

/// `t` with every lifetime forgotten: references carry no lifetime, lifetime
/// arguments are all `'static`, and bare function types have no binder. Two
/// types with the same forgotten form differ at most in their lifetimes.
pub open spec fn forget_type(t: TypeView) -> TypeView
    decreases t,
{
    match t {
        TypeView::Array { elem, len } => TypeView::Array { elem: Box::new(forget_type(*elem)), len: len },
        TypeView::BareFn { binder, unsafety, abi, inputs, variadic, output } => TypeView::BareFn {
            binder: None,
            unsafety: unsafety,
            abi: abi,
            inputs: forget_fn_args(inputs),
            variadic: variadic,
            output: forget_return(output),
        },
        TypeView::Group(elem) => TypeView::Group(Box::new(forget_type(*elem))),
        TypeView::Paren(elem) => TypeView::Paren(Box::new(forget_type(*elem))),
        TypeView::Path { qself, path } => TypeView::Path {
            qself: match qself {
                Some(q) => Some(QSelfView { ty: Box::new(forget_type(*q.ty)), position: q.position, has_as: q.has_as }),
                None => None,
            },
            path: PathView { leading_colon: path.leading_colon, segments: forget_segments(path.segments) },
        },
        TypeView::Ptr { mutable, elem } => TypeView::Ptr { mutable: mutable, elem: Box::new(forget_type(*elem)) },
        TypeView::Reference { lifetime, mutable, elem } => TypeView::Reference {
            lifetime: None,
            mutable: mutable,
            elem: Box::new(forget_type(*elem)),
        },
        TypeView::Slice(elem) => TypeView::Slice(Box::new(forget_type(*elem))),
        TypeView::Tuple(elems) => TypeView::Tuple(forget_types(elems)),
        TypeView::Other(text) => TypeView::Other(text),
    }
}

pub open spec fn forget_types(s: Seq<TypeView>) -> Seq<TypeView>
    decreases s,
{
    if s.len() == 0 {
        Seq::empty()
    } else {
        forget_types(s.drop_last()).push(forget_type(s.last()))
    }
}

pub open spec fn forget_fn_args(s: Seq<FnArgView>) -> Seq<FnArgView>
    decreases s,
{
    if s.len() == 0 {
        Seq::empty()
    } else {
        forget_fn_args(s.drop_last()).push(FnArgView { label: s.last().label, ty: forget_type(s.last().ty) })
    }
}

pub open spec fn forget_return(r: ReturnView) -> ReturnView
    decreases r,
{
    match r {
        ReturnView::Default => ReturnView::Default,
        ReturnView::Type(ty) => ReturnView::Type(Box::new(forget_type(*ty))),
    }
}

pub open spec fn forget_segments(s: Seq<SegmentView>) -> Seq<SegmentView>
    decreases s,
{
    if s.len() == 0 {
        Seq::empty()
    } else {
        forget_segments(s.drop_last()).push(
            SegmentView { ident: s.last().ident, arguments: forget_arguments(s.last().arguments) },
        )
    }
}

pub open spec fn forget_arguments(a: ArgumentsView) -> ArgumentsView
    decreases a,
{
    match a {
        ArgumentsView::Empty => ArgumentsView::Empty,
        ArgumentsView::AngleBracketed(angle) => ArgumentsView::AngleBracketed(
            AngleView { colon2: angle.colon2, args: forget_generic_args(angle.args) },
        ),
        ArgumentsView::Parenthesized { inputs, output } => ArgumentsView::Parenthesized {
            inputs: forget_types(inputs),
            output: forget_return(output),
        },
    }
}

pub open spec fn forget_generic_args(s: Seq<GenericArgView>) -> Seq<GenericArgView>
    decreases s,
{
    if s.len() == 0 {
        Seq::empty()
    } else {
        forget_generic_args(s.drop_last()).push(forget_generic_arg(s.last()))
    }
}

pub open spec fn forget_generic_arg(g: GenericArgView) -> GenericArgView
    decreases g,
{
    match g {
        GenericArgView::Lifetime(_) => GenericArgView::Lifetime(LifetimeView::Static),
        GenericArgView::Type(ty) => GenericArgView::Type(forget_type(ty)),
        GenericArgView::AssocType { ident, generics, ty } => GenericArgView::AssocType {
            ident: ident,
            generics: match generics {
                Some(a) => Some(AngleView { colon2: a.colon2, args: forget_generic_args(a.args) }),
                None => None,
            },
            ty: forget_type(ty),
        },
        GenericArgView::Constraint { ident, generics, bounds } => GenericArgView::Constraint {
            ident: ident,
            generics: match generics {
                Some(a) => Some(AngleView { colon2: a.colon2, args: forget_generic_args(a.args) }),
                None => None,
            },
            bounds: bounds,
        },
        GenericArgView::Other(text) => GenericArgView::Other(text),
    }
}

/// Erasure changes nothing but lifetimes: a type and its erasure agree once
/// lifetimes are forgotten. Every reference keeps its mutability and its
/// element, every pointer, array, slice, tuple, path and function type its
/// parts. With `law_erasure_leaves_static_lifetimes`, this fixes the erased
/// type completely.
pub proof fn law_erasure_changes_only_lifetimes(t: TypeView)
    ensures
        forget_type(erase_type(t)) == forget_type(t),
    decreases t,
{
    match t {
        TypeView::Array { elem, len } => law_erasure_changes_only_lifetimes(*elem),
        TypeView::BareFn { binder, unsafety, abi, inputs, variadic, output } => {
            lemma_forget_erase_fn_args(inputs);
            lemma_forget_erase_return(output);
        },
        TypeView::Group(elem) => law_erasure_changes_only_lifetimes(*elem),
        TypeView::Paren(elem) => law_erasure_changes_only_lifetimes(*elem),
        TypeView::Path { qself, path } => {
            if let Some(q) = qself {
                law_erasure_changes_only_lifetimes(*q.ty);
            }
            lemma_forget_erase_segments(path.segments);
            assert(erase_path(path).segments == erase_segments(path.segments));
            assert(erase_path(path).leading_colon == path.leading_colon);
        },
        TypeView::Ptr { mutable, elem } => law_erasure_changes_only_lifetimes(*elem),
        TypeView::Reference { lifetime, mutable, elem } => law_erasure_changes_only_lifetimes(*elem),
        TypeView::Slice(elem) => law_erasure_changes_only_lifetimes(*elem),
        TypeView::Tuple(elems) => lemma_forget_erase_types(elems),
        TypeView::Other(text) => {},
    }
}

pub proof fn lemma_forget_erase_types(s: Seq<TypeView>)
    ensures
        forget_types(erase_types(s)) == forget_types(s),
    decreases s,
{
    if s.len() > 0 {
        lemma_forget_erase_types(s.drop_last());
        law_erasure_changes_only_lifetimes(s.last());
        let r = erase_types(s);
        assert(r.drop_last() =~= erase_types(s.drop_last()));
        assert(forget_types(r) =~= forget_types(s));
    }
}

pub proof fn lemma_forget_erase_fn_args(s: Seq<FnArgView>)
    ensures
        forget_fn_args(erase_fn_args(s)) == forget_fn_args(s),
    decreases s,
{
    if s.len() > 0 {
        lemma_forget_erase_fn_args(s.drop_last());
        law_erasure_changes_only_lifetimes(s.last().ty);
        let r = erase_fn_args(s);
        assert(r.drop_last() =~= erase_fn_args(s.drop_last()));
        assert(forget_fn_args(r) =~= forget_fn_args(s));
    }
}

pub proof fn lemma_forget_erase_return(r: ReturnView)
    ensures
        forget_return(erase_return(r)) == forget_return(r),
    decreases r,
{
    if let ReturnView::Type(ty) = r {
        law_erasure_changes_only_lifetimes(*ty);
    }
}

pub proof fn lemma_forget_erase_segments(s: Seq<SegmentView>)
    ensures
        forget_segments(erase_segments(s)) == forget_segments(s),
    decreases s,
{
    if s.len() > 0 {
        lemma_forget_erase_segments(s.drop_last());
        lemma_forget_erase_arguments(s.last().arguments);
        let r = erase_segments(s);
        assert(r.drop_last() =~= erase_segments(s.drop_last()));
        assert(forget_segments(r) =~= forget_segments(s));
    }
}

pub proof fn lemma_forget_erase_arguments(a: ArgumentsView)
    ensures
        forget_arguments(erase_arguments(a)) == forget_arguments(a),
    decreases a,
{
    match a {
        ArgumentsView::Empty => {},
        ArgumentsView::AngleBracketed(angle) => lemma_forget_erase_generic_args(angle.args),
        ArgumentsView::Parenthesized { inputs, output } => {
            lemma_forget_erase_types(inputs);
            lemma_forget_erase_return(output);
        },
    }
}

pub proof fn lemma_forget_erase_generic_args(s: Seq<GenericArgView>)
    ensures
        forget_generic_args(erase_generic_args(s)) == forget_generic_args(s),
    decreases s,
{
    if s.len() > 0 {
        lemma_forget_erase_generic_args(s.drop_last());
        lemma_forget_erase_generic_arg(s.last());
        let r = erase_generic_args(s);
        assert(r.drop_last() =~= erase_generic_args(s.drop_last()));
        assert(forget_generic_args(r) =~= forget_generic_args(s));
    }
}

pub proof fn lemma_forget_erase_generic_arg(g: GenericArgView)
    ensures
        forget_generic_arg(erase_generic_arg(g)) == forget_generic_arg(g),
    decreases g,
{
    match g {
        GenericArgView::Lifetime(_) => {},
        GenericArgView::Type(ty) => law_erasure_changes_only_lifetimes(ty),
        GenericArgView::AssocType { ident, generics, ty } => {
            if let Some(a) = generics {
                lemma_forget_erase_generic_args(a.args);
            }
            law_erasure_changes_only_lifetimes(ty);
        },
        GenericArgView::Constraint { ident, generics, bounds } => {
            if let Some(a) = generics {
                lemma_forget_erase_generic_args(a.args);
            }
        },
        GenericArgView::Other(text) => {},
    }
}

/// Erasing a reference gives a `'static` reference of the same mutability to
/// the erased element, whatever the lifetime it had.
pub proof fn law_erased_references_keep_mutability(lifetime: Option<LifetimeView>, mutable: bool, elem: TypeView)
    ensures
        erase_type(TypeView::Reference { lifetime, mutable, elem: Box::new(elem) }) matches TypeView::Reference {
            lifetime: l,
            mutable: m,
            elem: e,
        } && l == Some(LifetimeView::Static) && m == mutable && forget_type(*e) == forget_type(elem),
{
    law_erasure_changes_only_lifetimes(elem);
}

/// Two types that have only `'static` lifetimes and agree once lifetimes are
/// forgotten are the same type. So an erased type is fixed by the type it was
/// erased from: with `law_erasure_leaves_static_lifetimes` and
/// `law_erasure_changes_only_lifetimes`, erasure has exactly one answer.
pub proof fn law_erased_types_are_fixed_by_their_form(a: TypeView, b: TypeView)
    requires
        is_erased(a),
        is_erased(b),
        forget_type(a) == forget_type(b),
    ensures
        a == b,
    decreases a,
{
    match (a, b) {
        (TypeView::Array { elem: x, len: _ }, TypeView::Array { elem: y, len: _ }) => {
            law_erased_types_are_fixed_by_their_form(*x, *y);
        },
        (
            TypeView::BareFn { binder: _, unsafety: _, abi: _, inputs: i1, variadic: _, output: o1 },
            TypeView::BareFn { binder: _, unsafety: _, abi: _, inputs: i2, variadic: _, output: o2 },
        ) => {
            lemma_erased_fn_args_fixed_by_form(i1, i2);
            lemma_erased_return_fixed_by_form(o1, o2);
        },
        (TypeView::Group(x), TypeView::Group(y)) => law_erased_types_are_fixed_by_their_form(*x, *y),
        (TypeView::Paren(x), TypeView::Paren(y)) => law_erased_types_are_fixed_by_their_form(*x, *y),
        (TypeView::Path { qself: q1, path: p1 }, TypeView::Path { qself: q2, path: p2 }) => {
            match (q1, q2) {
                (Some(x), Some(y)) => {
                    law_erased_types_are_fixed_by_their_form(*x.ty, *y.ty);
                },
                _ => {},
            }
            assert(path_erased(p1) && path_erased(p2));
            assert(forget_segments(p1.segments) == forget_segments(p2.segments));
            lemma_erased_segments_fixed_by_form(p1.segments, p2.segments);
        },
        (TypeView::Ptr { mutable: _, elem: x }, TypeView::Ptr { mutable: _, elem: y }) => {
            law_erased_types_are_fixed_by_their_form(*x, *y);
        },
        (
            TypeView::Reference { lifetime: _, mutable: _, elem: x },
            TypeView::Reference { lifetime: _, mutable: _, elem: y },
        ) => {
            law_erased_types_are_fixed_by_their_form(*x, *y);
        },
        (TypeView::Slice(x), TypeView::Slice(y)) => law_erased_types_are_fixed_by_their_form(*x, *y),
        (TypeView::Tuple(x), TypeView::Tuple(y)) => lemma_erased_types_fixed_by_form(x, y),
        _ => {},
    }
}

pub proof fn lemma_erased_types_fixed_by_form(a: Seq<TypeView>, b: Seq<TypeView>)
    requires
        types_erased(a),
        types_erased(b),
        forget_types(a) == forget_types(b),
    ensures
        a == b,
    decreases a,
{
    if a.len() == 0 {
        if b.len() > 0 {
            assert(forget_types(b).len() > 0);
        }
        assert(a =~= b);
    } else {
        if b.len() == 0 {
            assert(forget_types(a).len() > 0);
        }
        assert(forget_types(a).drop_last() =~= forget_types(a.drop_last()));
        assert(forget_types(b).drop_last() =~= forget_types(b.drop_last()));
        assert(forget_types(a).last() == forget_type(a.last()));
        assert(forget_types(b).last() == forget_type(b.last()));
        lemma_erased_types_fixed_by_form(a.drop_last(), b.drop_last());
        law_erased_types_are_fixed_by_their_form(a.last(), b.last());
        assert(a =~= b.drop_last().push(b.last()));
        assert(b =~= b.drop_last().push(b.last()));
    }
}

pub proof fn lemma_erased_fn_args_fixed_by_form(a: Seq<FnArgView>, b: Seq<FnArgView>)
    requires
        fn_args_erased(a),
        fn_args_erased(b),
        forget_fn_args(a) == forget_fn_args(b),
    ensures
        a == b,
    decreases a,
{
    if a.len() == 0 {
        if b.len() > 0 {
            assert(forget_fn_args(b).len() > 0);
        }
        assert(a =~= b);
    } else {
        if b.len() == 0 {
            assert(forget_fn_args(a).len() > 0);
        }
        assert(forget_fn_args(a).drop_last() =~= forget_fn_args(a.drop_last()));
        assert(forget_fn_args(b).drop_last() =~= forget_fn_args(b.drop_last()));
        assert(forget_fn_args(a).last() == forget_fn_args(b).last());
        assert(forget_fn_args(a).last().ty == forget_type(a.last().ty));
        assert(forget_fn_args(b).last().ty == forget_type(b.last().ty));
        assert(forget_fn_args(a).last().label == a.last().label);
        assert(forget_fn_args(b).last().label == b.last().label);
        lemma_erased_fn_args_fixed_by_form(a.drop_last(), b.drop_last());
        law_erased_types_are_fixed_by_their_form(a.last().ty, b.last().ty);
        assert(a =~= b.drop_last().push(b.last()));
        assert(b =~= b.drop_last().push(b.last()));
    }
}

pub proof fn lemma_erased_return_fixed_by_form(a: ReturnView, b: ReturnView)
    requires
        return_erased(a),
        return_erased(b),
        forget_return(a) == forget_return(b),
    ensures
        a == b,
    decreases a,
{
    match (a, b) {
        (ReturnView::Type(x), ReturnView::Type(y)) => law_erased_types_are_fixed_by_their_form(*x, *y),
        _ => {},
    }
}

pub proof fn lemma_erased_segments_fixed_by_form(a: Seq<SegmentView>, b: Seq<SegmentView>)
    requires
        segments_erased(a),
        segments_erased(b),
        forget_segments(a) == forget_segments(b),
    ensures
        a == b,
    decreases a,
{
    if a.len() == 0 {
        if b.len() > 0 {
            assert(forget_segments(b).len() > 0);
        }
        assert(a =~= b);
    } else {
        if b.len() == 0 {
            assert(forget_segments(a).len() > 0);
        }
        assert(forget_segments(a).drop_last() =~= forget_segments(a.drop_last()));
        assert(forget_segments(b).drop_last() =~= forget_segments(b.drop_last()));
        assert(forget_segments(a).last() == forget_segments(b).last());
        assert(forget_segments(a).last().arguments == forget_arguments(a.last().arguments));
        assert(forget_segments(b).last().arguments == forget_arguments(b.last().arguments));
        assert(forget_segments(a).last().ident == a.last().ident);
        assert(forget_segments(b).last().ident == b.last().ident);
        lemma_erased_segments_fixed_by_form(a.drop_last(), b.drop_last());
        lemma_erased_arguments_fixed_by_form(a.last().arguments, b.last().arguments);
        assert(a =~= b.drop_last().push(b.last()));
        assert(b =~= b.drop_last().push(b.last()));
    }
}

pub proof fn lemma_erased_arguments_fixed_by_form(a: ArgumentsView, b: ArgumentsView)
    requires
        arguments_erased(a),
        arguments_erased(b),
        forget_arguments(a) == forget_arguments(b),
    ensures
        a == b,
    decreases a,
{
    match (a, b) {
        (ArgumentsView::AngleBracketed(x), ArgumentsView::AngleBracketed(y)) => {
            lemma_erased_generic_args_fixed_by_form(x.args, y.args);
        },
        (
            ArgumentsView::Parenthesized { inputs: i1, output: o1 },
            ArgumentsView::Parenthesized { inputs: i2, output: o2 },
        ) => {
            lemma_erased_types_fixed_by_form(i1, i2);
            lemma_erased_return_fixed_by_form(o1, o2);
        },
        _ => {},
    }
}

pub proof fn lemma_erased_generic_args_fixed_by_form(a: Seq<GenericArgView>, b: Seq<GenericArgView>)
    requires
        generic_args_erased(a),
        generic_args_erased(b),
        forget_generic_args(a) == forget_generic_args(b),
    ensures
        a == b,
    decreases a,
{
    if a.len() == 0 {
        if b.len() > 0 {
            assert(forget_generic_args(b).len() > 0);
        }
        assert(a =~= b);
    } else {
        if b.len() == 0 {
            assert(forget_generic_args(a).len() > 0);
        }
        assert(forget_generic_args(a).drop_last() =~= forget_generic_args(a.drop_last()));
        assert(forget_generic_args(b).drop_last() =~= forget_generic_args(b.drop_last()));
        assert(forget_generic_args(a).last() == forget_generic_arg(a.last()));
        assert(forget_generic_args(b).last() == forget_generic_arg(b.last()));
        lemma_erased_generic_args_fixed_by_form(a.drop_last(), b.drop_last());
        lemma_erased_generic_arg_fixed_by_form(a.last(), b.last());
        assert(a =~= b.drop_last().push(b.last()));
        assert(b =~= b.drop_last().push(b.last()));
    }
}

pub proof fn lemma_erased_generic_arg_fixed_by_form(a: GenericArgView, b: GenericArgView)
    requires
        generic_arg_erased(a),
        generic_arg_erased(b),
        forget_generic_arg(a) == forget_generic_arg(b),
    ensures
        a == b,
    decreases a,
{
    match (a, b) {
        (GenericArgView::Type(x), GenericArgView::Type(y)) => law_erased_types_are_fixed_by_their_form(x, y),
        (
            GenericArgView::AssocType { ident: i1, generics: g1, ty: t1 },
            GenericArgView::AssocType { ident: i2, generics: g2, ty: t2 },
        ) => {
            match (g1, g2) {
                (Some(x), Some(y)) => lemma_erased_generic_args_fixed_by_form(x.args, y.args),
                _ => {},
            }
            law_erased_types_are_fixed_by_their_form(t1, t2);
        },
        (
            GenericArgView::Constraint { ident: i1, generics: g1, bounds: b1 },
            GenericArgView::Constraint { ident: i2, generics: g2, bounds: b2 },
        ) => {
            match (g1, g2) {
                (Some(x), Some(y)) => lemma_erased_generic_args_fixed_by_form(x.args, y.args),
                _ => {},
            }
        },
        _ => {},
    }
}

/// Erasure has exactly one answer: the erasure of `t` is the one type with
/// only `'static` lifetimes that differs from `t` at most in its lifetimes.
pub proof fn law_erasure_is_the_static_form(t: TypeView, x: TypeView)
    requires
        is_erased(x),
        forget_type(x) == forget_type(t),
    ensures
        x == erase_type(t),
{
    law_erasure_leaves_static_lifetimes(t);
    law_erasure_changes_only_lifetimes(t);
    law_erased_types_are_fixed_by_their_form(x, erase_type(t));
}

} // verus!
