//! What each interface attribute generates, decided before any code is written.

use vstd::prelude::*;

use crate::args::{is_text, InterfaceArgs, Receiver};
use crate::methods::{accepted_method, method_error, receiver_of, Method, MethodError, MethodSig};
use crate::symbols::{is_valid_prefix, valid_prefix};

verus! {

/// An item of a trait or an impl, as the interface attributes read it.
pub enum ItemShape {
    Method(MethodSig),
    /// Any item that is not a method.
    Other,
}

/// Why an interface attribute refused its input.
#[derive(PartialEq, Eq, Structural)]
pub enum MacroError {
    /// The interface trait has generic parameters.
    GenericTrait,
    /// The interface trait has an item that is not a method.
    NonMethodItem,
    /// The exported impl has generic parameters.
    GenericImpl,
    /// A method's signature was refused.
    Method(MethodError),
    /// Link arguments on an interface that links nothing.
    LinkArgsNotAllowed,
    /// `vtable = Type` anywhere but on an exported impl.
    VtableNotAllowed,
    /// A runtime-bound interface whose receiver is not an opaque handle.
    RequiresOpaque,
    /// `resolver` on an interface without a `query_interface` method.
    MissingQueryInterface,
    /// An imported interface without link arguments.
    MissingLinkArgs,
    /// An exported impl that does not implement a trait.
    NotTraitImpl,
    /// An opaque marker that is not a unit struct.
    NotUnitStruct,
    /// An opaque marker with generic parameters.
    GenericMarker,
    /// The prefix does not give valid symbols to the interface's own items.
    InvalidSymbol,
}

/// Why an item is refused as a trait item.
pub open spec fn trait_item_error(item: ItemShape, prefix: Seq<char>) -> Option<MacroError> {
    match item {
        ItemShape::Other => Some(MacroError::NonMethodItem),
        ItemShape::Method(sig) => match method_error(sig, prefix) {
            Some(e) => Some(MacroError::Method(e)),
            None => None,
        },
    }
}

/// Why an item is refused as an impl item: other items are skipped.
pub open spec fn impl_item_error(item: ItemShape, prefix: Seq<char>) -> Option<MacroError> {
    match item {
        ItemShape::Other => None,
        ItemShape::Method(sig) => match method_error(sig, prefix) {
            Some(e) => Some(MacroError::Method(e)),
            None => None,
        },
    }
}

/// The error of the first item that has one; other items are refused in a
/// trait (`in_impl` false) and skipped in an impl.
pub open spec fn first_item_error(items: Seq<ItemShape>, prefix: Seq<char>, in_impl: bool) -> Option<MacroError>
    decreases items.len(),
{
    if items.len() == 0 {
        None
    } else {
        match first_item_error(items.drop_last(), prefix, in_impl) {
            Some(e) => Some(e),
            None => if in_impl {
                impl_item_error(items.last(), prefix)
            } else {
                trait_item_error(items.last(), prefix)
            },
        }
    }
}

/// The method signatures among the items, in order.
pub open spec fn item_sigs(items: Seq<ItemShape>) -> Seq<MethodSig>
    decreases items.len(),
{
    if items.len() == 0 {
        Seq::empty()
    } else {
        match items.last() {
            ItemShape::Method(sig) => item_sigs(items.drop_last()).push(sig),
            ItemShape::Other => item_sigs(items.drop_last()),
        }
    }
}

/// `methods` are what the signatures `sigs` became, one for one.
pub open spec fn accepted_methods(sigs: Seq<MethodSig>, prefix: Seq<char>, methods: Seq<Method>) -> bool {
    &&& methods.len() == sigs.len()
    &&& forall|i: int| 0 <= i < sigs.len() ==> #[trigger] accepted_method(sigs[i], prefix, methods[i])
}

/// Whether every method takes `&self`.
pub open spec fn all_shared(methods: Seq<Method>) -> bool {
    forall|i: int| 0 <= i < methods.len() ==> !(#[trigger] methods[i]).receiver_mut
}

/// A list of methods can be bound on shared handles exactly when none of its
/// methods takes `&mut self`, wherever that method stands.
pub proof fn law_shared_exactly_when_no_method_takes_mut(methods: Seq<Method>)
    ensures
        all_shared(methods) <==> !exists|i: int| 0 <= i < methods.len() && (#[trigger] methods[i]).receiver_mut,
{
}

/// Two lists of methods together can be bound on shared handles exactly when
/// each can: one method that takes `&mut self` anywhere rules it out.
pub proof fn law_shared_of_concatenation(a: Seq<Method>, b: Seq<Method>)
    ensures
        all_shared(a + b) == (all_shared(a) && all_shared(b)),
{
    let c = a + b;
    if all_shared(a) && all_shared(b) {
        assert forall|i: int| 0 <= i < c.len() implies !(#[trigger] c[i]).receiver_mut by {
            if i < a.len() {
                assert(c[i] == a[i]);
            } else {
                assert(c[i] == b[i - a.len()]);
            }
        }
    }
    if all_shared(c) {
        assert forall|i: int| 0 <= i < a.len() implies !(#[trigger] a[i]).receiver_mut by {
            assert(c[i] == a[i]);
        }
        assert forall|i: int| 0 <= i < b.len() implies !(#[trigger] b[i]).receiver_mut by {
            assert(c[i + a.len()] == b[i]);
        }
    }
}

/// The methods accepted from some signatures can be bound on shared handles
/// exactly when no signature's receiver is `&mut self`.
pub proof fn law_shared_follows_the_signatures(sigs: Seq<MethodSig>, prefix: Seq<char>, methods: Seq<Method>)
    requires
        accepted_methods(sigs, prefix, methods),
    ensures
        all_shared(methods) <==> forall|i: int| 0 <= i < sigs.len() ==> !(#[trigger] receiver_of(sigs[i])).mutable,
{
    if all_shared(methods) {
        assert forall|i: int| 0 <= i < sigs.len() implies !(#[trigger] receiver_of(sigs[i])).mutable by {
            assert(accepted_method(sigs[i], prefix, methods[i]));
            assert(!methods[i].receiver_mut);
        }
    }
    if forall|i: int| 0 <= i < sigs.len() ==> !(#[trigger] receiver_of(sigs[i])).mutable {
        assert forall|i: int| 0 <= i < methods.len() implies !(#[trigger] methods[i]).receiver_mut by {
            assert(accepted_method(sigs[i], prefix, methods[i]));
            assert(!receiver_of(sigs[i]).mutable);
        }
    }
}

/// Whether some method is named `query_interface`.
pub open spec fn has_query_interface(methods: Seq<Method>) -> bool {
    exists|i: int| 0 <= i < methods.len() && (#[trigger] methods[i]).ident@ == "query_interface"@
}

/// Whether some signature is that of a method named `query_interface`.
pub open spec fn sigs_have_query_interface(sigs: Seq<MethodSig>) -> bool {
    exists|i: int| 0 <= i < sigs.len() && (#[trigger] sigs[i]).ident@ == "query_interface"@
}

/// Accepted methods keep their names, so they have a `query_interface`
/// method exactly when their signatures do.
proof fn lemma_query_interface_kept(sigs: Seq<MethodSig>, prefix: Seq<char>, methods: Seq<Method>)
    requires
        accepted_methods(sigs, prefix, methods),
    ensures
        has_query_interface(methods) == sigs_have_query_interface(sigs),
{
    if has_query_interface(methods) {
        let i = choose|i: int| 0 <= i < methods.len() && (#[trigger] methods[i]).ident@ == "query_interface"@;
        assert(accepted_method(sigs[i], prefix, methods[i]));
    }
    if sigs_have_query_interface(sigs) {
        let i = choose|i: int| 0 <= i < sigs.len() && (#[trigger] sigs[i]).ident@ == "query_interface"@;
        assert(accepted_method(sigs[i], prefix, methods[i]));
    }
}

proof fn lemma_first_item_error_prefix(s: Seq<ItemShape>, k: int, prefix: Seq<char>, in_impl: bool)
    requires
        0 <= k <= s.len(),
        first_item_error(s.take(k), prefix, in_impl) is Some,
    ensures
        first_item_error(s, prefix, in_impl) == first_item_error(s.take(k), prefix, in_impl),
    decreases s.len(),
{
    if s.len() == k {
        assert(s.take(k) =~= s);
    } else {
        assert(s.drop_last().take(k) =~= s.take(k));
        lemma_first_item_error_prefix(s.drop_last(), k, prefix, in_impl);
    }
}

/// Accepts the methods among `items` in order, skipping (`in_impl`) or
/// refusing other items; stops at the first item refused.
fn collect_methods(items: Vec<ItemShape>, prefix: &str, in_impl: bool) -> (r: Result<Vec<Method>, MacroError>)
    ensures
        r is Err <==> first_item_error(items@, prefix@, in_impl) is Some,
        r matches Err(e) ==> first_item_error(items@, prefix@, in_impl) == Some(e),
        r matches Ok(ms) ==> accepted_methods(item_sigs(items@), prefix@, ms@),
{
    let ghost all = items@;
    let n = items.len();
    let mut rest = items;
    let mut methods: Vec<Method> = Vec::new();
    let mut i: usize = 0;
    while rest.len() > 0
        invariant
            i <= all.len(),
            all.len() == n,
            all == items@,
            rest@ == all.skip(i as int),
            first_item_error(all.take(i as int), prefix@, in_impl) is None,
            accepted_methods(item_sigs(all.take(i as int)), prefix@, methods@),
        decreases rest@.len(),
    {
        assert(all.skip(i as int).len() > 0);
        let ghost before = rest@;
        let ghost pre = all.take(i as int);
        let ghost next = all.take(i + 1);
        let item = rest.remove(0);
        proof {
            assert(before[0] == item);
            assert(all[i as int] == item);
            assert(next.drop_last() =~= pre);
            assert(next.last() == item);
            assert(rest@ =~= all.skip(i + 1));
        }
        match item {
            ItemShape::Other => {
                if !in_impl {
                    proof {
                        assert(first_item_error(next, prefix@, in_impl) == Some(MacroError::NonMethodItem));
                        lemma_first_item_error_prefix(all, i + 1, prefix@, in_impl);
                    }
                    return Err(MacroError::NonMethodItem);
                }
                proof {
                    assert(item_sigs(next) == item_sigs(pre));
                }
            },
            ItemShape::Method(sig) => {
                let ghost s = sig;
                match Method::from_parts(sig, prefix) {
                    Ok(m) => {
                        let ghost old_methods = methods@;
                        methods.push(m);
                        proof {
                            let sigs = item_sigs(next);
                            assert(sigs == item_sigs(pre).push(s));
                            assert forall|j: int| 0 <= j < sigs.len() implies #[trigger] accepted_method(
                                sigs[j],
                                prefix@,
                                methods@[j],
                            ) by {
                                if j < sigs.len() - 1 {
                                    assert(methods@[j] == old_methods[j]);
                                    assert(sigs[j] == item_sigs(pre)[j]);
                                }
                            }
                        }
                    },
                    Err(e) => {
                        proof {
                            lemma_first_item_error_prefix(all, i + 1, prefix@, in_impl);
                        }
                        return Err(MacroError::Method(e));
                    },
                }
            },
        }
        i = i + 1;
    }
    proof {
        assert(all.take(i as int) =~= all);
    }
    Ok(methods)
}


/// Whether `r` is the error `e`.
pub open spec fn fails_with<T>(r: Result<T, MacroError>, e: MacroError) -> bool {
    r matches Err(x) && x == e
}

/// Accepts the methods of an interface trait, which has `generic_count`
/// generic parameters and the items `items`; symbols take the prefix `prefix`.
pub fn trait_methods(generic_count: usize, items: Vec<ItemShape>, prefix: &str) -> (r: Result<
    Vec<Method>,
    MacroError,
>)
    ensures
        generic_count > 0 ==> fails_with(r, MacroError::GenericTrait),
        generic_count == 0 ==> (r is Err <==> first_item_error(items@, prefix@, false) is Some),
        generic_count == 0 ==> (r matches Err(e) ==> first_item_error(items@, prefix@, false) == Some(e)),
        r matches Ok(ms) ==> accepted_methods(item_sigs(items@), prefix@, ms@),
{
    if generic_count > 0 {
        return Err(MacroError::GenericTrait);
    }
    collect_methods(items, prefix, false)
}

/// Accepts the methods of an exported impl, which has `generic_count` generic
/// parameters and the items `items`; items that are not methods are skipped.
pub fn impl_methods(generic_count: usize, items: Vec<ItemShape>, prefix: &str) -> (r: Result<
    Vec<Method>,
    MacroError,
>)
    ensures
        generic_count > 0 ==> fails_with(r, MacroError::GenericImpl),
        generic_count == 0 ==> (r is Err <==> first_item_error(items@, prefix@, true) is Some),
        generic_count == 0 ==> (r matches Err(e) ==> first_item_error(items@, prefix@, true) == Some(e)),
        r matches Ok(ms) ==> accepted_methods(item_sigs(items@), prefix@, ms@),
{
    if generic_count > 0 {
        return Err(MacroError::GenericImpl);
    }
    collect_methods(items, prefix, true)
}

/// Whether every method takes `&self`.
pub fn all_methods_shared(methods: &Vec<Method>) -> (r: bool)
    ensures
        r == all_shared(methods@),
        r <==> forall|i: int| 0 <= i < methods@.len() ==> !(#[trigger] methods@[i]).receiver_mut,
{
    let mut i: usize = 0;
    while i < methods.len()
        invariant
            i <= methods@.len(),
            forall|j: int| 0 <= j < i ==> !(#[trigger] methods@[j]).receiver_mut,
        decreases methods@.len() - i,
    {
        if methods[i].receiver_mut {
            return false;
        }
        i = i + 1;
    }
    true
}

/// Whether some method is named `query_interface`.
pub fn any_query_interface(methods: &Vec<Method>) -> (r: bool)
    ensures
        r == has_query_interface(methods@),
{
    let mut i: usize = 0;
    while i < methods.len()
        invariant
            i <= methods@.len(),
            forall|j: int| 0 <= j < i ==> (#[trigger] methods@[j]).ident@ != "query_interface"@,
        decreases methods@.len() - i,
    {
        if is_text(&methods[i].ident, "query_interface") {
            return true;
        }
        i = i + 1;
    }
    false
}

/// Whether `c` is an ASCII capital letter.
pub open spec fn is_ascii_upper(c: char) -> bool {
    'A' <= c && c <= 'Z'
}

/// The small letter of the ASCII capital `c`.
pub open spec fn ascii_lower(c: char) -> char {
    ((c as u32) + 32) as char
}

/// What the character `c` becomes in snake case: a capital becomes its small
/// letter, after an underscore unless it comes first; anything else stays.
pub open spec fn snake_piece(c: char, first: bool) -> Seq<char> {
    if is_ascii_upper(c) {
        if first {
            seq![ascii_lower(c)]
        } else {
            seq!['_', ascii_lower(c)]
        }
    } else {
        seq![c]
    }
}

/// `name` in snake case: `HostApi` becomes `host_api`.
pub open spec fn snake_case(name: Seq<char>) -> Seq<char>
    decreases name.len(),
{
    if name.len() == 0 {
        Seq::empty()
    } else {
        snake_case(name.drop_last()) + snake_piece(name.last(), name.len() == 1)
    }
}

/// Calls `String::push`, which appends `c` to `s`.
#[verifier::external_body]
fn push_char(s: &mut String, c: char)
    ensures
        final(s)@ == old(s)@.push(c),
{
    s.push(c);
}

/// `name` in snake case.
pub fn snake_case_name(name: &str) -> (r: String)
    ensures
        r@ == snake_case(name@),
{
    let n = name.unicode_len();
    let mut out = String::new();
    let mut i: usize = 0;
    while i < n
        invariant
            n == name@.len(),
            i <= n,
            out@ == snake_case(name@.take(i as int)),
        decreases n - i,
    {
        let c = name.get_char(i);
        let ghost before = out@;
        proof {
            assert(name@.take(i + 1).drop_last() =~= name@.take(i as int));
            assert(name@.take(i + 1).last() == c);
        }
        if 'A' <= c && c <= 'Z' {
            if i > 0 {
                push_char(&mut out, '_');
            }
            let lower = ((c as u8) + 32) as char;
            assert(lower == ascii_lower(c));
            push_char(&mut out, lower);
        } else {
            push_char(&mut out, c);
        }
        assert(out@ =~= before + snake_piece(c, i == 0));
        i = i + 1;
    }
    assert(name@.take(n as int) =~= name@);
    out
}

/// The names of what `#[interface(..)]` generates for the trait `{T}`.
pub struct InterfaceNames {
    /// The interface table: `{T}VTable`.
    pub vtable: String,
    /// The trait that a resolver interface implements: `{T}InterfaceResolver`.
    pub resolver: String,
    /// The exclusive bound handle: `{T}RefMut`.
    pub ref_mut_alias: String,
    /// The trait that resolves this interface from a resolver: `{T}InterfaceExt`.
    pub ext_trait: String,
    /// Its method: `resolve_{t}`, with `{t}` the trait's name in snake case.
    pub resolve_method: String,
}

/// `name` followed by `suffix`.
fn suffixed(name: &str, suffix: &str) -> (r: String)
    ensures
        r@ == name@ + suffix@,
{
    let mut r = String::from_str(name);
    r.append(suffix);
    r
}

/// `names` are the names that the trait `trait_ident` gives what is generated for it.
pub open spec fn names_of(trait_ident: Seq<char>, names: InterfaceNames) -> bool {
    &&& names.vtable@ == trait_ident + "VTable"@
    &&& names.resolver@ == trait_ident + "InterfaceResolver"@
    &&& names.ref_mut_alias@ == trait_ident + "RefMut"@
    &&& names.ext_trait@ == trait_ident + "InterfaceExt"@
    &&& names.resolve_method@ == "resolve_"@ + snake_case(trait_ident)
}

/// The names of what `#[interface(..)]` generates for the trait `trait_ident`.
pub fn interface_names(trait_ident: &str) -> (r: InterfaceNames)
    ensures
        names_of(trait_ident@, r),
{
    let snake = snake_case_name(trait_ident);
    let mut resolve_method = String::from_str("resolve_");
    resolve_method.append(snake.as_str());
    InterfaceNames {
        vtable: suffixed(trait_ident, "VTable"),
        resolver: suffixed(trait_ident, "InterfaceResolver"),
        ref_mut_alias: suffixed(trait_ident, "RefMut"),
        ext_trait: suffixed(trait_ident, "InterfaceExt"),
        resolve_method,
    }
}

/// What a runtime-bound interface generates: its table, its methods bound on
/// exclusive handles, and, where every method takes `&self`, on shared ones;
/// an alias for the exclusive bound handle, and an extension trait that
/// resolves the interface from any resolver; and, for a resolver interface,
/// the resolver itself.
pub struct InterfacePlan {
    pub methods: Vec<Method>,
    /// The names of the table, the alias, the traits and the resolving method.
    pub names: InterfaceNames,
    /// Whether the methods are also bound on shared handles.
    pub shared_impl: bool,
    /// Whether an extension-interface resolver is generated.
    pub resolver: bool,
}

/// Decides what `#[interface(..)]` generates for the trait `trait_ident` with
/// `generic_count` generic parameters and the items `items`, or why it cannot.
/// The checks run in order: no link arguments, no `vtable`, an opaque
/// receiver, the trait's methods, `query_interface` for a resolver, and a
/// prefix that gives the interface's own symbols.
pub fn plan_interface(
    args: &InterfaceArgs,
    trait_ident: &str,
    generic_count: usize,
    items: Vec<ItemShape>,
) -> (r: Result<
    InterfacePlan,
    MacroError,
>)
    ensures
        args.has_link_args ==> fails_with(r, MacroError::LinkArgsNotAllowed),
        !args.has_link_args && args.vtable is Some ==> fails_with(r, MacroError::VtableNotAllowed),
        !args.has_link_args && args.vtable is None && args.receiver is Stable ==> fails_with(r, MacroError::RequiresOpaque),
        !args.has_link_args && args.vtable is None && args.receiver is Opaque && generic_count > 0 ==> fails_with(r, MacroError::GenericTrait),
        !args.has_link_args && args.vtable is None && args.receiver is Opaque && generic_count == 0 ==> (
        match first_item_error(items@, args.prefix@, false) {
            Some(e) => r == Err::<InterfacePlan, MacroError>(e),
            None => if args.resolver && !sigs_have_query_interface(item_sigs(items@)) {
                fails_with(r, MacroError::MissingQueryInterface)
            } else if !valid_prefix(args.prefix@) {
                fails_with(r, MacroError::InvalidSymbol)
            } else {
                r matches Ok(plan) && accepted_methods(item_sigs(items@), args.prefix@, plan.methods@)
                    && plan.shared_impl == all_shared(plan.methods@) && plan.resolver == args.resolver
                    && (plan.shared_impl <==> forall|i: int| 0 <= i < item_sigs(items@).len()
                        ==> !(#[trigger] receiver_of(item_sigs(items@)[i])).mutable)
                    && names_of(trait_ident@, plan.names)
            },
        }),
{
    if args.has_link_args {
        return Err(MacroError::LinkArgsNotAllowed);
    }
    if args.vtable.is_some() {
        return Err(MacroError::VtableNotAllowed);
    }
    match &args.receiver {
        Receiver::Stable(_) => {
            return Err(MacroError::RequiresOpaque);
        },
        Receiver::Opaque(_) => {},
    }
    let methods = match trait_methods(generic_count, items, args.prefix.as_str()) {
        Ok(ms) => ms,
        Err(e) => {
            return Err(e);
        },
    };
    proof {
        if generic_count == 0 {
            lemma_query_interface_kept(item_sigs(items@), args.prefix@, methods@);
        }
    }
    if args.resolver && !any_query_interface(&methods) {
        return Err(MacroError::MissingQueryInterface);
    }
    if !is_valid_prefix(args.prefix.as_str()) {
        return Err(MacroError::InvalidSymbol);
    }
    proof {
        if generic_count == 0 {
            law_shared_follows_the_signatures(item_sigs(items@), args.prefix@, methods@);
        }
    }
    let shared_impl = all_methods_shared(&methods);
    let names = interface_names(trait_ident);
    Ok(InterfacePlan { methods, names, shared_impl, resolver: args.resolver })
}

/// What an imported interface generates: the foreign declarations, the trait
/// on exclusive handles (or on the stable receiver), and, for an opaque
/// receiver whose methods all take `&self`, on shared handles.
pub struct ImportPlan {
    pub methods: Vec<Method>,
    /// Whether the trait is also implemented on shared opaque handles.
    pub shared_impl: bool,
}

/// Decides what `#[import_interface(..)]` generates, or why it cannot: the
/// interface needs link arguments, then acceptable methods.
pub fn plan_import(args: &InterfaceArgs, generic_count: usize, items: Vec<ItemShape>) -> (r: Result<
    ImportPlan,
    MacroError,
>)
    ensures
        !args.has_link_args ==> fails_with(r, MacroError::MissingLinkArgs),
        args.has_link_args && generic_count > 0 ==> fails_with(r, MacroError::GenericTrait),
        args.has_link_args && generic_count == 0 ==> (match first_item_error(items@, args.prefix@, false) {
            Some(e) => r == Err::<ImportPlan, MacroError>(e),
            None => r matches Ok(plan) && accepted_methods(item_sigs(items@), args.prefix@, plan.methods@)
                && plan.shared_impl == (args.receiver is Opaque && all_shared(plan.methods@))
                && (plan.shared_impl <==> args.receiver is Opaque && forall|i: int| 0 <= i < item_sigs(items@).len()
                    ==> !(#[trigger] receiver_of(item_sigs(items@)[i])).mutable),
        }),
{
    if !args.has_link_args {
        return Err(MacroError::MissingLinkArgs);
    }
    let methods = match trait_methods(generic_count, items, args.prefix.as_str()) {
        Ok(ms) => ms,
        Err(e) => {
            return Err(e);
        },
    };
    proof {
        if generic_count == 0 {
            law_shared_follows_the_signatures(item_sigs(items@), args.prefix@, methods@);
        }
    }
    let shared_impl = match &args.receiver {
        Receiver::Opaque(_) => all_methods_shared(&methods),
        Receiver::Stable(_) => false,
    };
    Ok(ImportPlan { methods, shared_impl })
}

/// What an exported impl generates: one exported symbol per method and, where
/// a table type is named, the table, its binding functions and its query
/// functions, with shared variants where every method takes `&self`.
pub struct ExportPlan {
    pub methods: Vec<Method>,
    /// Whether the table and its functions are generated.
    pub vtable_items: bool,
    /// Whether the shared binding and query functions are generated.
    pub shared_bind: bool,
}

/// Decides what `#[export_interface(..)]` generates on an impl with
/// `generic_count` generic parameters and the items `items`, or why it
/// cannot: it must implement a trait, its methods must be acceptable, and a
/// table needs an opaque receiver and a prefix that gives its symbols.
pub fn plan_export(args: &InterfaceArgs, is_trait_impl: bool, generic_count: usize, items: Vec<ItemShape>) -> (r:
    Result<ExportPlan, MacroError>)
    ensures
        !is_trait_impl ==> fails_with(r, MacroError::NotTraitImpl),
        is_trait_impl && generic_count > 0 ==> fails_with(r, MacroError::GenericImpl),
        is_trait_impl && generic_count == 0 ==> (match first_item_error(items@, args.prefix@, true) {
            Some(e) => r == Err::<ExportPlan, MacroError>(e),
            None => if args.vtable is Some && args.receiver is Stable {
                fails_with(r, MacroError::RequiresOpaque)
            } else if args.vtable is Some && !valid_prefix(args.prefix@) {
                fails_with(r, MacroError::InvalidSymbol)
            } else {
                r matches Ok(plan) && accepted_methods(item_sigs(items@), args.prefix@, plan.methods@)
                    && plan.vtable_items == args.vtable is Some && plan.shared_bind == (args.vtable is Some
                    && all_shared(plan.methods@))
            },
        }),
{
    if !is_trait_impl {
        return Err(MacroError::NotTraitImpl);
    }
    let methods = match impl_methods(generic_count, items, args.prefix.as_str()) {
        Ok(ms) => ms,
        Err(e) => {
            return Err(e);
        },
    };
    let vtable_items = args.vtable.is_some();
    if vtable_items {
        match &args.receiver {
            Receiver::Stable(_) => {
                return Err(MacroError::RequiresOpaque);
            },
            Receiver::Opaque(_) => {},
        }
        if !is_valid_prefix(args.prefix.as_str()) {
            return Err(MacroError::InvalidSymbol);
        }
    }
    let shared_bind = vtable_items && all_methods_shared(&methods);
    Ok(ExportPlan { methods, vtable_items, shared_bind })
}

/// Checks the struct that `#[opaque(..)]` marks: a unit struct without
/// generic parameters.
pub fn check_opaque_marker(is_unit: bool, generic_count: usize) -> (r: Result<(), MacroError>)
    ensures
        !is_unit ==> r == Err::<(), MacroError>(MacroError::NotUnitStruct),
        is_unit && generic_count > 0 ==> r == Err::<(), MacroError>(MacroError::GenericMarker),
        is_unit && generic_count == 0 ==> r is Ok,
{
    if !is_unit {
        Err(MacroError::NotUnitStruct)
    } else if generic_count > 0 {
        Err(MacroError::GenericMarker)
    } else {
        Ok(())
    }
}

} // verus!
