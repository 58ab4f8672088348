//! The methods of an interface: which signatures are accepted, and how each
//! method receives its opaque value on either side of the boundary.

use vstd::prelude::*;

use crate::args::{opt_text, Receiver};
use crate::lifetimes::{
    erase_lifetimes_return_type, erase_lifetimes_type, erase_return, erase_types, return_view,
    type_view, types_view, ReturnShape, TypeShape,
};
use crate::symbols::{symbol_name, symbol_text, valid_symbol};

verus! {

/// A generic parameter of a method, by kind, with its source text.
pub enum GenericParamShape {
    Lifetime(String),
    Type(String),
    Const(String),
}

/// The `self` parameter of a method.
pub struct SelfArg {
    /// `&self` or `&mut self`, as opposed to `self`.
    pub by_reference: bool,
    /// The lifetime written after `&`, if any.
    pub lifetime: Option<String>,
    /// `&mut self`.
    pub mutable: bool,
}

/// A parameter of a method.
pub enum FnInput {
    SelfArg(SelfArg),
    Typed(TypeShape),
}

/// A method's signature, as the interface attributes read it.
pub struct MethodSig {
    pub ident: String,
    pub generics: Vec<GenericParamShape>,
    pub has_where_clause: bool,
    pub unsafety: bool,
    /// `None` without `extern`; `Some(None)` for a bare `extern`; `Some(Some(name))`
    /// for `extern "name"`.
    pub abi: Option<Option<String>>,
    pub inputs: Vec<FnInput>,
    pub output: ReturnShape,
}

/// An accepted interface method.
pub struct Method {
    pub ident: String,
    /// The symbol under which the method is exported: `{prefix}_{ident}`.
    pub symbol: String,
    /// The method's generic parameters, all lifetimes.
    pub generics: Vec<GenericParamShape>,
    pub unsafety: bool,
    /// The lifetime written in the receiver, if any.
    pub receiver_lt: Option<String>,
    /// Whether the receiver is `&mut self`.
    pub receiver_mut: bool,
    /// The types of the parameters after the receiver, in order.
    pub args: Vec<TypeShape>,
    pub output: ReturnShape,
}

/// Why a method signature was refused.
#[derive(PartialEq, Eq, Structural)]
pub enum MethodError {
    /// A generic parameter that is not a lifetime.
    NonLifetimeGeneric,
    /// A `where` clause.
    WhereClause,
    /// No `extern` calling convention.
    MissingAbi,
    /// A calling convention other than `extern "C"`.
    NotExternC,
    /// No `&self` or `&mut self` first parameter.
    BadReceiver,
    /// A receiver after the first parameter.
    ReceiverNotFirst,
    /// A prefix and name that do not make a valid symbol.
    InvalidSymbol,
}

pub open spec fn is_lifetime_param(g: GenericParamShape) -> bool {
    g is Lifetime
}

pub open spec fn is_self_arg(i: FnInput) -> bool {
    i is SelfArg
}

/// Why `sig` is refused as an interface method under `prefix`, checking in
/// order: generics, `where` clause, calling convention, receiver, symbol.
pub open spec fn method_error(sig: MethodSig, prefix: Seq<char>) -> Option<MethodError> {
    if exists|i: int| 0 <= i < sig.generics@.len() && !is_lifetime_param(#[trigger] sig.generics@[i]) {
        Some(MethodError::NonLifetimeGeneric)
    } else if sig.has_where_clause {
        Some(MethodError::WhereClause)
    } else if sig.abi is None {
        Some(MethodError::MissingAbi)
    } else if !(sig.abi->0 matches Some(name) && name@ == "C"@) {
        Some(MethodError::NotExternC)
    } else if sig.inputs@.len() == 0 || !(sig.inputs@[0] matches FnInput::SelfArg(s) && s.by_reference) {
        Some(MethodError::BadReceiver)
    } else if exists|i: int| 1 <= i < sig.inputs@.len() && is_self_arg(#[trigger] sig.inputs@[i]) {
        Some(MethodError::ReceiverNotFirst)
    } else if !valid_symbol(symbol_text(prefix, sig.ident@)) {
        Some(MethodError::InvalidSymbol)
    } else {
        None
    }
}

/// The types of the typed parameters, in order.
pub open spec fn typed_inputs(s: Seq<FnInput>) -> Seq<TypeShape>
    decreases s.len(),
{
    if s.len() == 0 {
        Seq::empty()
    } else {
        match s.last() {
            FnInput::Typed(t) => typed_inputs(s.drop_last()).push(t),
            FnInput::SelfArg(_) => typed_inputs(s.drop_last()),
        }
    }
}

/// The receiver of an accepted signature.
pub open spec fn receiver_of(sig: MethodSig) -> SelfArg {
    sig.inputs@[0]->SelfArg_0
}

/// What an accepted signature becomes.
pub open spec fn accepted_method(sig: MethodSig, prefix: Seq<char>, m: Method) -> bool {
    &&& m.ident@ == sig.ident@
    &&& m.symbol@ == symbol_text(prefix, sig.ident@)
    &&& m.generics@ == sig.generics@
    &&& m.unsafety == sig.unsafety
    &&& opt_text(m.receiver_lt) == opt_text(receiver_of(sig).lifetime)
    &&& m.receiver_mut == receiver_of(sig).mutable
    &&& m.args@ == typed_inputs(sig.inputs@.skip(1))
    &&& m.output == sig.output
}

proof fn lemma_typed_inputs_front(s: Seq<FnInput>, t: TypeShape)
    ensures
        typed_inputs(seq![FnInput::Typed(t)] + s) == seq![t] + typed_inputs(s),
    decreases s.len(),
{
    if s.len() == 0 {
        let whole = seq![FnInput::Typed(t)] + s;
        assert(whole =~= seq![FnInput::Typed(t)]);
        assert(whole.drop_last() =~= Seq::<FnInput>::empty());
        assert(typed_inputs(Seq::<FnInput>::empty()) =~= Seq::<TypeShape>::empty());
        assert(typed_inputs(whole) =~= seq![t]);
        assert(seq![t] + typed_inputs(s) =~= seq![t]);
    } else {
        let whole = seq![FnInput::Typed(t)] + s;
        assert(whole.drop_last() =~= seq![FnInput::Typed(t)] + s.drop_last());
        assert(whole.last() == s.last());
        lemma_typed_inputs_front(s.drop_last(), t);
        match s.last() {
            FnInput::Typed(u) => {
                assert(seq![t] + typed_inputs(s) =~= (seq![t] + typed_inputs(s.drop_last())).push(u));
            },
            FnInput::SelfArg(_) => {},
        }
    }
}

impl Method {
    /// Accepts `sig` as an interface method whose symbols take the prefix
    /// `prefix`, or says why it cannot be one.
    #[verifier::loop_isolation(false)]
    pub fn from_parts(sig: MethodSig, prefix: &str) -> (r: Result<Method, MethodError>)
        ensures
            r is Ok <==> method_error(sig, prefix@) is None,
            r matches Err(e) ==> method_error(sig, prefix@) == Some(e),
            r matches Ok(m) ==> accepted_method(sig, prefix@, m),
    {
        let ghost old_sig = sig;
        let mut k: usize = 0;
        while k < sig.generics.len()
            invariant
                k <= sig.generics@.len(),
                forall|j: int| 0 <= j < k ==> is_lifetime_param(#[trigger] sig.generics@[j]),
            decreases sig.generics@.len() - k,
        {
            match &sig.generics[k] {
                GenericParamShape::Lifetime(_) => {},
                _ => {
                    assert(!is_lifetime_param(sig.generics@[k as int]));
                    return Err(MethodError::NonLifetimeGeneric);
                },
            }
            k = k + 1;
        }
        if sig.has_where_clause {
            return Err(MethodError::WhereClause);
        }
        match &sig.abi {
            None => {
                return Err(MethodError::MissingAbi);
            },
            Some(name) => {
                let is_c = match name {
                    Some(n) => crate::args::is_text(n, "C"),
                    None => false,
                };
                if !is_c {
                    return Err(MethodError::NotExternC);
                }
            },
        }
        if sig.inputs.len() == 0 {
            return Err(MethodError::BadReceiver);
        }
        let (lifetime, mutable) = match &sig.inputs[0] {
            FnInput::SelfArg(s) => {
                if !s.by_reference {
                    return Err(MethodError::BadReceiver);
                }
                (opt_clone(&s.lifetime), s.mutable)
            },
            FnInput::Typed(_) => {
                return Err(MethodError::BadReceiver);
            },
        };
        let mut j: usize = 1;
        while j < sig.inputs.len()
            invariant
                1 <= j <= sig.inputs@.len(),
                forall|i: int| 1 <= i < j ==> !is_self_arg(#[trigger] sig.inputs@[i]),
            decreases sig.inputs@.len() - j,
        {
            match &sig.inputs[j] {
                FnInput::SelfArg(_) => {
                    assert(is_self_arg(sig.inputs@[j as int]));
                    return Err(MethodError::ReceiverNotFirst);
                },
                FnInput::Typed(_) => {},
            }
            j = j + 1;
        }
        let symbol = match symbol_name(prefix, sig.ident.as_str()) {
            Some(s) => s,
            None => {
                return Err(MethodError::InvalidSymbol);
            },
        };
        let MethodSig { ident, generics, has_where_clause, unsafety, abi, inputs, output } = sig;
        let mut inputs = inputs;
        let _receiver = inputs.remove(0);
        let ghost rest = inputs@;
        assert(rest =~= old_sig.inputs@.skip(1));
        let mut args: Vec<TypeShape> = Vec::new();
        while inputs.len() > 0
            invariant
                forall|i: int| 0 <= i < inputs@.len() ==> !is_self_arg(#[trigger] inputs@[i]),
                args@ + typed_inputs(inputs@) == typed_inputs(rest),
            decreases inputs@.len(),
        {
            let ghost before = inputs@;
            let input = inputs.remove(0);
            assert(before =~= seq![input] + inputs@);
            assert(!is_self_arg(before[0]));
            assert forall|i: int| 0 <= i < inputs@.len() implies !is_self_arg(#[trigger] inputs@[i]) by {
                assert(inputs@[i] == before[i + 1]);
            }
            match input {
                FnInput::Typed(t) => {
                    proof {
                        lemma_typed_inputs_front(inputs@, t);
                        assert(args@.push(t) + typed_inputs(inputs@) =~= args@ + typed_inputs(before));
                    }
                    args.push(t);
                },
                FnInput::SelfArg(_) => {},
            }
        }
        assert(args@ =~= args@ + typed_inputs(inputs@));
        Ok(Method { ident, symbol, generics, unsafety, receiver_lt: lifetime, receiver_mut: mutable, args, output })
    }
}

fn opt_clone(o: &Option<String>) -> (r: Option<String>)
    ensures
        opt_text(r) == opt_text(*o),
{
    match o {
        Some(t) => Some(t.clone()),
        None => None,
    }
}


/// How a method receives its value through an exported or imported symbol.
#[derive(PartialEq, Eq, Structural)]
pub enum ForeignReceiver {
    /// `Ref<Opaque>`
    OpaqueRef,
    /// `RefMut<Opaque>`
    OpaqueRefMut,
    /// `&'lt Receiver`
    SharedRef,
    /// `&'lt mut Receiver`
    MutRef,
}

/// How a method takes `self` in the trait.
#[derive(PartialEq, Eq, Structural)]
pub enum TraitReceiver {
    /// `&self`
    Shared,
    /// `&mut self`
    Exclusive,
    /// `&'lt self`
    SharedWithLifetime,
    /// `&'lt mut self`
    ExclusiveWithLifetime,
}

/// What an imported method passes to the foreign symbol as its receiver.
#[derive(PartialEq, Eq, Structural)]
pub enum ImportedReceiverArg {
    /// `*self`: a copy of the shared handle.
    Copy,
    /// `self.as_ref()`: the exclusive handle reborrowed as shared.
    AsRef,
    /// `self.reborrow()`: the exclusive handle reborrowed.
    Reborrow,
    /// `self`: the reference itself.
    SelfRef,
}

/// What a method bound to an interface table passes to the table's function.
#[derive(PartialEq, Eq, Structural)]
pub enum BoundReceiverArg {
    /// `self.as_opaque()`
    AsOpaque,
    /// `self.as_opaque_mut()`
    AsOpaqueMut,
}

/// How an exported symbol turns its receiver into the implementing value.
#[derive(PartialEq, Eq, Structural)]
pub enum ExportedReceiver {
    /// `this.cast::<SelfTy>()`
    Cast,
    /// `this.cast_mut::<SelfTy>()`
    CastMut,
    /// `this` as it is.
    Direct,
}

pub open spec fn foreign_receiver_of(opaque: bool, receiver_mut: bool) -> ForeignReceiver {
    match (opaque, receiver_mut) {
        (true, false) => ForeignReceiver::OpaqueRef,
        (true, true) => ForeignReceiver::OpaqueRefMut,
        (false, false) => ForeignReceiver::SharedRef,
        (false, true) => ForeignReceiver::MutRef,
    }
}

pub open spec fn trait_receiver_of(has_lifetime: bool, receiver_mut: bool) -> TraitReceiver {
    match (has_lifetime, receiver_mut) {
        (true, false) => TraitReceiver::SharedWithLifetime,
        (true, true) => TraitReceiver::ExclusiveWithLifetime,
        (false, false) => TraitReceiver::Shared,
        (false, true) => TraitReceiver::Exclusive,
    }
}

/// Whether an imported method can be generated: a shared handle cannot serve
/// a method that takes `&mut self`.
pub open spec fn imported_receiver_possible(opaque: bool, ref_mut: bool, receiver_mut: bool) -> bool {
    !(opaque && !ref_mut && receiver_mut)
}

pub open spec fn imported_receiver_of(opaque: bool, ref_mut: bool, receiver_mut: bool) -> ImportedReceiverArg {
    if !opaque {
        ImportedReceiverArg::SelfRef
    } else if !ref_mut {
        ImportedReceiverArg::Copy
    } else if !receiver_mut {
        ImportedReceiverArg::AsRef
    } else {
        ImportedReceiverArg::Reborrow
    }
}

pub open spec fn exported_receiver_of(opaque: bool, receiver_mut: bool) -> ExportedReceiver {
    if !opaque {
        ExportedReceiver::Direct
    } else if receiver_mut {
        ExportedReceiver::CastMut
    } else {
        ExportedReceiver::Cast
    }
}

impl Method {
    /// How this method receives its value through a foreign symbol or an
    /// interface table entry.
    pub fn foreign_receiver(&self, receiver: &Receiver) -> (r: ForeignReceiver)
        ensures
            r == foreign_receiver_of(receiver is Opaque, self.receiver_mut),
    {
        match (receiver, self.receiver_mut) {
            (Receiver::Opaque(_), false) => ForeignReceiver::OpaqueRef,
            (Receiver::Opaque(_), true) => ForeignReceiver::OpaqueRefMut,
            (Receiver::Stable(_), false) => ForeignReceiver::SharedRef,
            (Receiver::Stable(_), true) => ForeignReceiver::MutRef,
        }
    }

    /// How this method takes `self` in the trait.
    pub fn trait_receiver(&self) -> (r: TraitReceiver)
        ensures
            r == trait_receiver_of(self.receiver_lt is Some, self.receiver_mut),
    {
        match (&self.receiver_lt, self.receiver_mut) {
            (Some(_), false) => TraitReceiver::SharedWithLifetime,
            (Some(_), true) => TraitReceiver::ExclusiveWithLifetime,
            (None, false) => TraitReceiver::Shared,
            (None, true) => TraitReceiver::Exclusive,
        }
    }

    /// What this method, imported onto a shared (`ref_mut` false) or an
    /// exclusive handle, passes to its foreign symbol.
    pub fn imported_receiver_arg(&self, receiver: &Receiver, ref_mut: bool) -> (r: ImportedReceiverArg)
        requires
            imported_receiver_possible(receiver is Opaque, ref_mut, self.receiver_mut),
        ensures
            r == imported_receiver_of(receiver is Opaque, ref_mut, self.receiver_mut),
    {
        match (receiver, ref_mut, self.receiver_mut) {
            (Receiver::Opaque(_), false, _) => ImportedReceiverArg::Copy,
            (Receiver::Opaque(_), true, false) => ImportedReceiverArg::AsRef,
            (Receiver::Opaque(_), true, true) => ImportedReceiverArg::Reborrow,
            (Receiver::Stable(_), _, _) => ImportedReceiverArg::SelfRef,
        }
    }

    /// What this method, bound on a shared (`ref_mut` false) or an exclusive
    /// interface handle, passes to the table's function.
    pub fn bound_receiver_arg(&self, ref_mut: bool) -> (r: BoundReceiverArg)
        requires
            ref_mut || !self.receiver_mut,
        ensures
            r == (if self.receiver_mut {
                BoundReceiverArg::AsOpaqueMut
            } else {
                BoundReceiverArg::AsOpaque
            }),
    {
        if self.receiver_mut {
            BoundReceiverArg::AsOpaqueMut
        } else {
            BoundReceiverArg::AsOpaque
        }
    }

    /// How this method's exported symbol reaches the implementing value.
    pub fn exported_receiver(&self, receiver: &Receiver) -> (r: ExportedReceiver)
        ensures
            r == exported_receiver_of(receiver is Opaque, self.receiver_mut),
    {
        match (receiver, self.receiver_mut) {
            (Receiver::Opaque(_), false) => ExportedReceiver::Cast,
            (Receiver::Opaque(_), true) => ExportedReceiver::CastMut,
            (Receiver::Stable(_), _) => ExportedReceiver::Direct,
        }
    }

    /// The types of the parameters after the receiver, with their lifetimes erased.
    pub fn erased_args(&self) -> (r: Vec<TypeShape>)
        ensures
            types_view(r@) == erase_types(types_view(self.args@)),
    {
        let mut out: Vec<TypeShape> = Vec::new();
        let mut i: usize = 0;
        while i < self.args.len()
            invariant
                i <= self.args@.len(),
                types_view(out@) == erase_types(types_view(self.args@.take(i as int))),
            decreases self.args@.len() - i,
        {
            let e = erase_lifetimes_type(&self.args[i]);
            proof {
                let pre = self.args@.take(i as int);
                let next = self.args@.take(i + 1);
                assert(next.drop_last() =~= pre);
                assert(next.last() == self.args@[i as int]);
                let pv = types_view(pre);
                assert(types_view(next) == pv.push(type_view(self.args@[i as int])));
                assert(pv.push(type_view(self.args@[i as int])).drop_last() =~= pv);
                assert(out@.push(e).drop_last() =~= out@);
            }
            out.push(e);
            i = i + 1;
        }
        assert(self.args@.take(self.args@.len() as int) =~= self.args@);
        out
    }

    /// The return type with its lifetimes erased.
    pub fn erased_output(&self) -> (r: ReturnShape)
        ensures
            return_view(r) == erase_return(return_view(self.output)),
    {
        erase_lifetimes_return_type(&self.output)
    }
}

} // verus!
