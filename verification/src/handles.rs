//! Shared and exclusive handles to opaque values, bare or bound to an interface table.
//!
//! A handle carries the address of the value it stands for, and a bound handle
//! also the address of the table of functions that serve it. The handles only
//! carry these addresses: turning one back into a reference is left to code
//! that knows the concrete type behind it.

use core::marker::PhantomData;
use vstd::prelude::*;

use crate::ptr::{address_of, address_of_mut};
use crate::report::{
    compatible, lemma_compatible_reflexive, lemma_compatible_symmetric, lemma_pair_compatible, law_pointer_compatible, pair_view,
    pointer_report, pointer_size, pointer_view, unit_view, declared_fields, Declared, FieldView, IStable, ReportView, TypeReport,
};

verus! {

/// An ABI-stable shared handle to an opaque value.
pub struct Ref<Opaque: IStable> {
    ptr: usize,
    marker: PhantomData<Opaque>,
}

impl<Opaque: IStable> Ref<Opaque> {
    #[verifier::type_invariant]
    spec fn non_null(self) -> bool {
        self.ptr != 0
    }
}

impl<Opaque: IStable> View for Ref<Opaque> {
    type V = usize;

    /// The address that the handle carries.
    closed spec fn view(&self) -> usize {
        self.ptr
    }
}

impl<Opaque: IStable> Clone for Ref<Opaque> {
    fn clone(&self) -> (r: Self)
        ensures
            r@ == self@,
    {
        proof {
            use_type_invariant(self);
        }
        Ref { ptr: self.ptr, marker: PhantomData }
    }
}

impl<Opaque: IStable> Copy for Ref<Opaque> {

}

impl<Opaque: IStable> Ref<Opaque> {
    /// Creates an opaque shared handle from the address of a value.
    ///
    /// The address must be that of a value that the provider of `Opaque`
    /// accepts as the backing implementation for this handle, and it must stay
    /// valid for every call that receives the returned handle.
    pub fn from_raw(ptr: usize) -> (r: Self)
        requires
            ptr != 0,
        ensures
            r@ == ptr,
    {
        Ref { ptr, marker: PhantomData }
    }

    /// Creates an opaque shared handle to the value behind a Rust reference.
    ///
    /// The referenced value must be the backing implementation expected by the
    /// provider of `Opaque` for every function that will consume the handle.
    pub fn from_ref<T>(value: &T) -> (r: Self)
        ensures
            r@ != 0,
    {
        Ref { ptr: address_of(value), marker: PhantomData }
    }

    /// Returns the address carried by this handle.
    pub fn as_ptr(self) -> (r: usize)
        ensures
            r == self@,
            r != 0,
    {
        proof {
            use_type_invariant(&self);
        }
        self.ptr
    }
}


/// An ABI-stable shared opaque handle bound to a runtime-provided interface table.
pub struct InterfaceRef<Opaque: IStable, VTable: IStable> {
    this: Ref<Opaque>,
    vtable: usize,
    marker: PhantomData<VTable>,
}

impl<Opaque: IStable, VTable: IStable> InterfaceRef<Opaque, VTable> {
    #[verifier::type_invariant]
    spec fn non_null(self) -> bool {
        self.vtable != 0
    }
}

impl<Opaque: IStable, VTable: IStable> View for InterfaceRef<Opaque, VTable> {
    type V = (usize, usize);

    /// The address of the opaque value, then that of the interface table.
    closed spec fn view(&self) -> (usize, usize) {
        (self.this@, self.vtable)
    }
}

impl<Opaque: IStable, VTable: IStable> Clone for InterfaceRef<Opaque, VTable> {
    fn clone(&self) -> (r: Self)
        ensures
            r@ == self@,
    {
        proof {
            use_type_invariant(self);
        }
        InterfaceRef { this: self.this, vtable: self.vtable, marker: PhantomData }
    }
}

impl<Opaque: IStable, VTable: IStable> Copy for InterfaceRef<Opaque, VTable> {

}

impl<Opaque: IStable, VTable: IStable> InterfaceRef<Opaque, VTable> {
    /// Creates a bound shared interface from an opaque handle and an interface table.
    pub fn new(this: Ref<Opaque>, vtable: &VTable) -> (r: Self)
        ensures
            r@.0 == this@,
            r@.1 != 0,
    {
        InterfaceRef { this, vtable: address_of(vtable), marker: PhantomData }
    }

    /// Creates a bound shared interface from the address of an opaque value and
    /// that of an interface table.
    ///
    /// `this` must be valid for the opaque API identified by `Opaque`, and
    /// `vtable` must be the address of a `VTable` that stays valid for every
    /// method call made through the returned handle.
    pub fn from_raw(this: usize, vtable: usize) -> (r: Self)
        requires
            this != 0,
            vtable != 0,
        ensures
            r@ == (this, vtable),
    {
        InterfaceRef { this: Ref::from_raw(this), vtable, marker: PhantomData }
    }

    /// Returns the underlying shared opaque handle.
    pub fn as_opaque(&self) -> (r: Ref<Opaque>)
        ensures
            r@ == self@.0,
    {
        self.this
    }

    /// Returns the address of the interface table carried by this handle.
    pub fn vtable_ptr(&self) -> (r: usize)
        ensures
            r == self@.1,
            r != 0,
    {
        proof {
            use_type_invariant(self);
        }
        self.vtable
    }

    /// Erases the interface table's type from this bound interface.
    pub fn erase(self) -> (r: ErasedInterfaceRef<Opaque>)
        ensures
            r@ == self@,
    {
        proof {
            use_type_invariant(&self);
        }
        ErasedInterfaceRef { this: self.this, vtable: self.vtable }
    }
}

/// An ABI-stable shared opaque handle bound to an interface table whose type is erased.
pub struct ErasedInterfaceRef<Opaque: IStable> {
    this: Ref<Opaque>,
    vtable: usize,
}

impl<Opaque: IStable> ErasedInterfaceRef<Opaque> {
    #[verifier::type_invariant]
    spec fn non_null(self) -> bool {
        self.vtable != 0
    }
}

impl<Opaque: IStable> View for ErasedInterfaceRef<Opaque> {
    type V = (usize, usize);

    /// The address of the opaque value, then that of the interface table.
    closed spec fn view(&self) -> (usize, usize) {
        (self.this@, self.vtable)
    }
}

impl<Opaque: IStable> Clone for ErasedInterfaceRef<Opaque> {
    fn clone(&self) -> (r: Self)
        ensures
            r@ == self@,
    {
        proof {
            use_type_invariant(self);
        }
        ErasedInterfaceRef { this: self.this, vtable: self.vtable }
    }
}

impl<Opaque: IStable> Copy for ErasedInterfaceRef<Opaque> {

}

impl<Opaque: IStable> ErasedInterfaceRef<Opaque> {
    /// Creates an erased bound shared interface from an opaque handle and the
    /// address of an interface table.
    pub fn new(this: Ref<Opaque>, vtable: usize) -> (r: Self)
        requires
            vtable != 0,
        ensures
            r@ == (this@, vtable),
    {
        ErasedInterfaceRef { this, vtable }
    }

    /// Returns the underlying shared opaque handle.
    pub fn as_opaque(&self) -> (r: Ref<Opaque>)
        ensures
            r@ == self@.0,
    {
        self.this
    }

    /// Returns the address of the erased interface table carried by this handle.
    pub fn vtable_ptr(&self) -> (r: usize)
        ensures
            r == self@.1,
            r != 0,
    {
        proof {
            use_type_invariant(self);
        }
        self.vtable
    }

    /// Rebinds this erased interface to a concrete interface table type.
    ///
    /// The table must be a valid `VTable` that stays live for every method
    /// call through the returned handle; callers should only rebind after the
    /// provider has checked the table's report for compatibility.
    pub fn assume_vtable<VTable: IStable>(self) -> (r: InterfaceRef<Opaque, VTable>)
        ensures
            r@ == self@,
    {
        proof {
            use_type_invariant(&self);
            use_type_invariant(&self.this);
        }
        InterfaceRef::from_raw(self.this.as_ptr(), self.vtable)
    }
}

/// An ABI-stable exclusive handle to an opaque value.
pub struct RefMut<Opaque: IStable> {
    ptr: usize,
    marker: PhantomData<Opaque>,
}

impl<Opaque: IStable> RefMut<Opaque> {
    #[verifier::type_invariant]
    spec fn non_null(self) -> bool {
        self.ptr != 0
    }
}

impl<Opaque: IStable> View for RefMut<Opaque> {
    type V = usize;

    /// The address that the handle carries.
    closed spec fn view(&self) -> usize {
        self.ptr
    }
}

impl<Opaque: IStable> RefMut<Opaque> {
    /// Creates an opaque exclusive handle from the address of a value.
    ///
    /// The address must be that of a value that the provider of `Opaque`
    /// accepts as the backing implementation for this handle, and it must stay
    /// exclusively valid for every call that receives the returned handle.
    pub fn from_raw(ptr: usize) -> (r: Self)
        requires
            ptr != 0,
        ensures
            r@ == ptr,
    {
        RefMut { ptr, marker: PhantomData }
    }

    /// Creates an opaque exclusive handle to the value behind a Rust mutable reference.
    ///
    /// The referenced value must be the backing implementation expected by the
    /// provider of `Opaque` for every function that will consume the handle.
    pub fn from_mut<T>(value: &mut T) -> (r: Self)
        ensures
            r@ != 0,
            *final(value) == *old(value),
    {
        RefMut { ptr: address_of_mut(value), marker: PhantomData }
    }

    /// Returns the address carried by this handle.
    pub fn as_ptr(&self) -> (r: usize)
        ensures
            r == self@,
            r != 0,
    {
        proof {
            use_type_invariant(self);
        }
        self.ptr
    }

    /// Reborrows this handle as a shared opaque handle.
    pub fn as_ref(&self) -> (r: Ref<Opaque>)
        ensures
            r@ == self@,
    {
        proof {
            use_type_invariant(self);
        }
        Ref::from_raw(self.ptr)
    }

    /// Reborrows this handle as an exclusive opaque handle.
    pub fn reborrow(&mut self) -> (r: RefMut<Opaque>)
        ensures
            r@ == old(self)@,
            final(self)@ == old(self)@,
    {
        proof {
            use_type_invariant(&*self);
        }
        RefMut { ptr: self.ptr, marker: PhantomData }
    }
}

/// An ABI-stable exclusive opaque handle bound to a runtime-provided interface table.
pub struct InterfaceRefMut<Opaque: IStable, VTable: IStable> {
    this: RefMut<Opaque>,
    vtable: usize,
    marker: PhantomData<VTable>,
}

impl<Opaque: IStable, VTable: IStable> InterfaceRefMut<Opaque, VTable> {
    #[verifier::type_invariant]
    spec fn non_null(self) -> bool {
        self.vtable != 0
    }
}

impl<Opaque: IStable, VTable: IStable> View for InterfaceRefMut<Opaque, VTable> {
    type V = (usize, usize);

    /// The address of the opaque value, then that of the interface table.
    closed spec fn view(&self) -> (usize, usize) {
        (self.this@, self.vtable)
    }
}

impl<Opaque: IStable, VTable: IStable> InterfaceRefMut<Opaque, VTable> {
    /// Creates a bound exclusive interface from an opaque handle and an interface table.
    pub fn new(this: RefMut<Opaque>, vtable: &VTable) -> (r: Self)
        ensures
            r@.0 == this@,
            r@.1 != 0,
    {
        InterfaceRefMut { this, vtable: address_of(vtable), marker: PhantomData }
    }

    /// Creates a bound exclusive interface from the address of an opaque value
    /// and that of an interface table.
    ///
    /// `this` must be valid and exclusive for the opaque API identified by
    /// `Opaque`, and `vtable` must be the address of a `VTable` that stays
    /// valid for every method call made through the returned handle.
    pub fn from_raw(this: usize, vtable: usize) -> (r: Self)
        requires
            this != 0,
            vtable != 0,
        ensures
            r@ == (this, vtable),
    {
        InterfaceRefMut { this: RefMut::from_raw(this), vtable, marker: PhantomData }
    }

    /// Reborrows this bound handle as a shared bound handle.
    pub fn as_ref(&self) -> (r: InterfaceRef<Opaque, VTable>)
        ensures
            r@ == self@,
    {
        proof {
            use_type_invariant(self);
        }
        InterfaceRef { this: self.this.as_ref(), vtable: self.vtable, marker: PhantomData }
    }

    /// Reborrows this bound handle as an exclusive bound handle.
    pub fn reborrow(&mut self) -> (r: InterfaceRefMut<Opaque, VTable>)
        ensures
            r@ == old(self)@,
            final(self)@ == old(self)@,
    {
        proof {
            use_type_invariant(&*self);
            use_type_invariant(&self.this);
        }
        InterfaceRefMut {
            this: RefMut { ptr: self.this.ptr, marker: PhantomData },
            vtable: self.vtable,
            marker: PhantomData,
        }
    }

    /// Returns the underlying shared opaque handle.
    pub fn as_opaque(&self) -> (r: Ref<Opaque>)
        ensures
            r@ == self@.0,
    {
        self.this.as_ref()
    }

    /// Reborrows the underlying exclusive opaque handle.
    pub fn as_opaque_mut(&mut self) -> (r: RefMut<Opaque>)
        ensures
            r@ == old(self)@.0,
            final(self)@ == old(self)@,
    {
        proof {
            use_type_invariant(&self.this);
        }
        RefMut { ptr: self.this.ptr, marker: PhantomData }
    }

    /// Returns the address of the interface table carried by this handle.
    pub fn vtable_ptr(&self) -> (r: usize)
        ensures
            r == self@.1,
            r != 0,
    {
        proof {
            use_type_invariant(self);
        }
        self.vtable
    }

    /// Erases the interface table's type from this bound interface.
    pub fn erase(self) -> (r: ErasedInterfaceRefMut<Opaque>)
        ensures
            r@ == self@,
    {
        proof {
            use_type_invariant(&self);
        }
        ErasedInterfaceRefMut { this: self.this, vtable: self.vtable }
    }
}

/// An ABI-stable exclusive opaque handle bound to an interface table whose type is erased.
pub struct ErasedInterfaceRefMut<Opaque: IStable> {
    this: RefMut<Opaque>,
    vtable: usize,
}

impl<Opaque: IStable> ErasedInterfaceRefMut<Opaque> {
    #[verifier::type_invariant]
    spec fn non_null(self) -> bool {
        self.vtable != 0
    }
}

impl<Opaque: IStable> View for ErasedInterfaceRefMut<Opaque> {
    type V = (usize, usize);

    /// The address of the opaque value, then that of the interface table.
    closed spec fn view(&self) -> (usize, usize) {
        (self.this@, self.vtable)
    }
}

impl<Opaque: IStable> ErasedInterfaceRefMut<Opaque> {
    /// Creates an erased bound exclusive interface from an opaque handle and
    /// the address of an interface table.
    pub fn new(this: RefMut<Opaque>, vtable: usize) -> (r: Self)
        requires
            vtable != 0,
        ensures
            r@ == (this@, vtable),
    {
        ErasedInterfaceRefMut { this, vtable }
    }

    /// Reborrows this erased bound handle as a shared erased bound handle.
    pub fn as_ref(&self) -> (r: ErasedInterfaceRef<Opaque>)
        ensures
            r@ == self@,
    {
        proof {
            use_type_invariant(self);
        }
        ErasedInterfaceRef { this: self.this.as_ref(), vtable: self.vtable }
    }

    /// Reborrows this erased bound handle as an exclusive erased bound handle.
    pub fn reborrow(&mut self) -> (r: ErasedInterfaceRefMut<Opaque>)
        ensures
            r@ == old(self)@,
            final(self)@ == old(self)@,
    {
        proof {
            use_type_invariant(&*self);
            use_type_invariant(&self.this);
        }
        ErasedInterfaceRefMut {
            this: RefMut { ptr: self.this.ptr, marker: PhantomData },
            vtable: self.vtable,
        }
    }

    /// Returns the underlying shared opaque handle.
    pub fn as_opaque(&self) -> (r: Ref<Opaque>)
        ensures
            r@ == self@.0,
    {
        self.this.as_ref()
    }

    /// Reborrows the underlying exclusive opaque handle.
    pub fn as_opaque_mut(&mut self) -> (r: RefMut<Opaque>)
        ensures
            r@ == old(self)@.0,
            final(self)@ == old(self)@,
    {
        proof {
            use_type_invariant(&self.this);
        }
        RefMut { ptr: self.this.ptr, marker: PhantomData }
    }

    /// Returns the address of the erased interface table carried by this handle.
    pub fn vtable_ptr(&self) -> (r: usize)
        ensures
            r == self@.1,
            r != 0,
    {
        proof {
            use_type_invariant(self);
        }
        self.vtable
    }

    /// Rebinds this erased interface to a concrete interface table type.
    ///
    /// The table must be a valid `VTable` that stays live for every method
    /// call through the returned handle; callers should only rebind after the
    /// provider has checked the table's report for compatibility.
    pub fn assume_vtable<VTable: IStable>(self) -> (r: InterfaceRefMut<Opaque, VTable>)
        ensures
            r@ == self@,
    {
        proof {
            use_type_invariant(&self);
            use_type_invariant(&self.this);
        }
        InterfaceRefMut::from_raw(self.this.as_ptr(), self.vtable)
    }
}

/// Answers a query for an extension interface on an exclusive handle: where
/// `interface_id` is the table's id and `expected` is compatible with the
/// table's report, the handle bound to `vtable` with its type erased; else
/// nothing. The handle itself is left as it was.
pub fn query_interface<Opaque: IStable, VTable: IStable>(
    this: &mut RefMut<Opaque>,
    vtable: &VTable,
    vtable_id: u64,
    vtable_report: &TypeReport,
    interface_id: u64,
    expected: &TypeReport,
) -> (r: Option<ErasedInterfaceRefMut<Opaque>>)
    ensures
        r is Some <==> (interface_id == vtable_id && compatible(vtable_report@, expected@)),
        r matches Some(h) ==> h@.0 == old(this)@ && h@.1 != 0,
        final(this)@ == old(this)@,
{
    if interface_id == vtable_id && vtable_report.is_compatible(expected) {
        Some(InterfaceRefMut::new(this.reborrow(), vtable).erase())
    } else {
        None
    }
}

/// Answers a query for an extension interface on a shared handle: where
/// `interface_id` is the table's id and `expected` is compatible with the
/// table's report, the handle bound to `vtable` with its type erased; else nothing.
pub fn query_interface_ref<Opaque: IStable, VTable: IStable>(
    this: Ref<Opaque>,
    vtable: &VTable,
    vtable_id: u64,
    vtable_report: &TypeReport,
    interface_id: u64,
    expected: &TypeReport,
) -> (r: Option<ErasedInterfaceRef<Opaque>>)
    ensures
        r is Some <==> (interface_id == vtable_id && compatible(vtable_report@, expected@)),
        r matches Some(h) ==> h@.0 == this@ && h@.1 != 0,
{
    if interface_id == vtable_id && vtable_report.is_compatible(expected) {
        Some(InterfaceRef::new(this, vtable).erase())
    } else {
        None
    }
}

/// Rebinds the answer to an interface query to the table type that was asked for.
pub fn resolve_answer<Opaque: IStable, VTable: IStable>(answer: Option<ErasedInterfaceRefMut<Opaque>>) -> (r:
    Option<InterfaceRefMut<Opaque, VTable>>)
    ensures
        r is Some <==> answer is Some,
        r matches Some(h) ==> h@ == answer->0@,
{
    match answer {
        Some(found) => Some(found.assume_vtable::<VTable>()),
        None => None,
    }
}

/// Resolves typed extension interfaces from an opaque runtime capability.
///
/// Implementations should check report compatibility before returning an
/// erased interface rebound to `VTable`.
pub trait InterfaceResolverMut<Opaque: IStable> {
    /// Resolves an exclusive extension interface by its interface table type.
    fn resolve_interface<VTable: IStable>(&mut self) -> Option<InterfaceRefMut<Opaque, VTable>>;
}


/// The report of a shared opaque handle to a value whose marker's report is `opaque`.
pub open spec fn ref_view(opaque: ReportView) -> ReportView {
    pair_view(
        "stabby::opaque::Ref"@,
        "stabby_opaque::handles"@,
        "ptr"@,
        pointer_view(unit_view()),
        "opaque"@,
        opaque,
    )
}

/// The report of an exclusive opaque handle to a value whose marker's report is `opaque`.
pub open spec fn ref_mut_view(opaque: ReportView) -> ReportView {
    pair_view(
        "stabby::opaque::RefMut"@,
        "stabby_opaque::handles"@,
        "ptr"@,
        pointer_view(unit_view()),
        "opaque"@,
        opaque,
    )
}

/// The report of a bound shared handle.
pub open spec fn interface_ref_view(opaque: ReportView, vtable: ReportView) -> ReportView {
    pair_view(
        "stabby::opaque::InterfaceRef"@,
        "stabby_opaque::handles"@,
        "this"@,
        ref_view(opaque),
        "vtable"@,
        pointer_view(vtable),
    )
}

/// The report of a bound exclusive handle.
pub open spec fn interface_ref_mut_view(opaque: ReportView, vtable: ReportView) -> ReportView {
    pair_view(
        "stabby::opaque::InterfaceRefMut"@,
        "stabby_opaque::handles"@,
        "this"@,
        ref_mut_view(opaque),
        "vtable"@,
        pointer_view(vtable),
    )
}

/// The report of a bound shared handle whose interface table's type is erased.
pub open spec fn erased_interface_ref_view(opaque: ReportView) -> ReportView {
    pair_view(
        "stabby::opaque::ErasedInterfaceRef"@,
        "stabby_opaque::handles"@,
        "this"@,
        ref_view(opaque),
        "vtable"@,
        pointer_view(unit_view()),
    )
}

/// The report of a bound exclusive handle whose interface table's type is erased.
pub open spec fn erased_interface_ref_mut_view(opaque: ReportView) -> ReportView {
    pair_view(
        "stabby::opaque::ErasedInterfaceRefMut"@,
        "stabby_opaque::handles"@,
        "this"@,
        ref_mut_view(opaque),
        "vtable"@,
        pointer_view(unit_view()),
    )
}

/// The report of a shared opaque handle whose marker's report is `opaque`.
pub fn ref_report(opaque: TypeReport) -> (r: TypeReport)
    ensures
        r@ == ref_view(opaque@),
{
    TypeReport::pair(
        "stabby::opaque::Ref",
        "stabby_opaque::handles",
        "ptr",
        pointer_report(<() as IStable>::report()),
        "opaque",
        opaque,
    )
}

/// The report of an exclusive opaque handle whose marker's report is `opaque`.
pub fn ref_mut_report(opaque: TypeReport) -> (r: TypeReport)
    ensures
        r@ == ref_mut_view(opaque@),
{
    TypeReport::pair(
        "stabby::opaque::RefMut",
        "stabby_opaque::handles",
        "ptr",
        pointer_report(<() as IStable>::report()),
        "opaque",
        opaque,
    )
}

/// The report of a bound shared handle, from its marker's and its table's reports.
pub fn interface_ref_report(opaque: TypeReport, vtable: TypeReport) -> (r: TypeReport)
    ensures
        r@ == interface_ref_view(opaque@, vtable@),
        r@.fields[0].ty == ref_view(opaque@),
        r@.fields[1].ty == pointer_view(vtable@),
{
    TypeReport::pair(
        "stabby::opaque::InterfaceRef",
        "stabby_opaque::handles",
        "this",
        ref_report(opaque),
        "vtable",
        pointer_report(vtable),
    )
}

/// The report of a bound exclusive handle, from its marker's and its table's reports.
pub fn interface_ref_mut_report(opaque: TypeReport, vtable: TypeReport) -> (r: TypeReport)
    ensures
        r@ == interface_ref_mut_view(opaque@, vtable@),
        r@.fields[0].ty == ref_mut_view(opaque@),
        r@.fields[1].ty == pointer_view(vtable@),
{
    TypeReport::pair(
        "stabby::opaque::InterfaceRefMut",
        "stabby_opaque::handles",
        "this",
        ref_mut_report(opaque),
        "vtable",
        pointer_report(vtable),
    )
}

/// The report of a bound shared handle with an erased table, from its marker's report.
pub fn erased_interface_ref_report(opaque: TypeReport) -> (r: TypeReport)
    ensures
        r@ == erased_interface_ref_view(opaque@),
        r@.fields[0].ty == ref_view(opaque@),
        r@.fields[1].ty == pointer_view(unit_view()),
{
    TypeReport::pair(
        "stabby::opaque::ErasedInterfaceRef",
        "stabby_opaque::handles",
        "this",
        ref_report(opaque),
        "vtable",
        pointer_report(<() as IStable>::report()),
    )
}

/// The report of a bound exclusive handle with an erased table, from its marker's report.
pub fn erased_interface_ref_mut_report(opaque: TypeReport) -> (r: TypeReport)
    ensures
        r@ == erased_interface_ref_mut_view(opaque@),
        r@.fields[0].ty == ref_mut_view(opaque@),
        r@.fields[1].ty == pointer_view(unit_view()),
{
    TypeReport::pair(
        "stabby::opaque::ErasedInterfaceRefMut",
        "stabby_opaque::handles",
        "this",
        ref_mut_report(opaque),
        "vtable",
        pointer_report(<() as IStable>::report()),
    )
}

impl<Opaque: IStable> IStable for Ref<Opaque> {
    open spec fn report_view() -> ReportView {
        ref_view(Opaque::report_view())
    }

    open spec fn size_view() -> nat {
        pointer_size()
    }

    open spec fn align_view() -> nat {
        pointer_size()
    }

    fn report() -> (r: TypeReport) {
        ref_report(Opaque::report())
    }
}

impl<Opaque: IStable> IStable for RefMut<Opaque> {
    open spec fn report_view() -> ReportView {
        ref_mut_view(Opaque::report_view())
    }

    open spec fn size_view() -> nat {
        pointer_size()
    }

    open spec fn align_view() -> nat {
        pointer_size()
    }

    fn report() -> (r: TypeReport) {
        ref_mut_report(Opaque::report())
    }
}

impl<Opaque: IStable, VTable: IStable> IStable for InterfaceRef<Opaque, VTable> {
    open spec fn report_view() -> ReportView {
        interface_ref_view(Opaque::report_view(), VTable::report_view())
    }

    open spec fn size_view() -> nat {
        2 * pointer_size()
    }

    open spec fn align_view() -> nat {
        pointer_size()
    }

    fn report() -> (r: TypeReport) {
        interface_ref_report(Opaque::report(), VTable::report())
    }
}

impl<Opaque: IStable, VTable: IStable> IStable for InterfaceRefMut<Opaque, VTable> {
    open spec fn report_view() -> ReportView {
        interface_ref_mut_view(Opaque::report_view(), VTable::report_view())
    }

    open spec fn size_view() -> nat {
        2 * pointer_size()
    }

    open spec fn align_view() -> nat {
        pointer_size()
    }

    fn report() -> (r: TypeReport) {
        interface_ref_mut_report(Opaque::report(), VTable::report())
    }
}

impl<Opaque: IStable> IStable for ErasedInterfaceRef<Opaque> {
    open spec fn report_view() -> ReportView {
        erased_interface_ref_view(Opaque::report_view())
    }

    open spec fn size_view() -> nat {
        2 * pointer_size()
    }

    open spec fn align_view() -> nat {
        pointer_size()
    }

    fn report() -> (r: TypeReport) {
        erased_interface_ref_report(Opaque::report())
    }
}

impl<Opaque: IStable> IStable for ErasedInterfaceRefMut<Opaque> {
    open spec fn report_view() -> ReportView {
        erased_interface_ref_mut_view(Opaque::report_view())
    }

    open spec fn size_view() -> nat {
        2 * pointer_size()
    }

    open spec fn align_view() -> nat {
        pointer_size()
    }

    fn report() -> (r: TypeReport) {
        erased_interface_ref_mut_report(Opaque::report())
    }
}

/// The opaque marker is part of a shared handle's report: handles to two
/// markers are compatible exactly when the markers are.
pub proof fn law_ref_report_tracks_marker(a: ReportView, b: ReportView)
    ensures
        compatible(ref_view(a), ref_view(b)) == compatible(a, b),
{
    lemma_compatible_reflexive(pointer_view(unit_view()));
    lemma_pair_compatible(
        "stabby::opaque::Ref"@,
        "stabby_opaque::handles"@,
        "ptr"@,
        pointer_view(unit_view()),
        pointer_view(unit_view()),
        "opaque"@,
        a,
        b,
    );
}

/// The opaque marker is part of an exclusive handle's report: handles to two
/// markers are compatible exactly when the markers are.
pub proof fn law_ref_mut_report_tracks_marker(a: ReportView, b: ReportView)
    ensures
        compatible(ref_mut_view(a), ref_mut_view(b)) == compatible(a, b),
{
    lemma_compatible_reflexive(pointer_view(unit_view()));
    lemma_pair_compatible(
        "stabby::opaque::RefMut"@,
        "stabby_opaque::handles"@,
        "ptr"@,
        pointer_view(unit_view()),
        pointer_view(unit_view()),
        "opaque"@,
        a,
        b,
    );
}

/// Handles carry their markers in their reports: shared handles to two
/// markers, and exclusive handles to them, have compatible reports exactly
/// when the markers do.
pub proof fn law_handle_reports_carry_markers<A: IStable, B: IStable>()
    ensures
        compatible(Ref::<A>::report_view(), Ref::<B>::report_view()) == compatible(
            A::report_view(),
            B::report_view(),
        ),
        compatible(RefMut::<A>::report_view(), RefMut::<B>::report_view()) == compatible(
            A::report_view(),
            B::report_view(),
        ),
{
    law_ref_report_tracks_marker(A::report_view(), B::report_view());
    law_ref_mut_report_tracks_marker(A::report_view(), B::report_view());
}

/// Handles to two opaque markers have compatible reports exactly when the
/// markers declare the same name, module and version; this holds for shared
/// and for exclusive handles.
pub proof fn law_marker_handles_compatible<A: Declared, B: Declared>()
    requires
        A::FIELDS@.len() == 0,
        B::FIELDS@.len() == 0,
    ensures
        compatible(Ref::<A>::report_view(), Ref::<B>::report_view()) == (A::NAME@ == B::NAME@
            && A::MODULE@ == B::MODULE@ && A::VERSION == B::VERSION),
        compatible(RefMut::<A>::report_view(), RefMut::<B>::report_view()) == (A::NAME@ == B::NAME@
            && A::MODULE@ == B::MODULE@ && A::VERSION == B::VERSION),
{
    law_handle_reports_carry_markers::<A, B>();
    assert(declared_fields(A::FIELDS@) =~= Seq::<FieldView>::empty());
    assert(declared_fields(B::FIELDS@) =~= Seq::<FieldView>::empty());
}

/// An opaque marker takes no space: size 0 and alignment 1.
pub proof fn law_marker_layout<M: Declared>()
    requires
        M::FIELDS@.len() == 0,
    ensures
        M::size_view() == 0,
        M::align_view() == 1,
{
}

/// Handles are thin pointers at the ABI boundary, whatever their marker; a
/// bound handle is two pointers.
pub proof fn law_handle_layout<Opaque: IStable, VTable: IStable>()
    ensures
        Ref::<Opaque>::size_view() == pointer_size(),
        Ref::<Opaque>::align_view() == pointer_size(),
        RefMut::<Opaque>::size_view() == pointer_size(),
        RefMut::<Opaque>::align_view() == pointer_size(),
        InterfaceRef::<Opaque, VTable>::size_view() == 2 * pointer_size(),
        InterfaceRefMut::<Opaque, VTable>::size_view() == 2 * pointer_size(),
        ErasedInterfaceRef::<Opaque>::size_view() == 2 * pointer_size(),
        ErasedInterfaceRefMut::<Opaque>::size_view() == 2 * pointer_size(),
{
}

/// Erasing a bound handle's table type keeps the handle it binds: the erased
/// handle's `this` field is the bound handle's, which is the report of the
/// shared handle for a shared binding and of the exclusive handle for an
/// exclusive one; only the table's report is forgotten.
pub proof fn law_erasure_keeps_the_bound_handle<Opaque: IStable, VTable: IStable>()
    ensures
        ErasedInterfaceRef::<Opaque>::report_view().fields[0] == InterfaceRef::<Opaque, VTable>::report_view().fields[0],
        ErasedInterfaceRefMut::<Opaque>::report_view().fields[0] == InterfaceRefMut::<Opaque, VTable>::report_view().fields[0],
        ErasedInterfaceRef::<Opaque>::report_view().fields[0].ty == Ref::<Opaque>::report_view(),
        ErasedInterfaceRefMut::<Opaque>::report_view().fields[0].ty == RefMut::<Opaque>::report_view(),
        ErasedInterfaceRef::<Opaque>::report_view().fields[1].ty == pointer_view(<() as IStable>::report_view()),
        ErasedInterfaceRefMut::<Opaque>::report_view().fields[1].ty == pointer_view(<() as IStable>::report_view()),
{
}

/// An erased exclusive binding never passes for a shared one, whatever the
/// markers: its handle is never compatible with a shared handle, nor is the
/// whole report with an erased shared binding's.
pub proof fn law_erased_exclusive_never_passes_for_shared(a: ReportView, b: ReportView)
    ensures
        !compatible(erased_interface_ref_mut_view(a).fields[0].ty, ref_view(b)),
        !compatible(ref_view(b), erased_interface_ref_mut_view(a).fields[0].ty),
        !compatible(erased_interface_ref_mut_view(a), erased_interface_ref_view(b)),
        !compatible(interface_ref_mut_view(a, b), interface_ref_view(a, b)),
{
    law_shared_and_exclusive_reports_differ(b, a);
    lemma_compatible_symmetric(ref_view(b), erased_interface_ref_mut_view(a).fields[0].ty);
    reveal_strlit("stabby::opaque::ErasedInterfaceRefMut");
    reveal_strlit("stabby::opaque::ErasedInterfaceRef");
    reveal_strlit("stabby::opaque::InterfaceRefMut");
    reveal_strlit("stabby::opaque::InterfaceRef");
    assert("stabby::opaque::ErasedInterfaceRefMut"@.len() != "stabby::opaque::ErasedInterfaceRef"@.len());
    assert("stabby::opaque::InterfaceRefMut"@.len() != "stabby::opaque::InterfaceRef"@.len());
}

/// A shared handle's report is never compatible with an exclusive handle's.
pub proof fn law_shared_and_exclusive_reports_differ(a: ReportView, b: ReportView)
    ensures
        !compatible(ref_view(a), ref_mut_view(b)),
{
    reveal_strlit("stabby::opaque::Ref");
    reveal_strlit("stabby::opaque::RefMut");
    assert("stabby::opaque::Ref"@.len() != "stabby::opaque::RefMut"@.len());
}

/// A bound shared handle's report is compatible with another's exactly when
/// both the opaque markers and the interface tables are.
pub proof fn law_interface_ref_report_tracks_marker_and_table(
    a: ReportView,
    b: ReportView,
    v: ReportView,
    w: ReportView,
)
    ensures
        compatible(interface_ref_view(a, v), interface_ref_view(b, w)) == (compatible(a, b)
            && compatible(v, w)),
{
    law_ref_report_tracks_marker(a, b);
    law_pointer_compatible(v, w);
    lemma_pair_compatible(
        "stabby::opaque::InterfaceRef"@,
        "stabby_opaque::handles"@,
        "this"@,
        ref_view(a),
        ref_view(b),
        "vtable"@,
        pointer_view(v),
        pointer_view(w),
    );
}

/// A bound exclusive handle's report is compatible with another's exactly when
/// both the opaque markers and the interface tables are.
pub proof fn law_interface_ref_mut_report_tracks_marker_and_table(
    a: ReportView,
    b: ReportView,
    v: ReportView,
    w: ReportView,
)
    ensures
        compatible(interface_ref_mut_view(a, v), interface_ref_mut_view(b, w)) == (compatible(a, b)
            && compatible(v, w)),
{
    law_ref_mut_report_tracks_marker(a, b);
    law_pointer_compatible(v, w);
    lemma_pair_compatible(
        "stabby::opaque::InterfaceRefMut"@,
        "stabby_opaque::handles"@,
        "this"@,
        ref_mut_view(a),
        ref_mut_view(b),
        "vtable"@,
        pointer_view(v),
        pointer_view(w),
    );
}

} // verus!
