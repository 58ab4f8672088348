//! Addresses of the values that handles point to.
//!
//! A handle carries the address of its target and never reads through it, so
//! the library holds that address as a plain integer. The address of a live
//! reference is exposed, so that a caller that later turns the address back
//! into a reference keeps its provenance.

use vstd::prelude::*;

verus! {

/// The address of a shared reference, through `core::ptr::from_ref` and
/// `<*const T>::expose_provenance`. A reference is never null, so the address is
/// not zero; which address it is depends on where the value lives, so nothing
/// more is promised.
#[verifier::external_body]
pub(crate) fn address_of<T>(value: &T) -> (addr: usize)
    ensures
        addr != 0,
{
    core::ptr::from_ref(value).expose_provenance()
}

/// The address of an exclusive reference, through `core::ptr::from_mut` and
/// `<*mut T>::expose_provenance`. A reference is never null, so the address is
/// not zero; nothing more is promised of it. Taking the address writes nothing.
#[verifier::external_body]
pub(crate) fn address_of_mut<T>(value: &mut T) -> (addr: usize)
    ensures
        addr != 0,
        *final(value) == *old(value),
{
    core::ptr::from_mut(value).expose_provenance()
}

} // verus!
