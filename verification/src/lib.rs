//! ABI-stable handles for opaque values, the reports that name their ABI
//! contracts, and the decisions that the interface code generators take.

mod ptr;

pub mod args;
pub mod handles;
pub mod lifetimes;
pub mod methods;
pub mod plans;
pub mod report;
pub mod symbols;

pub use handles::{
    ErasedInterfaceRef, ErasedInterfaceRefMut, InterfaceRef, InterfaceRefMut, InterfaceResolverMut, Ref,
    RefMut,
};
pub use report::{Declared, FieldReport, IStable, TyTy, TypeReport};
