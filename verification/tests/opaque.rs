use stabby_opaque::handles::{
    erased_interface_ref_report, interface_ref_mut_report, interface_ref_report, query_interface,
    query_interface_ref, ref_mut_report, ref_report, resolve_answer,
};
use stabby_opaque::report::{pointer_report, TypeReport};
use stabby_opaque::{
    Declared, ErasedInterfaceRef, ErasedInterfaceRefMut, IStable, InterfaceRef, InterfaceRefMut, Ref, RefMut,
};

pub struct Store;

impl Declared for Store {
    const NAME: &'static str = "Store";
    const MODULE: &'static str = "tests::opaque";
    const VERSION: u32 = 0;
    const FIELDS: &'static [(&'static str, &'static str)] = &[];
}

pub struct OtherStore;

impl Declared for OtherStore {
    const NAME: &'static str = "OtherStore";
    const MODULE: &'static str = "tests::opaque";
    const VERSION: u32 = 0;
    const FIELDS: &'static [(&'static str, &'static str)] = &[];
}

pub struct StoreTable {
    pub len: u32,
}

impl Declared for StoreTable {
    const NAME: &'static str = "StoreTable";
    const MODULE: &'static str = "tests::opaque";
    const VERSION: u32 = 0;
    const FIELDS: &'static [(&'static str, &'static str)] = &[];
}

pub struct OtherTable;

impl Declared for OtherTable {
    const NAME: &'static str = "OtherTable";
    const MODULE: &'static str = "tests::opaque";
    const VERSION: u32 = 0;
    const FIELDS: &'static [(&'static str, &'static str)] = &[];
}

struct StoreImpl {
    len: u32,
}

#[test]
fn opaque_markers_are_part_of_handle_reports() {
    assert!(!<Ref<Store> as IStable>::report().is_compatible(&<Ref<OtherStore> as IStable>::report()));
    assert!(!<RefMut<Store> as IStable>::report()
        .is_compatible(&<RefMut<OtherStore> as IStable>::report()));
}

#[test]
fn declared_markers_report_their_constants() {
    let r = Store::report();
    assert_eq!(r.name, "Store");
    assert_eq!(r.module, "tests::opaque");
    assert_eq!(r.version, 0);
    assert!(r.fields.is_none());
    assert!(r.is_compatible(&TypeReport::opaque_marker("Store", 0, "tests::opaque")));
}

#[test]
fn same_marker_handle_reports_are_compatible() {
    assert!(<Ref<Store> as IStable>::report().is_compatible(&<Ref<Store> as IStable>::report()));
    assert!(<RefMut<Store> as IStable>::report().is_compatible(&<RefMut<Store> as IStable>::report()));
    assert!(!<Ref<Store> as IStable>::report().is_compatible(&<RefMut<Store> as IStable>::report()));
    assert!(!<RefMut<Store> as IStable>::report().is_compatible(&<Ref<Store> as IStable>::report()));
}

#[test]
fn bound_handle_reports_track_marker_and_table() {
    let a = <InterfaceRef<Store, StoreTable> as IStable>::report();
    assert!(a.is_compatible(&<InterfaceRef<Store, StoreTable> as IStable>::report()));
    assert!(!a.is_compatible(&<InterfaceRef<OtherStore, StoreTable> as IStable>::report()));
    assert!(!a.is_compatible(&<InterfaceRef<Store, OtherTable> as IStable>::report()));
    let b = <InterfaceRefMut<Store, StoreTable> as IStable>::report();
    assert!(!a.is_compatible(&b));
    assert!(b.is_compatible(&interface_ref_mut_report(Store::report(), StoreTable::report())));
    assert!(!b.is_compatible(&<InterfaceRefMut<Store, OtherTable> as IStable>::report()));
    let e = <ErasedInterfaceRef<Store> as IStable>::report();
    assert!(e.is_compatible(&erased_interface_ref_report(Store::report())));
    assert!(!e.is_compatible(&<ErasedInterfaceRefMut<Store> as IStable>::report()));
}

#[test]
fn handle_report_layout() {
    let r = ref_report(Store::report());
    assert_eq!(r.name, "stabby::opaque::Ref");
    assert_eq!(r.module, "stabby_opaque::handles");
    assert_eq!(r.version, 0);
    let first = r.fields.as_ref().unwrap();
    assert_eq!(first.name, "ptr");
    assert_eq!(first.ty.name, "NonNull");
    let second = first.next_field.as_ref().unwrap();
    assert_eq!(second.name, "opaque");
    assert_eq!(second.ty.name, "Store");
    assert!(second.next_field.is_none());
    let m = ref_mut_report(Store::report());
    assert_eq!(m.name, "stabby::opaque::RefMut");
    let i = interface_ref_report(Store::report(), StoreTable::report());
    let this = i.fields.as_ref().unwrap();
    assert_eq!(this.name, "this");
    assert_eq!(this.ty.name, "stabby::opaque::Ref");
    let vtable = this.next_field.as_ref().unwrap();
    assert_eq!(vtable.name, "vtable");
    assert_eq!(vtable.ty.fields.as_ref().unwrap().ty.name, "StoreTable");
}

#[test]
fn compatibility_only_compares_shared_fields() {
    let short = TypeReport::opaque_marker("Pair", 0, "m");
    let long = TypeReport::pair("Pair", "m", "a", Store::report(), "b", Store::report());
    assert!(short.is_compatible(&long));
    assert!(long.is_compatible(&short));
    let other = TypeReport::pair("Pair", "m", "a", Store::report(), "c", Store::report());
    assert!(!long.is_compatible(&other));
    let versioned = TypeReport::opaque_marker("Pair", 1, "m");
    assert!(!short.is_compatible(&versioned));
    let moved = TypeReport::opaque_marker("Pair", 0, "n");
    assert!(!short.is_compatible(&moved));
}

#[test]
fn pointer_reports_follow_their_pointees() {
    assert!(pointer_report(Store::report()).is_compatible(&pointer_report(Store::report())));
    assert!(!pointer_report(Store::report()).is_compatible(&pointer_report(OtherStore::report())));
    assert!(!pointer_report(Store::report()).is_compatible(&Store::report()));
}

#[test]
fn handles_carry_the_address_of_their_value() {
    let store = StoreImpl { len: 7 };
    let other = StoreImpl { len: 5 };
    let shared = Ref::<Store>::from_ref(&store);
    assert_ne!(shared.as_ptr(), 0);
    assert_eq!(shared.as_ptr(), Ref::<Store>::from_ref(&store).as_ptr());
    assert_ne!(shared.as_ptr(), Ref::<Store>::from_ref(&other).as_ptr());
    assert_eq!(store.len + other.len, 12);
    let copy = shared;
    assert_eq!(copy.as_ptr(), shared.as_ptr());
    assert_eq!(Ref::<Store>::from_raw(42).as_ptr(), 42);
}

#[test]
fn exclusive_handles_reborrow_the_same_value() {
    let mut store = StoreImpl { len: 7 };
    let mut exclusive = RefMut::<Store>::from_mut(&mut store);
    let address = exclusive.as_ptr();
    assert_ne!(address, 0);
    assert_eq!(exclusive.reborrow().as_ptr(), address);
    assert_eq!(exclusive.as_ref().as_ptr(), address);
    assert_eq!(exclusive.as_ptr(), address);
    assert_eq!(RefMut::<Store>::from_raw(9).as_ref().as_ptr(), 9);
}

#[test]
fn bound_handles_keep_both_addresses() {
    let table = StoreTable { len: 1 };
    let shared = Ref::<Store>::from_raw(100);
    let bound = InterfaceRef::<Store, StoreTable>::new(shared, &table);
    assert_eq!(bound.as_opaque().as_ptr(), 100);
    let table_address = bound.vtable_ptr();
    assert_ne!(table_address, 0);
    let erased = bound.erase();
    assert_eq!(erased.as_opaque().as_ptr(), 100);
    assert_eq!(erased.vtable_ptr(), table_address);
    let rebound: InterfaceRef<Store, StoreTable> = erased.assume_vtable();
    assert_eq!(rebound.as_opaque().as_ptr(), 100);
    assert_eq!(rebound.vtable_ptr(), table_address);
    let raw = InterfaceRef::<Store, StoreTable>::from_raw(3, 4);
    assert_eq!((raw.as_opaque().as_ptr(), raw.vtable_ptr()), (3, 4));
    let erased = ErasedInterfaceRef::<Store>::new(Ref::from_raw(5), 6);
    assert_eq!((erased.as_opaque().as_ptr(), erased.vtable_ptr()), (5, 6));
    assert_eq!(table.len, 1);
}

#[test]
fn bound_exclusive_handles_keep_both_addresses() {
    let table = StoreTable { len: 2 };
    let mut bound = InterfaceRefMut::<Store, StoreTable>::new(RefMut::from_raw(200), &table);
    let table_address = bound.vtable_ptr();
    assert_ne!(table_address, 0);
    assert_eq!(bound.as_opaque().as_ptr(), 200);
    assert_eq!(bound.as_opaque_mut().as_ptr(), 200);
    assert_eq!(bound.as_ref().vtable_ptr(), table_address);
    assert_eq!(bound.reborrow().vtable_ptr(), table_address);
    let mut erased = bound.erase();
    assert_eq!(erased.vtable_ptr(), table_address);
    assert_eq!(erased.as_opaque().as_ptr(), 200);
    assert_eq!(erased.as_opaque_mut().as_ptr(), 200);
    assert_eq!(erased.as_ref().as_opaque().as_ptr(), 200);
    assert_eq!(erased.reborrow().vtable_ptr(), table_address);
    let rebound: InterfaceRefMut<Store, StoreTable> = erased.assume_vtable();
    assert_eq!(rebound.vtable_ptr(), table_address);
    let raw = InterfaceRefMut::<Store, StoreTable>::from_raw(7, 8);
    assert_eq!((raw.as_opaque().as_ptr(), raw.vtable_ptr()), (7, 8));
    let erased = ErasedInterfaceRefMut::<Store>::new(RefMut::from_raw(9), 10);
    assert_eq!((erased.as_opaque().as_ptr(), erased.vtable_ptr()), (9, 10));
}

#[test]
fn queries_answer_only_matching_interfaces() {
    let table = StoreTable { len: 3 };
    let mut this = RefMut::<Store>::from_raw(300);
    let report = StoreTable::report();
    let found = query_interface(&mut this, &table, 77, &report, 77, &StoreTable::report());
    let found = found.expect("matching id and report");
    assert_eq!(found.as_opaque().as_ptr(), 300);
    assert!(query_interface(&mut this, &table, 77, &report, 78, &StoreTable::report()).is_none());
    assert!(query_interface(&mut this, &table, 77, &report, 77, &OtherTable::report()).is_none());
    assert_eq!(this.as_ptr(), 300);
    let resolved: Option<InterfaceRefMut<Store, StoreTable>> = resolve_answer(Some(found));
    assert_eq!(resolved.unwrap().as_opaque().as_ptr(), 300);
    let nothing: Option<InterfaceRefMut<Store, StoreTable>> = resolve_answer(None);
    assert!(nothing.is_none());
    let shared = query_interface_ref(Ref::<Store>::from_raw(301), &table, 5, &report, 5, &report);
    assert_eq!(shared.unwrap().as_opaque().as_ptr(), 301);
    assert!(query_interface_ref(Ref::<Store>::from_raw(301), &table, 5, &report, 6, &report).is_none());
    assert_eq!(table.len, 3);
}
