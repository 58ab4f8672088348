use stabby_opaque::report::{report_id, declared_report, TyTy, TypeReport, ID_OFFSET, ID_PRIME};

fn step(h: u64, x: u64) -> u64 {
    (h ^ x).wrapping_mul(ID_PRIME)
}

#[test]
fn report_id_hashes_the_whole_report() {
    let end: u64 = 0xffff_ffff;
    let mut h = ID_OFFSET;
    h = step(h, 'A' as u64);
    h = step(h, end);
    h = step(h, end);
    h = step(h, 0);
    h = step(h, 1);
    h = step(h, end);
    assert_eq!(report_id(&TypeReport::opaque_marker("A", 0, "")), h);
}

#[test]
fn report_ids_tell_reports_apart() {
    let a = TypeReport::opaque_marker("Store", 0, "tests");
    let b = TypeReport::opaque_marker("Store", 1, "tests");
    let c = TypeReport::opaque_marker("Store", 0, "other");
    assert_eq!(report_id(&a), report_id(&TypeReport::opaque_marker("Store", 0, "tests")));
    assert_ne!(report_id(&a), report_id(&b));
    assert_ne!(report_id(&a), report_id(&c));
    let one = declared_report("T", "m", 0, &[("f", "extern \"C\" fn()")]);
    let other = declared_report("T", "m", 0, &[("f", "extern \"C\" fn() -> u32")]);
    assert_ne!(report_id(&one), report_id(&other));
}

#[test]
fn table_reports_list_their_fields_in_order() {
    let fields = [("log", "extern \"C\" fn()"), ("count", "extern \"C\" fn() -> u32")];
    let r = declared_report("HostApiVTable", "host", 0, &fields);
    assert_eq!(r.name, "HostApiVTable");
    assert_eq!(r.module, "host");
    assert_eq!(r.version, 0);
    assert!(matches!(r.tyty, TyTy::Struct));
    let first = r.fields.as_ref().unwrap();
    assert_eq!(first.name, "log");
    assert_eq!(first.ty.name, "extern \"C\" fn()");
    assert_eq!(first.ty.module, "fn");
    let second = first.next_field.as_ref().unwrap();
    assert_eq!(second.name, "count");
    assert_eq!(second.ty.name, "extern \"C\" fn() -> u32");
    assert!(second.next_field.is_none());
    assert!(declared_report("Empty", "m", 0, &[]).fields.is_none());
    assert_eq!(declared_report("Versioned", "m", 3, &[]).version, 3);
}
