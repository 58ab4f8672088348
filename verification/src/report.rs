//! Reports: the description of a type's ABI contract that two sides of an ABI
//! boundary compare before they trust each other's values.

use vstd::prelude::*;

verus! {

/// The kind of type that a report describes.
pub enum TyTy {
    Struct,
    Enum(String),
    Union,
}

/// One field of a reported type: its name, its type's report, and the next field.
pub struct FieldReport {
    pub name: String,
    pub ty: Box<TypeReport>,
    pub next_field: Option<Box<FieldReport>>,
}

/// The report of a type: its name and module, its fields in order, its
/// version, and its kind.
pub struct TypeReport {
    pub name: String,
    pub module: String,
    pub fields: Option<Box<FieldReport>>,
    pub version: u32,
    pub tyty: TyTy,
}

/// The kind of a reported type, as plain values.
pub enum TyTyView {
    Struct,
    Enum(Seq<char>),
    Union,
}

/// A reported field, as plain values.
pub struct FieldView {
    pub name: Seq<char>,
    pub ty: ReportView,
}

/// A report, as plain values: the fields are listed in order.
pub struct ReportView {
    pub name: Seq<char>,
    pub module: Seq<char>,
    pub fields: Seq<FieldView>,
    pub version: u32,
    pub tyty: TyTyView,
}

pub open spec fn tyty_view(t: TyTy) -> TyTyView {
    match t {
        TyTy::Struct => TyTyView::Struct,
        TyTy::Enum(s) => TyTyView::Enum(s@),
        TyTy::Union => TyTyView::Union,
    }
}

pub open spec fn report_view(r: TypeReport) -> ReportView
    decreases r,
{
    ReportView {
        name: r.name@,
        module: r.module@,
        fields: fields_view(r.fields),
        version: r.version,
        tyty: tyty_view(r.tyty),
    }
}

pub open spec fn fields_view(f: Option<Box<FieldReport>>) -> Seq<FieldView>
    decreases f,
{
    match f {
        None => Seq::empty(),
        Some(field) => seq![FieldView { name: field.name@, ty: report_view(*field.ty) }]
            + fields_view(field.next_field),
    }
}

impl View for TypeReport {
    type V = ReportView;

    open spec fn view(&self) -> ReportView {
        report_view(*self)
    }
}

/// Whether two reports describe the same ABI contract: the same name, module,
/// version and kind, and, over the fields that both list, the same field
/// names with compatible field types.
pub open spec fn compatible(a: ReportView, b: ReportView) -> bool
    decreases a,
{
    &&& a.name == b.name
    &&& a.module == b.module
    &&& a.version == b.version
    &&& a.tyty == b.tyty
    &&& fields_compatible(a.fields, b.fields)
}

/// Whether the fields that both lists hold agree pairwise.
pub open spec fn fields_compatible(a: Seq<FieldView>, b: Seq<FieldView>) -> bool
    decreases a,
{
    if a.len() == 0 || b.len() == 0 {
        true
    } else {
        &&& a[0].name == b[0].name
        &&& compatible(a[0].ty, b[0].ty)
        &&& fields_compatible(a.drop_first(), b.drop_first())
    }
}


impl TyTy {
    /// Whether two kinds are the same kind (for enums: with the same tag name).
    pub fn same_kind(&self, other: &TyTy) -> (r: bool)
        ensures
            r == (tyty_view(*self) == tyty_view(*other)),
    {
        match (self, other) {
            (TyTy::Struct, TyTy::Struct) => true,
            (TyTy::Enum(a), TyTy::Enum(b)) => *a == *b,
            (TyTy::Union, TyTy::Union) => true,
            _ => false,
        }
    }
}

impl TypeReport {
    /// Whether `self` and `other` describe the same ABI contract.
    pub fn is_compatible(&self, other: &TypeReport) -> (r: bool)
        ensures
            r == compatible(self@, other@),
        decreases self,
    {
        self.name == other.name && self.module == other.module && self.version == other.version
            && self.tyty.same_kind(&other.tyty) && fields_are_compatible(
            &self.fields,
            &other.fields,
        )
    }
}

fn fields_are_compatible(a: &Option<Box<FieldReport>>, b: &Option<Box<FieldReport>>) -> (r: bool)
    ensures
        r == fields_compatible(fields_view(*a), fields_view(*b)),
    decreases a,
{
    match (a, b) {
        (Some(fa), Some(fb)) => {
            let ghost va = fields_view(*a);
            let ghost vb = fields_view(*b);
            assert(va.drop_first() =~= fields_view(fa.next_field));
            assert(vb.drop_first() =~= fields_view(fb.next_field));
            fa.name == fb.name && fa.ty.is_compatible(&fb.ty) && fields_are_compatible(
                &fa.next_field,
                &fb.next_field,
            )
        },
        _ => true,
    }
}


/// `compatible` holds of every report and itself.
pub proof fn law_compatible_reflexive(r: TypeReport)
    ensures
        compatible(r@, r@),
{
    lemma_compatible_reflexive(r@);
}

/// `compatible` does not depend on the order of the two reports.
pub proof fn law_compatible_symmetric(a: TypeReport, b: TypeReport)
    ensures
        compatible(a@, b@) == compatible(b@, a@),
{
    lemma_compatible_symmetric(a@, b@);
}

pub proof fn lemma_compatible_reflexive(a: ReportView)
    ensures
        compatible(a, a),
    decreases a,
{
    lemma_fields_reflexive(a.fields);
}

pub proof fn lemma_fields_reflexive(f: Seq<FieldView>)
    ensures
        fields_compatible(f, f),
    decreases f,
{
    if f.len() > 0 {
        lemma_compatible_reflexive(f[0].ty);
        lemma_fields_reflexive(f.drop_first());
    }
}

pub proof fn lemma_compatible_symmetric(a: ReportView, b: ReportView)
    ensures
        compatible(a, b) == compatible(b, a),
    decreases a,
{
    lemma_fields_symmetric(a.fields, b.fields);
}

pub proof fn lemma_fields_symmetric(a: Seq<FieldView>, b: Seq<FieldView>)
    ensures
        fields_compatible(a, b) == fields_compatible(b, a),
    decreases a,
{
    if a.len() > 0 && b.len() > 0 {
        lemma_compatible_symmetric(a[0].ty, b[0].ty);
        lemma_fields_symmetric(a.drop_first(), b.drop_first());
    }
}

/// The report of a struct with no fields.
pub open spec fn leaf_view(name: Seq<char>, module: Seq<char>, version: u32) -> ReportView {
    ReportView {
        name: name,
        module: module,
        fields: Seq::empty(),
        version: version,
        tyty: TyTyView::Struct,
    }
}

/// The report of a version-0 struct with two fields.
pub open spec fn pair_view(
    name: Seq<char>,
    module: Seq<char>,
    first: Seq<char>,
    first_ty: ReportView,
    second: Seq<char>,
    second_ty: ReportView,
) -> ReportView {
    ReportView {
        name: name,
        module: module,
        fields: seq![
            FieldView { name: first, ty: first_ty },
            FieldView { name: second, ty: second_ty },
        ],
        version: 0,
        tyty: TyTyView::Struct,
    }
}

impl TypeReport {
    /// The report of a unit struct that only names an ABI contract: an opaque marker.
    pub fn opaque_marker(name: &str, version: u32, module: &str) -> (r: TypeReport)
        ensures
            r@ == leaf_view(name@, module@, version),
    {
        TypeReport {
            name: String::from_str(name),
            module: String::from_str(module),
            fields: None,
            version,
            tyty: TyTy::Struct,
        }
    }

    /// The report of a version-0 struct with the two given fields, in order.
    pub fn pair(
        name: &str,
        module: &str,
        first: &str,
        first_ty: TypeReport,
        second: &str,
        second_ty: TypeReport,
    ) -> (r: TypeReport)
        ensures
            r@ == pair_view(name@, module@, first@, first_ty@, second@, second_ty@),
    {
        let ghost v0 = first_ty@;
        let ghost v1 = second_ty@;
        let tail = FieldReport {
            name: String::from_str(second),
            ty: Box::new(second_ty),
            next_field: None,
        };
        let ghost tail_fields = Some(Box::new(tail));
        assert(fields_view(tail_fields) =~= seq![FieldView { name: second@, ty: v1 }]) by {
            assert(fields_view(None::<Box<FieldReport>>) =~= Seq::<FieldView>::empty());
        }
        let head = FieldReport {
            name: String::from_str(first),
            ty: Box::new(first_ty),
            next_field: Some(Box::new(tail)),
        };
        let r = TypeReport {
            name: String::from_str(name),
            module: String::from_str(module),
            fields: Some(Box::new(head)),
            version: 0,
            tyty: TyTy::Struct,
        };
        assert(fields_view(r.fields) =~= seq![
            FieldView { name: first@, ty: v0 },
            FieldView { name: second@, ty: v1 },
        ]);
        r
    }
}


/// The report of a version-0 struct with one field.
pub open spec fn single_view(name: Seq<char>, module: Seq<char>, field: Seq<char>, ty: ReportView) -> ReportView {
    ReportView {
        name: name,
        module: module,
        fields: seq![FieldView { name: field, ty: ty }],
        version: 0,
        tyty: TyTyView::Struct,
    }
}

impl TypeReport {
    /// The report of a version-0 struct with the one given field.
    pub fn single(name: &str, module: &str, field: &str, ty: TypeReport) -> (r: TypeReport)
        ensures
            r@ == single_view(name@, module@, field@, ty@),
    {
        let ghost v = ty@;
        let r = TypeReport {
            name: String::from_str(name),
            module: String::from_str(module),
            fields: Some(
                Box::new(FieldReport { name: String::from_str(field), ty: Box::new(ty), next_field: None }),
            ),
            version: 0,
            tyty: TyTy::Struct,
        };
        assert(fields_view(r.fields) =~= seq![FieldView { name: field@, ty: v }]) by {
            assert(fields_view(None::<Box<FieldReport>>) =~= Seq::<FieldView>::empty());
        }
        r
    }
}

/// The report of a struct declared with the name `name` in the module
/// `module` at version `version`, whose fields are named `fields[i].0` and
/// whose types are named by the text `fields[i].1`, each as an opaque marker.
/// An opaque marker is such a struct without fields.
pub open spec fn declared_view(
    name: Seq<char>,
    module: Seq<char>,
    version: u32,
    fields: Seq<(&str, &str)>,
) -> ReportView {
    ReportView {
        name: name,
        module: module,
        fields: declared_fields(fields),
        version: version,
        tyty: TyTyView::Struct,
    }
}

/// The fields of a declared struct's report, in order.
pub open spec fn declared_fields(fields: Seq<(&str, &str)>) -> Seq<FieldView> {
    Seq::new(fields.len(), |i: int| FieldView { name: fields[i].0@, ty: leaf_view(fields[i].1@, "fn"@, 0) })
}

/// The report of the struct `name` in the module `module` at version
/// `version`, whose fields are given in order by their names and their
/// function types' text.
pub fn declared_report(name: &str, module: &str, version: u32, fields: &[(&str, &str)]) -> (r: TypeReport)
    ensures
        r@ == declared_view(name@, module@, version, fields@),
{
    let ghost all = declared_fields(fields@);
    let mut list: Option<Box<FieldReport>> = None;
    let mut i: usize = fields.len();
    proof {
        assert(fields_view(list) =~= all.skip(i as int));
    }
    while i > 0
        invariant
            i <= fields@.len(),
            all == declared_fields(fields@),
            fields_view(list) =~= all.skip(i as int),
        decreases i,
    {
        i = i - 1;
        let (field_name, field_type) = fields[i];
        let field = FieldReport {
            name: String::from_str(field_name),
            ty: Box::new(TypeReport::opaque_marker(field_type, 0, "fn")),
            next_field: list,
        };
        list = Some(Box::new(field));
        proof {
            assert(fields_view(list) =~= seq![all[i as int]] + all.skip(i + 1));
            assert(all.skip(i as int) =~= seq![all[i as int]] + all.skip(i + 1));
        }
    }
    assert(all.skip(0) =~= all);
    let r = TypeReport {
        name: String::from_str(name),
        module: String::from_str(module),
        fields: list,
        version,
        tyty: TyTy::Struct,
    };
    assert(r@.fields =~= all);
    r
}

/// The FNV-1a offset basis, where a report's id starts.
pub const ID_OFFSET: u64 = 0xcbf2_9ce4_8422_2325u64;

/// The FNV-1a prime.
pub const ID_PRIME: u64 = 0x0100_0000_01b3u64;

/// Ends a text or a field list; no character has this code.
pub const ID_END: u64 = 0xffff_ffffu64;

/// One FNV-1a step: `x` folded into the hash `h`.
pub open spec fn id_step(h: u64, x: u64) -> u64 {
    (h ^ x).wrapping_mul(ID_PRIME)
}

/// The characters of `s` folded into `h` in order, by their codes.
pub open spec fn id_chars(h: u64, s: Seq<char>) -> u64
    decreases s.len(),
{
    if s.len() == 0 {
        h
    } else {
        id_step(id_chars(h, s.drop_last()), s.last() as u64)
    }
}

/// The text `s` folded into `h`, then its end.
pub open spec fn id_text(h: u64, s: Seq<char>) -> u64 {
    id_step(id_chars(h, s), ID_END)
}

/// The kind `t` folded into `h`.
pub open spec fn id_tyty(h: u64, t: TyTyView) -> u64 {
    match t {
        TyTyView::Struct => id_step(h, 1),
        TyTyView::Enum(tag) => id_text(id_step(h, 2), tag),
        TyTyView::Union => id_step(h, 3),
    }
}

/// The whole report `r` folded into `h`: its name, module, version, kind,
/// then each field's name and report, then the end of the fields.
pub open spec fn id_report(h: u64, r: ReportView) -> u64
    decreases r,
{
    id_fields(id_tyty(id_step(id_text(id_text(h, r.name), r.module), r.version as u64), r.tyty), r.fields)
}

/// The fields `f` folded into `h` in order, then their end.
pub open spec fn id_fields(h: u64, f: Seq<FieldView>) -> u64
    decreases f,
{
    if f.len() == 0 {
        id_step(h, ID_END)
    } else {
        id_fields(id_report(id_text(h, f[0].name), f[0].ty), f.drop_first())
    }
}

/// The id of a report: its FNV-1a hash from the offset basis.
pub open spec fn report_id_of(r: ReportView) -> u64 {
    id_report(ID_OFFSET, r)
}

fn fold_text(h: u64, s: &String) -> (r: u64)
    ensures
        r == id_text(h, s@),
{
    let text = s.as_str();
    let n = text.unicode_len();
    let mut acc = h;
    let mut i: usize = 0;
    while i < n
        invariant
            n == s@.len(),
            text@ == s@,
            i <= n,
            acc == id_chars(h, s@.take(i as int)),
        decreases n - i,
    {
        let c = text.get_char(i);
        proof {
            assert(s@.take(i + 1).drop_last() =~= s@.take(i as int));
        }
        acc = (acc ^ (c as u32 as u64)).wrapping_mul(ID_PRIME);
        i = i + 1;
    }
    assert(s@.take(n as int) =~= s@);
    (acc ^ ID_END).wrapping_mul(ID_PRIME)
}

fn fold_tyty(h: u64, t: &TyTy) -> (r: u64)
    ensures
        r == id_tyty(h, tyty_view(*t)),
{
    match t {
        TyTy::Struct => (h ^ 1).wrapping_mul(ID_PRIME),
        TyTy::Enum(tag) => fold_text((h ^ 2).wrapping_mul(ID_PRIME), tag),
        TyTy::Union => (h ^ 3).wrapping_mul(ID_PRIME),
    }
}

fn fold_report(h: u64, r: &TypeReport) -> (out: u64)
    ensures
        out == id_report(h, r@),
    decreases r,
{
    let h = fold_text(h, &r.name);
    let h = fold_text(h, &r.module);
    let h = (h ^ (r.version as u64)).wrapping_mul(ID_PRIME);
    let h = fold_tyty(h, &r.tyty);
    fold_fields(h, &r.fields)
}

fn fold_fields(h: u64, f: &Option<Box<FieldReport>>) -> (out: u64)
    ensures
        out == id_fields(h, fields_view(*f)),
    decreases f,
{
    match f {
        None => (h ^ ID_END).wrapping_mul(ID_PRIME),
        Some(field) => {
            let ghost v = fields_view(*f);
            assert(v.drop_first() =~= fields_view(field.next_field));
            let h = fold_text(h, &field.name);
            let h = fold_report(h, &field.ty);
            fold_fields(h, &field.next_field)
        },
    }
}

/// The id of `report`, which interface queries compare: the FNV-1a hash of
/// the whole report, field reports included.
pub fn report_id(report: &TypeReport) -> (r: u64)
    ensures
        r == report_id_of(report@),
{
    fold_report(ID_OFFSET, report)
}

/// A type whose ABI contract is described by a report and a layout.
///
/// Two sides of an ABI boundary agree on a type when their reports for it are
/// compatible. The handles of this crate and `()` are `IStable` by their own
/// impls; opaque markers and interface tables are `IStable` through
/// [`Declared`], by the constants they declare.
pub trait IStable {
    /// The report of `Self`, as a value.
    spec fn report_view() -> ReportView;

    /// The size of `Self` in bytes.
    spec fn size_view() -> nat;

    /// The alignment of `Self` in bytes.
    spec fn align_view() -> nat;

    /// The report of `Self`.
    fn report() -> (r: TypeReport)
        ensures
            r@ == Self::report_view(),
    ;
}

/// A `repr(C)` struct that declares its report by plain constants: an opaque
/// marker (a unit struct, with no fields) or an interface table (a struct of
/// function pointers, one field per method).
pub trait Declared {
    /// The struct's name.
    const NAME: &'static str;
    /// The module that the report names.
    const MODULE: &'static str;
    /// The version of the ABI contract.
    const VERSION: u32;
    /// Each field's name and the text of its function pointer type, in order.
    const FIELDS: &'static [(&'static str, &'static str)];
}

/// The size of a pointer in bytes.
pub open spec fn pointer_size() -> nat {
    (usize::BITS / 8) as nat
}

/// A declared struct's report is that of its constants; its layout is that of
/// a `repr(C)` struct of function pointers: empty for a marker.
impl<T: Declared> IStable for T {
    open spec fn report_view() -> ReportView {
        declared_view(T::NAME@, T::MODULE@, T::VERSION, T::FIELDS@)
    }

    open spec fn size_view() -> nat {
        T::FIELDS@.len() * pointer_size()
    }

    open spec fn align_view() -> nat {
        if T::FIELDS@.len() == 0 {
            1
        } else {
            pointer_size()
        }
    }

    fn report() -> (r: TypeReport) {
        declared_report(T::NAME, T::MODULE, T::VERSION, T::FIELDS)
    }
}

/// The report of `()`.
pub open spec fn unit_view() -> ReportView {
    leaf_view("()"@, "core::primitive"@, 0)
}

/// The report of a non-null pointer to a value whose report is `pointee`.
pub open spec fn pointer_view(pointee: ReportView) -> ReportView {
    single_view("NonNull"@, "core::ptr"@, "pointee"@, pointee)
}

impl IStable for () {
    open spec fn report_view() -> ReportView {
        unit_view()
    }

    open spec fn size_view() -> nat {
        0
    }

    open spec fn align_view() -> nat {
        1
    }

    fn report() -> (r: TypeReport) {
        TypeReport::opaque_marker("()", 0, "core::primitive")
    }
}

/// The report of a non-null pointer to a value whose report is `pointee`.
pub fn pointer_report(pointee: TypeReport) -> (r: TypeReport)
    ensures
        r@ == pointer_view(pointee@),
{
    TypeReport::single("NonNull", "core::ptr", "pointee", pointee)
}


/// Two-field structs with the same name, module and field names are compatible
/// exactly when their field types are, field by field.
pub proof fn lemma_pair_compatible(
    name: Seq<char>,
    module: Seq<char>,
    first: Seq<char>,
    a0: ReportView,
    b0: ReportView,
    second: Seq<char>,
    a1: ReportView,
    b1: ReportView,
)
    ensures
        compatible(pair_view(name, module, first, a0, second, a1), pair_view(name, module, first, b0, second, b1))
            == (compatible(a0, b0) && compatible(a1, b1)),
{
    let fa = pair_view(name, module, first, a0, second, a1).fields;
    let fb = pair_view(name, module, first, b0, second, b1).fields;
    assert(fa.drop_first() =~= seq![FieldView { name: second, ty: a1 }]);
    assert(fb.drop_first() =~= seq![FieldView { name: second, ty: b1 }]);
    assert(fa.drop_first().drop_first() =~= Seq::<FieldView>::empty());
    assert(fb.drop_first().drop_first() =~= Seq::<FieldView>::empty());
    assert(fields_compatible(fa.drop_first().drop_first(), fb.drop_first().drop_first()));
    assert(fields_compatible(fa.drop_first(), fb.drop_first()) == compatible(a1, b1));
    assert(fields_compatible(fa, fb) == (compatible(a0, b0) && compatible(a1, b1)));
}

/// Pointers are compatible exactly when their pointees are.
pub proof fn law_pointer_compatible(a: ReportView, b: ReportView)
    ensures
        compatible(pointer_view(a), pointer_view(b)) == compatible(a, b),
{
    let fa = pointer_view(a).fields;
    let fb = pointer_view(b).fields;
    assert(fa.drop_first() =~= Seq::<FieldView>::empty());
    assert(fb.drop_first() =~= Seq::<FieldView>::empty());
    assert(fields_compatible(fa.drop_first(), fb.drop_first()));
    assert(fields_compatible(fa, fb) == compatible(a, b));
}

} // verus!
