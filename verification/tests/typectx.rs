use cyrusc_internal::abi::target::{ABITargetArch, ABITargetInfo, ABITargetObjectFormat, ABITargetOS};
use cyrusc_internal::cir::typectx::{CIRTypeContext, CIRTypeDef};
use cyrusc_internal::cir::types::{CIREnumType, CIREnumVariant, CIRStructType, CIRType, CIRUnionType, PlainType};

fn linux() -> ABITargetInfo {
    ABITargetInfo { arch: ABITargetArch::X86_64, os: ABITargetOS::Linux, format: ABITargetObjectFormat::Elf }
}

fn record(decl_key: Option<u64>, fields: Vec<CIRType>) -> CIRStructType {
    CIRStructType { decl_key, name: None, fields, repr_attr: None, align: None }
}

#[test]
fn new_context_holds_the_fat_pointer() {
    let tctx = CIRTypeContext::new(linux());
    assert_eq!(tctx.len(), 1);
    let fat = tctx.fat_ptr_type();
    let id = match fat {
        CIRType::Struct(id) => id,
        _ => panic!("fat pointer is a struct"),
    };
    let s = tctx.get_struct(id);
    assert_eq!(s.name.as_deref(), Some("__fat_ptr"));
    assert_eq!(s.fields.len(), 2);
    let l = tctx.layout_of(&fat);
    assert_eq!((l.size, l.align), (16, 8));
}

#[test]
fn anonymous_structs_are_deduplicated_by_shape() {
    let mut tctx = CIRTypeContext::new(linux());
    let a = tctx.insert_struct(record(None, vec![CIRType::Plain(PlainType::Int32)]));
    let b = tctx.insert_struct(record(None, vec![CIRType::Plain(PlainType::Int32)]));
    let c = tctx.insert_struct(record(None, vec![CIRType::Plain(PlainType::Int64)]));
    assert_eq!(a, b);
    assert_ne!(a, c);
    assert_eq!(tctx.len(), 3);
    let fat_shape = tctx.insert_struct(record(
        None,
        vec![
            CIRType::Pointer(Box::new(CIRType::Plain(PlainType::Void))),
            CIRType::Const(Box::new(CIRType::Pointer(Box::new(CIRType::Plain(PlainType::Void))))),
        ],
    ));
    assert_eq!(CIRType::Struct(fat_shape).clone().as_type_id(), tctx.fat_ptr_type().as_type_id());
}

#[test]
fn named_structs_are_deduplicated_by_declaration() {
    let mut tctx = CIRTypeContext::new(linux());
    let a = tctx.insert_struct(record(Some(7), vec![CIRType::Plain(PlainType::Int32)]));
    let b = tctx.insert_struct(record(Some(7), vec![CIRType::Plain(PlainType::Int8)]));
    assert_eq!(a, b);
    assert_eq!(tctx.get_named_type(7), Some(a));
    assert_eq!(tctx.get_named_type(8), None);
    assert_eq!(tctx.get_struct(a).fields.len(), 1);
}

#[test]
fn unions_and_enums_are_deduplicated() {
    let mut tctx = CIRTypeContext::new(linux());
    let u = || CIRUnionType {
        decl_key: None,
        name: None,
        fields: vec![CIRType::Plain(PlainType::Int32), CIRType::Plain(PlainType::Float32)],
        repr_attr: None,
        align: None,
    };
    let u1 = tctx.insert_union(u());
    let u2 = tctx.insert_union(u());
    assert_eq!(u1, u2);
    let e = || CIREnumType {
        decl_key: None,
        name: Some("Color".to_string()),
        variants: vec![
            CIREnumVariant::Unit("Red".to_string(), 0),
            CIREnumVariant::Valued("Green".to_string(), CIRType::Plain(PlainType::Int32), 1),
        ],
        repr_attr: None,
        align: None,
        tag_type: None,
    };
    let e1 = tctx.insert_enum(e());
    let e2 = tctx.insert_enum(e());
    assert_eq!(e1, e2);
    assert_ne!(u1, e1);
    assert_eq!(tctx.get_enum(e1).variants.len(), 2);
    assert_eq!(tctx.get_union(u1).fields.len(), 2);
}

#[test]
fn placeholders_are_replaced_in_place() {
    let mut tctx = CIRTypeContext::new(linux());
    let id = tctx.insert_struct(record(Some(3), vec![]));
    tctx.start_lowering(3, id);
    assert!(tctx.is_lowering(3));
    assert_eq!(tctx.get_in_progress_handle(3), id);
    tctx.update_def(id, CIRTypeDef::Struct(record(Some(3), vec![CIRType::Plain(PlainType::Int64)])));
    tctx.finish_lowering(3);
    assert!(!tctx.is_lowering(3));
    assert_eq!(tctx.get_struct(id).fields.len(), 1);
    let l = tctx.get_or_compute_layout(id);
    assert_eq!((l.size, l.align), (8, 8));
}

#[test]
fn a_layout_follows_the_replaced_definition() {
    let mut tctx = CIRTypeContext::new(linux());
    let id = tctx.insert_struct(record(Some(9), vec![CIRType::Plain(PlainType::Int8)]));
    let before = tctx.get_or_compute_layout(id);
    assert_eq!((before.size, before.align), (1, 1));
    tctx.update_def(id, CIRTypeDef::Struct(record(Some(9), vec![CIRType::Plain(PlainType::Int8), CIRType::Plain(PlainType::Int32)])));
    let after = tctx.get_or_compute_layout(id);
    assert_eq!((after.size, after.align), (8, 4));
}

#[test]
fn different_structs_get_different_handles() {
    let mut tctx = CIRTypeContext::new(linux());
    let a = tctx.insert_struct(record(None, vec![CIRType::Plain(PlainType::Int8)]));
    let b = tctx.insert_struct(record(None, vec![CIRType::Plain(PlainType::Int16)]));
    let c = tctx.insert_struct(record(Some(4), vec![CIRType::Plain(PlainType::Int8)]));
    assert!(a != b && a != c && b != c);
    assert_eq!(tctx.insert_struct(record(None, vec![CIRType::Plain(PlainType::Int16)])), b);
}
