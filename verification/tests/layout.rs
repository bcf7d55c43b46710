use cyrusc_internal::abi::callconv::{ReprAttr, ReprKind};
use cyrusc_internal::abi::helpers::{align_offset, cir_type_to_abi_type, is_cir_type_abi_aggregate};
use cyrusc_internal::abi::layout::{ABIFieldOffsetInfo, ABITypeLayout};
use cyrusc_internal::abi::target::{ABITargetArch, ABITargetInfo, ABITargetObjectFormat, ABITargetOS};
use cyrusc_internal::abi::types::ABIType;
use cyrusc_internal::cir::typectx::CIRTypeContext;
use cyrusc_internal::cir::types::{
    CIRArrayType, CIREnumType, CIREnumVariant, CIRStructType, CIRType, CIRUnionType, PlainType,
};

fn linux() -> ABITargetInfo {
    ABITargetInfo { arch: ABITargetArch::X86_64, os: ABITargetOS::Linux, format: ABITargetObjectFormat::Elf }
}

fn plain(p: PlainType) -> CIRType {
    CIRType::Plain(p)
}

fn record(fields: Vec<CIRType>) -> CIRStructType {
    CIRStructType { decl_key: None, name: None, fields, repr_attr: None, align: None }
}

#[test]
fn plain_layouts_follow_the_target() {
    let tctx = CIRTypeContext::new(linux());
    let l = tctx.layout_of(&plain(PlainType::Int128));
    assert_eq!((l.size, l.align), (16, 16));
    let l = tctx.layout_of(&plain(PlainType::USize));
    assert_eq!((l.size, l.align), (8, 8));
    let l = tctx.layout_of(&plain(PlainType::Void));
    assert_eq!((l.size, l.align), (0, 1));
    let wasm = CIRTypeContext::new(ABITargetInfo {
        arch: ABITargetArch::Wasm32,
        os: ABITargetOS::Unknown,
        format: ABITargetObjectFormat::Elf,
    });
    let l = wasm.layout_of(&plain(PlainType::USize));
    assert_eq!((l.size, l.align), (4, 4));
    let l = wasm.layout_of(&plain(PlainType::Float128));
    assert_eq!((l.size, l.align), (16, 8));
}

#[test]
fn struct_fields_are_padded_to_their_alignment() {
    let tctx = CIRTypeContext::new(linux());
    let s = record(vec![plain(PlainType::Int8), plain(PlainType::Int32), plain(PlainType::Int8)]);
    let l = tctx.compute_struct_layout(&s);
    assert_eq!((l.size, l.align), (12, 4));
    assert_eq!(l.lookup_field_offset(0), 0);
    assert_eq!(l.lookup_field_offset(1), 4);
    assert_eq!(l.lookup_field_offset(2), 8);
    assert_eq!(l.lookup_field_index(1), Some(2));
    assert_eq!(l.field_offsets.len(), 5);
    assert!(l.field_offsets[1].is_padding());
    assert_eq!(l.field_offsets[1].size(), Some(3));
    assert!(l.field_offsets[4].is_padding());
    assert_eq!(l.field_offsets[4].offset(), 9);
}

#[test]
fn packed_structs_have_no_padding() {
    let tctx = CIRTypeContext::new(linux());
    let mut s = record(vec![plain(PlainType::Int8), plain(PlainType::Int32)]);
    s.repr_attr = Some(ReprAttr { kind: Some(ReprKind::C), packed: true });
    let l = tctx.compute_struct_layout(&s);
    assert_eq!((l.size, l.align), (5, 1));
    assert_eq!(l.lookup_field_offset(1), 1);
}

#[test]
fn explicit_alignment_raises_struct_alignment() {
    let tctx = CIRTypeContext::new(linux());
    let mut s = record(vec![plain(PlainType::Int32)]);
    s.align = Some(16);
    let l = tctx.compute_struct_layout(&s);
    assert_eq!((l.size, l.align), (16, 16));
}

#[test]
fn unions_take_the_largest_field() {
    let tctx = CIRTypeContext::new(linux());
    let u = CIRUnionType {
        decl_key: None,
        name: None,
        fields: vec![plain(PlainType::Int8), plain(PlainType::Float64), plain(PlainType::Int16)],
        repr_attr: None,
        align: None,
    };
    let l = tctx.compute_union_layout(&u);
    assert_eq!((l.size, l.align), (8, 8));
    assert_eq!(l.lookup_field_offset(2), 0);
}

#[test]
fn arrays_multiply_the_element_size() {
    let tctx = CIRTypeContext::new(linux());
    let a = CIRType::Array(CIRArrayType { element_type: Box::new(plain(PlainType::Int16)), len: 5 });
    let l = tctx.layout_of(&a);
    assert_eq!((l.size, l.align), (10, 2));
    assert_eq!(l.field_offsets.len(), 5);
    assert_eq!(l.lookup_field_offset(3), 6);
}

fn unit(name: &str, tag: u32) -> CIREnumVariant {
    CIREnumVariant::Unit(name.to_string(), tag)
}

#[test]
fn enums_without_payload_are_their_tag() {
    let tctx = CIRTypeContext::new(linux());
    let e = CIREnumType {
        decl_key: None,
        name: None,
        variants: vec![unit("A", 0), unit("B", 1)],
        repr_attr: None,
        align: None,
        tag_type: None,
    };
    assert!(e.is_scalar_optimizable());
    let l = tctx.compute_enum_layout(&e);
    assert_eq!((l.size, l.align), (4, 4));
}

#[test]
fn enums_with_payload_place_it_after_the_tag() {
    let tctx = CIRTypeContext::new(linux());
    let payload = record(vec![plain(PlainType::Int64), plain(PlainType::Int8)]);
    let e = CIREnumType {
        decl_key: None,
        name: None,
        variants: vec![unit("None", 0), CIREnumVariant::Payload("Some".to_string(), payload, 1)],
        repr_attr: None,
        align: None,
        tag_type: None,
    };
    assert!(!e.is_scalar_optimizable());
    let l = tctx.compute_enum_layout(&e);
    assert_eq!((l.size, l.align), (24, 8));
}

#[test]
fn align_offset_rounds_up() {
    assert_eq!(align_offset(9, 4), 12);
    assert_eq!(align_offset(8, 4), 8);
    assert_eq!(align_offset(0, 16), 0);
}

#[test]
fn lookups_in_hand_built_layouts() {
    let layout = ABITypeLayout::aggregate(
        8,
        4,
        vec![
            ABIFieldOffsetInfo::normal(0, 0, 0),
            ABIFieldOffsetInfo::padding(1, 1, 3),
            ABIFieldOffsetInfo::normal(2, 4, 1),
        ],
    );
    assert!(layout.is_aggregate);
    assert_eq!(layout.lookup_field_index(1), Some(2));
    assert_eq!(layout.lookup_field_index(7), None);
    assert_eq!(layout.lookup_field_index_at_offset(5), Some(0));
    assert_eq!(layout.lookup_field_offset(1), 4);
    assert_eq!(layout.field_offsets[2].original_index(), Some(1));
    assert_eq!(layout.field_offsets[1].original_index(), None);
    assert_eq!(layout.field_offsets[1].index(), 1);
    assert_eq!(layout.field_offsets[0].size(), None);
    let scalar = ABITypeLayout::normal(4, 4, Vec::new());
    assert!(!scalar.is_aggregate);
    assert_eq!(scalar.lookup_field_index_at_offset(0), None);
}

#[test]
fn abi_types_of_cir_types() {
    let mut tctx = CIRTypeContext::new(linux());
    let id = tctx.insert_struct(record(vec![plain(PlainType::Bool), plain(PlainType::Char)]));
    let s = CIRType::Struct(id);
    assert!(is_cir_type_abi_aggregate(&s));
    assert!(!is_cir_type_abi_aggregate(&plain(PlainType::Int32)));
    match cir_type_to_abi_type(&tctx, &s) {
        ABIType::Struct(fields, false) => {
            assert_eq!(fields.len(), 2);
            assert!(matches!(fields[0], ABIType::Integer(1)));
            assert!(matches!(fields[1], ABIType::Integer(8)));
        },
        other => panic!("unexpected {:?}", other),
    }
    let dynamic = CIRType::Dynamic(cyrusc_internal::cir::types::CIRDynamicType { vtable_id: 1 });
    assert!(matches!(cir_type_to_abi_type(&tctx, &dynamic), ABIType::Struct(_, _)));
    assert!(matches!(cir_type_to_abi_type(&tctx, &plain(PlainType::Null)), ABIType::Pointer));
}

#[test]
fn variants_compare_without_their_tags() {
    let a = CIREnumVariant::Unit("a".to_string(), 0);
    assert!(a.eq(&CIREnumVariant::Unit("a".to_string(), 7)));
    assert!(!a.eq(&CIREnumVariant::Unit("b".to_string(), 0)));
    let v = CIREnumVariant::Valued("v".to_string(), plain(PlainType::Int32), 1);
    assert!(v.eq(&CIREnumVariant::Valued("v".to_string(), plain(PlainType::Int32), 2)));
    assert!(!v.eq(&CIREnumVariant::Valued("v".to_string(), plain(PlainType::Int64), 1)));
    assert!(!v.eq(&a));
    let p1 = CIREnumVariant::Payload("p".to_string(), record(vec![plain(PlainType::Int8)]), 0);
    let p2 = CIREnumVariant::Payload("p".to_string(), record(vec![plain(PlainType::Int8)]), 3);
    assert!(p1.eq(&p2));
    let mut aligned = record(vec![plain(PlainType::Int8)]);
    aligned.align = Some(16);
    assert!(!p1.eq(&CIREnumVariant::Payload("p".to_string(), aligned, 0)));
}
