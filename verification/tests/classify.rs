use cyrusc_internal::abi::args::{ABIArgKind, ABIRetInfoKind, Registers};
use cyrusc_internal::abi::callconv::CallConv;
use cyrusc_internal::abi::target::RegisterClass::{Integer, Memory, NoClass, SSE, SSEUP};
use cyrusc_internal::abi::target::{ABITargetArch, ABITargetInfo, ABITargetObjectFormat, ABITargetOS};
use cyrusc_internal::abi::targets::x86_64::classify::{classify, classify_merge, classify_post_merge, try_use_registers};
use cyrusc_internal::abi::targets::x86_64::target_abi::X86_64;
use cyrusc_internal::abi::types::{ABIFloatKind, ABIType};
use cyrusc_internal::cir::typectx::CIRTypeContext;
use cyrusc_internal::cir::types::cir_type_eq;
use cyrusc_internal::cir::types::{
    CIRArrayType, CIRFuncType, CIRStructType, CIRType, CIRUnionType, PlainType,
};

fn linux() -> ABITargetInfo {
    ABITargetInfo { arch: ABITargetArch::X86_64, os: ABITargetOS::Linux, format: ABITargetObjectFormat::Elf }
}

fn plain(p: PlainType) -> CIRType {
    CIRType::Plain(p)
}

fn anon_struct(fields: Vec<CIRType>) -> CIRStructType {
    CIRStructType { decl_key: None, name: None, fields, repr_attr: None, align: None }
}

fn add_struct(tctx: &mut CIRTypeContext, fields: Vec<CIRType>) -> CIRType {
    CIRType::Struct(tctx.insert_struct(anon_struct(fields)))
}

#[test]
fn merge_follows_the_class_rules() {
    assert_eq!(classify_merge(NoClass, SSE), SSE);
    assert_eq!(classify_merge(Integer, SSE), Integer);
    assert_eq!(classify_merge(SSE, SSEUP), SSE);
    assert_eq!(classify_merge(SSEUP, SSE), SSE);
    assert_eq!(classify_merge(Memory, SSE), Memory);
    assert_eq!(classify_merge(Memory, Integer), Integer);
    assert_eq!(classify_merge(SSE, SSE), SSE);
}

#[test]
fn merge_is_commutative_and_associative_on_all_classes() {
    let all = [NoClass, Memory, Integer, SSE, SSEUP];
    for a in all {
        assert_eq!(classify_merge(NoClass, a), a);
        assert_eq!(classify_merge(a, a), a);
        for b in all {
            assert_eq!(classify_merge(a, b), classify_merge(b, a));
            for c in all {
                assert_eq!(classify_merge(classify_merge(a, b), c), classify_merge(a, classify_merge(b, c)));
            }
        }
    }
}

#[test]
fn post_merge_cleans_up_class_pairs() {
    assert_eq!(classify_post_merge(16, Integer, Memory), (Memory, Memory));
    assert_eq!(classify_post_merge(24, SSE, SSEUP), (SSE, SSEUP));
    assert_eq!(classify_post_merge(24, Integer, Integer), (Memory, Integer));
    assert_eq!(classify_post_merge(16, Integer, SSEUP), (Integer, SSE));
    assert_eq!(classify_post_merge(8, Integer, NoClass), (Integer, NoClass));
}

#[test]
fn registers_are_taken_only_when_enough_are_free() {
    let mut free = Registers { int_regs: 2, sse_regs: 1 };
    assert!(try_use_registers(&mut free, &Registers { int_regs: 2, sse_regs: 0 }));
    assert_eq!(free, Registers { int_regs: 0, sse_regs: 1 });
    assert!(!try_use_registers(&mut free, &Registers { int_regs: 1, sse_regs: 0 }));
    assert_eq!(free, Registers { int_regs: 0, sse_regs: 1 });
    assert!(!try_use_registers(&mut free, &Registers { int_regs: 0, sse_regs: 2 }));
}

#[test]
fn scalars_are_classified_by_kind() {
    let tctx = CIRTypeContext::new(linux());
    let info = linux();
    assert_eq!(classify(&info, &tctx, &plain(PlainType::Int32), 0), (Integer, NoClass));
    assert_eq!(classify(&info, &tctx, &plain(PlainType::Float64), 0), (SSE, NoClass));
    assert_eq!(classify(&info, &tctx, &plain(PlainType::Float64), 8), (NoClass, SSE));
    assert_eq!(classify(&info, &tctx, &plain(PlainType::Int128), 0), (Integer, Integer));
    assert_eq!(classify(&info, &tctx, &plain(PlainType::Float128), 0), (SSE, SSEUP));
    assert_eq!(classify(&info, &tctx, &plain(PlainType::Void), 0), (NoClass, NoClass));
    let ptr = CIRType::Pointer(Box::new(plain(PlainType::Int8)));
    assert_eq!(classify(&info, &tctx, &ptr, 0), (Integer, NoClass));
    let dynamic = CIRType::Dynamic(cyrusc_internal::cir::types::CIRDynamicType { vtable_id: 3 });
    assert_eq!(classify(&info, &tctx, &dynamic, 0), (Integer, Integer));
}

#[test]
fn aggregates_are_classified_by_their_eightbytes() {
    let mut tctx = CIRTypeContext::new(linux());
    let info = linux();
    let two_floats = add_struct(&mut tctx, vec![plain(PlainType::Float32), plain(PlainType::Float32)]);
    let int_double = add_struct(&mut tctx, vec![plain(PlainType::Int64), plain(PlainType::Float64)]);
    let three_longs = add_struct(
        &mut tctx,
        vec![plain(PlainType::Int64), plain(PlainType::Int64), plain(PlainType::Int64)],
    );
    assert_eq!(classify(&info, &tctx, &two_floats, 0), (SSE, NoClass));
    assert_eq!(classify(&info, &tctx, &int_double, 0), (Integer, SSE));
    assert_eq!(classify(&info, &tctx, &three_longs, 0), (Memory, NoClass));
    let small_array = CIRType::Array(CIRArrayType { element_type: Box::new(plain(PlainType::Int32)), len: 3 });
    assert_eq!(classify(&info, &tctx, &small_array, 0), (Integer, Integer));
    let union_id = tctx.insert_union(CIRUnionType {
        decl_key: None,
        name: None,
        fields: vec![plain(PlainType::Float64), plain(PlainType::Int32)],
        repr_attr: None,
        align: None,
    });
    assert_eq!(classify(&info, &tctx, &CIRType::Union(union_id), 0), (Integer, NoClass));
}

#[test]
fn integer_arguments_are_extended() {
    let tctx = CIRTypeContext::new(linux());
    let abi = X86_64::new(linux());
    let (info, regs) = abi.classify_argument(&tctx, &plain(PlainType::Int32), 6, true);
    assert!(matches!(info.kind, ABIArgKind::DirectCoerce { ty: ABIType::Integer(32) }));
    assert!(info.attrs.sign_ext && !info.attrs.zero_ext);
    assert_eq!(regs, Registers { int_regs: 1, sse_regs: 0 });
    let (info, regs) = abi.classify_argument(&tctx, &plain(PlainType::UInt8), 6, true);
    assert!(matches!(info.kind, ABIArgKind::DirectCoerce { ty: ABIType::Integer(8) }));
    assert!(info.attrs.zero_ext && !info.attrs.sign_ext);
    assert_eq!(regs, Registers { int_regs: 1, sse_regs: 0 });
    let (info, regs) = abi.classify_argument(&tctx, &plain(PlainType::UInt128), 6, true);
    assert!(matches!(info.kind, ABIArgKind::DirectPair { lo: ABIType::Integer(128), hi: ABIType::Integer(64) }));
    assert_eq!(regs, Registers { int_regs: 2, sse_regs: 0 });
}

#[test]
fn variadic_arguments_are_promoted() {
    let tctx = CIRTypeContext::new(linux());
    let abi = X86_64::new(linux());
    let (info, regs) = abi.classify_argument(&tctx, &plain(PlainType::Float32), 6, false);
    assert!(matches!(info.kind, ABIArgKind::Direct { coerce_to: None }));
    assert_eq!(regs, Registers { int_regs: 0, sse_regs: 1 });
    assert!(matches!(abi.apply_variadic_argument_promote(&plain(PlainType::Int8)), CIRType::Plain(PlainType::Int)));
    assert!(matches!(abi.apply_variadic_argument_promote(&plain(PlainType::UInt16)), CIRType::Plain(PlainType::UInt32)));
    assert!(matches!(abi.apply_variadic_argument_promote(&plain(PlainType::Bool)), CIRType::Plain(PlainType::Int)));
    let array = CIRType::Array(CIRArrayType { element_type: Box::new(plain(PlainType::Char)), len: 4 });
    assert!(matches!(abi.apply_variadic_argument_promote(&array), CIRType::Pointer(_)));
}

#[test]
fn float_pairs_are_passed_as_vectors() {
    let mut tctx = CIRTypeContext::new(linux());
    let two_floats = add_struct(&mut tctx, vec![plain(PlainType::Float32), plain(PlainType::Float32)]);
    let abi = X86_64::new(linux());
    let (info, regs) = abi.classify_argument(&tctx, &two_floats, 6, true);
    match info.kind {
        ABIArgKind::DirectCoerce { ty: ABIType::Vector { element_ty, lanes } } => {
            assert_eq!(lanes, 2);
            assert!(matches!(*element_ty, ABIType::Float(ABIFloatKind::F32)));
        },
        other => panic!("unexpected {:?}", other),
    }
    assert_eq!(regs, Registers { int_regs: 0, sse_regs: 1 });
}

#[test]
fn two_eightbyte_structs_use_register_pairs() {
    let mut tctx = CIRTypeContext::new(linux());
    let longs = add_struct(&mut tctx, vec![plain(PlainType::Int64), plain(PlainType::Int64)]);
    let mixed = add_struct(&mut tctx, vec![plain(PlainType::Int64), plain(PlainType::Float64)]);
    let abi = X86_64::new(linux());
    let (info, regs) = abi.classify_argument(&tctx, &longs, 6, true);
    assert!(matches!(info.kind, ABIArgKind::DirectPair { lo: ABIType::Integer(64), hi: ABIType::Integer(64) }));
    assert_eq!(regs, Registers { int_regs: 2, sse_regs: 0 });
    let (info, regs) = abi.classify_argument(&tctx, &mixed, 6, true);
    assert!(matches!(
        info.kind,
        ABIArgKind::DirectPair { lo: ABIType::Integer(64), hi: ABIType::Float(ABIFloatKind::F64) }
    ));
    assert_eq!(regs, Registers { int_regs: 1, sse_regs: 1 });
}

#[test]
fn large_structs_go_in_memory_by_value() {
    let mut tctx = CIRTypeContext::new(linux());
    let big = add_struct(&mut tctx, vec![plain(PlainType::Int64), plain(PlainType::Int64), plain(PlainType::Int64)]);
    let abi = X86_64::new(linux());
    let (info, regs) = abi.classify_argument(&tctx, &big, 6, true);
    assert!(matches!(info.kind, ABIArgKind::Indirect { align: 8, .. }));
    assert!(info.attrs.by_val);
    assert_eq!(regs, Registers { int_regs: 0, sse_regs: 0 });
}

#[test]
fn return_values_are_lowered() {
    let mut tctx = CIRTypeContext::new(linux());
    let big = add_struct(&mut tctx, vec![plain(PlainType::Int64), plain(PlainType::Int64), plain(PlainType::Int64)]);
    let pair = add_struct(&mut tctx, vec![plain(PlainType::Int64), plain(PlainType::Float64)]);
    let abi = X86_64::new(linux());
    let void_ret = abi.classify_return(&tctx, &plain(PlainType::Void));
    assert!(matches!(void_ret.kind, ABIRetInfoKind::Ignore));
    let int_ret = abi.classify_return(&tctx, &plain(PlainType::Int32));
    assert!(matches!(int_ret.kind, ABIRetInfoKind::Direct { coerce_to: Some(ABIType::Integer(32)) }));
    assert!(matches!(int_ret.abi_type, ABIType::Integer(32)));
    let big_ret = abi.classify_return(&tctx, &big);
    assert!(matches!(big_ret.kind, ABIRetInfoKind::Indirect { sret: true }));
    let pair_ret = abi.classify_return(&tctx, &pair);
    assert!(matches!(pair_ret.kind, ABIRetInfoKind::DirectPair { .. }));
    match pair_ret.abi_type {
        ABIType::Struct(fields, packed) => {
            assert_eq!(fields.len(), 2);
            assert!(!packed);
        },
        other => panic!("unexpected {:?}", other),
    }
    let double_ret = abi.classify_return(&tctx, &plain(PlainType::Float64));
    assert!(matches!(double_ret.kind, ABIRetInfoKind::Direct { coerce_to: None }));
}

fn func(params: Vec<CIRType>, ret: CIRType, callconv: CallConv) -> CIRFuncType {
    CIRFuncType { params, is_var: false, ret_type: Box::new(ret), callconv, abi_func_info: None }
}

#[test]
fn sysv_functions_count_registers_and_index_parameters() {
    let mut tctx = CIRTypeContext::new(linux());
    let big = add_struct(&mut tctx, vec![plain(PlainType::Int64), plain(PlainType::Int64), plain(PlainType::Int64)]);
    let pair = add_struct(&mut tctx, vec![plain(PlainType::Int64), plain(PlainType::Int64)]);
    let abi = X86_64::new(linux());
    let f = func(vec![plain(PlainType::Int32), pair, plain(PlainType::Float64)], big, CallConv::C);
    let info = abi.classify_func(&tctx, &f).unwrap();
    assert!(matches!(info.ret_info.kind, ABIRetInfoKind::Indirect { sret: true }));
    assert_eq!(info.params_infos.len(), 3);
    assert_eq!(info.params_types.len(), 4);
    assert_eq!((info.params_infos[0].param_index_start, info.params_infos[0].param_index_end), (0, 1));
    assert_eq!((info.params_infos[1].param_index_start, info.params_infos[1].param_index_end), (1, 3));
    assert_eq!((info.params_infos[2].param_index_start, info.params_infos[2].param_index_end), (3, 4));
}

#[test]
fn arguments_spill_to_the_stack_when_registers_run_out() {
    let mut tctx = CIRTypeContext::new(linux());
    let pair = add_struct(&mut tctx, vec![plain(PlainType::Int64), plain(PlainType::Int64)]);
    let abi = X86_64::new(linux());
    let params = vec![pair.clone(), pair.clone(), pair.clone(), pair.clone(), plain(PlainType::Int64)];
    let f = func(params, plain(PlainType::Void), CallConv::SysV64);
    let info = abi.classify_func(&tctx, &f).unwrap();
    assert_eq!(info.params_infos.len(), 5);
    for i in 0..3 {
        assert!(matches!(info.params_infos[i].kind, ABIArgKind::DirectPair { .. }));
    }
    assert!(matches!(info.params_infos[3].kind, ABIArgKind::Indirect { align: 8, .. }));
    assert!(info.params_infos[3].attrs.by_val);
    assert!(matches!(info.params_infos[4].kind, ABIArgKind::DirectCoerce { ty: ABIType::Integer(64) }));
    assert_eq!(info.params_types.len(), 8);
}

#[test]
fn naked_functions_pass_arguments_unchanged() {
    let tctx = CIRTypeContext::new(linux());
    let abi = X86_64::new(linux());
    let f = func(vec![plain(PlainType::Int8), plain(PlainType::Float32)], plain(PlainType::Void), CallConv::Naked);
    let info = abi.classify_func(&tctx, &f).unwrap();
    assert!(matches!(info.ret_info.kind, ABIRetInfoKind::Ignore));
    assert!(matches!(info.params_types[0], ABIType::Integer(8)));
    assert!(matches!(info.params_types[1], ABIType::Float(ABIFloatKind::F32)));
    assert!(matches!(info.params_infos[1].kind, ABIArgKind::Direct { coerce_to: None }));
}

#[test]
fn unsupported_conventions_are_errors() {
    let tctx = CIRTypeContext::new(linux());
    let abi = X86_64::new(linux());
    let err = abi.classify_func(&tctx, &func(vec![], plain(PlainType::Void), CallConv::Stdcall)).unwrap_err();
    assert_eq!(err, "Stdcall is a 32-bit x86 convention, not supported on x86-64.");
    let err = abi.classify_func(&tctx, &func(vec![], plain(PlainType::Void), CallConv::Aapcs)).unwrap_err();
    assert_eq!(err, "AAPCS is ARM-only and not supported on x86-64.");
    let err = abi.classify_func(&tctx, &func(vec![], plain(PlainType::Void), CallConv::Interrupt)).unwrap_err();
    assert_eq!(err, "Interrupt calling convention not supported yet.");
    assert_eq!(abi.stack_alignment(), 16);
}

#[test]
fn function_types_keep_their_lowering_when_copied() {
    let tctx = CIRTypeContext::new(linux());
    let abi = X86_64::new(linux());
    let mut f = func(vec![plain(PlainType::Int32), plain(PlainType::Float64)], plain(PlainType::Int64), CallConv::C);
    f.abi_func_info = Some(abi.classify_func(&tctx, &f).unwrap());
    let ty = CIRType::Const(Box::new(CIRType::FuncType(f)));
    let copy = ty.clone();
    let g = copy.as_func().unwrap();
    assert_eq!(g.params.len(), 2);
    assert!(g.callconv == CallConv::C);
    let info = g.abi_func_info.unwrap();
    assert_eq!(info.params_infos.len(), 2);
    assert_eq!(info.params_types.len(), 2);
    assert!(matches!(info.ret_info.kind, ABIRetInfoKind::Direct { .. }));
    assert!(plain(PlainType::Int8).as_func().is_none());
}

#[test]
fn variadic_promotion_is_idempotent() {
    let abi = X86_64::new(linux());
    let narrow = [PlainType::Int8, PlainType::Int16, PlainType::UInt8, PlainType::Float16, PlainType::Bool, PlainType::Char];
    for p in narrow {
        let once = abi.apply_variadic_argument_promote(&CIRType::Const(Box::new(plain(p))));
        let twice = abi.apply_variadic_argument_promote(&once);
        assert!(cir_type_eq(&once, &twice));
        assert!(!matches!(once, CIRType::Const(_) | CIRType::Array(_)));
    }
}
