use cyrusc_internal::abi::target::{
    create_target_abi, ABITarget, ABITargetArch, ABITargetInfo, ABITargetObjectFormat, ABITargetOS,
};
use cyrusc_internal::abi::targets::x86_64::types::X86_64TargetDependentType;
use cyrusc_internal::abi::types::{ABIFloatKind, ABIType, TargetIntegerType};
use cyrusc_internal::cir::types::PlainType;

fn info(arch: ABITargetArch, os: ABITargetOS, format: ABITargetObjectFormat) -> ABITargetInfo {
    ABITargetInfo { arch, os, format }
}

#[test]
fn triples_name_arch_and_os() {
    let linux = info(ABITargetArch::X86_64, ABITargetOS::Linux, ABITargetObjectFormat::Elf);
    assert_eq!(linux.triple(), "x86_64-unknown-linux-gnu");
    let mac = info(ABITargetArch::Aarch64, ABITargetOS::MacOS, ABITargetObjectFormat::MachO);
    assert_eq!(mac.triple(), "aarch64-apple-darwin");
    let win = info(ABITargetArch::X86_64, ABITargetOS::Windows, ABITargetObjectFormat::Coff);
    assert_eq!(win.triple(), "x86_64-pc-windows-msvc");
    let wasm = info(ABITargetArch::Wasm32, ABITargetOS::Unknown, ABITargetObjectFormat::Elf);
    assert_eq!(wasm.triple(), "wasm32-unknown-unknown");
}

#[test]
fn data_layouts_per_target() {
    let linux = info(ABITargetArch::X86_64, ABITargetOS::Linux, ABITargetObjectFormat::Elf);
    assert_eq!(
        linux.emit_target_data_layout(),
        "e-m:e-p270:32:32-p271:32:32-p272:64:64-i64:64-i128:128-f80:128-n8:16:32:64-S128"
    );
    let wasm = info(ABITargetArch::Wasm32, ABITargetOS::Unknown, ABITargetObjectFormat::Elf);
    assert_eq!(wasm.emit_target_data_layout(), "e-m:e-p:32:32-p10:8:8-p20:8:8-i64:64-n32:64-S128-ni:1:10:20");
    let target = ABITarget::new(linux, create_target_abi(linux).unwrap());
    assert_eq!(target.data_layout, linux.emit_target_data_layout());
}

#[test]
fn widths_per_architecture() {
    let x64 = info(ABITargetArch::X86_64, ABITargetOS::Linux, ABITargetObjectFormat::Elf);
    let wasm = info(ABITargetArch::Wasm32, ABITargetOS::Unknown, ABITargetObjectFormat::Elf);
    assert_eq!(x64.c_int_bit_width(), 32);
    assert!(x64.is_64bit());
    assert!(!wasm.is_64bit());
    assert_eq!(x64.int_bit_width(), 64);
    assert_eq!(wasm.int_bit_width(), 32);
    assert_eq!(wasm.pointer_bit_width(), 32);
    assert_eq!(x64.pointer_size(), 8);
    assert_eq!(wasm.pointer_align(), 4);
}

#[test]
fn abi_sizes() {
    let x64 = info(ABITargetArch::X86_64, ABITargetOS::Linux, ABITargetObjectFormat::Elf);
    assert_eq!(x64.abi_size_of(&ABIType::Integer(1)), 1);
    assert_eq!(x64.abi_size_of(&ABIType::Integer(33)), 5);
    assert_eq!(x64.abi_size_of(&ABIType::Float(ABIFloatKind::F16)), 2);
    assert_eq!(x64.abi_size_of(&ABIType::Pointer), 8);
    assert_eq!(x64.abi_size_of(&ABIType::Void), 0);
    let v = ABIType::Vector { element_ty: Box::new(ABIType::Float(ABIFloatKind::F32)), lanes: 4 };
    assert_eq!(x64.abi_size_of(&v), 16);
    let a = ABIType::Array { element_ty: Box::new(ABIType::Integer(16)), count: 3 };
    assert_eq!(x64.abi_size_of(&a), 6);
    let s = ABIType::Struct(vec![ABIType::Integer(8), ABIType::Integer(64)], false);
    assert_eq!(x64.abi_size_of(&s), 9);
    let u = ABIType::Union(vec![ABIType::Integer(8), ABIType::Integer(64)]);
    assert_eq!(x64.abi_size_of(&u), 8);
    assert_eq!(x64.abi_size_of(&ABIType::Union(vec![])), 1);
    let t = ABIType::TargetIntegerType(TargetIntegerType::X86_64(X86_64TargetDependentType::USize));
    assert_eq!(x64.abi_size_of(&t), 8);
    assert_eq!(t.as_integer_bits(&x64), Some(64));
    assert_eq!(ABIType::Pointer.as_integer_bits(&x64), None);
}

#[test]
fn target_dependent_integer_sizes() {
    let x64 = info(ABITargetArch::X86_64, ABITargetOS::Linux, ABITargetObjectFormat::Elf);
    let wasm = info(ABITargetArch::Wasm32, ABITargetOS::Unknown, ABITargetObjectFormat::Elf);
    assert_eq!(X86_64TargetDependentType::Int.size(&x64), 4);
    assert_eq!(X86_64TargetDependentType::IntPtr.size(&x64), 8);
    assert_eq!(X86_64TargetDependentType::IntPtr.size(&wasm), 4);
    assert_eq!(X86_64TargetDependentType::UIntPtr.align(&wasm), 4);
    assert_eq!(X86_64TargetDependentType::UInt.bit_width(&x64), 32);
    let t = TargetIntegerType::X86_64(X86_64TargetDependentType::ISize);
    assert_eq!(t.size(&x64), 8);
    assert_eq!(t.align(&x64), 8);
    assert_eq!(t.bit_width(&wasm), 32);
}

#[test]
fn only_x86_64_linux_has_an_abi() {
    let linux = info(ABITargetArch::X86_64, ABITargetOS::Linux, ABITargetObjectFormat::Elf);
    assert!(create_target_abi(linux).is_ok());
    let mac = info(ABITargetArch::X86_64, ABITargetOS::MacOS, ABITargetObjectFormat::MachO);
    match create_target_abi(mac) {
        Err(e) => assert_eq!(e, "Unsupported target: x86_64-apple-darwin."),
        Ok(_) => panic!("macOS has no ABI yet"),
    }
}

#[test]
fn pointer_sized_plain_types_are_target_dependent() {
    let x64 = info(ABITargetArch::X86_64, ABITargetOS::Linux, ABITargetObjectFormat::Elf);
    let t = X86_64TargetDependentType::from_plain_type(&PlainType::USize);
    assert!(t == X86_64TargetDependentType::USize);
    assert_eq!(t.size(&x64), 8);
    assert!(X86_64TargetDependentType::from_plain_type(&PlainType::IntPtr) == X86_64TargetDependentType::IntPtr);
    assert!(X86_64TargetDependentType::from_plain_type(&PlainType::ISize) == X86_64TargetDependentType::ISize);
}
