use crate::abi::types::{spec_abi_size, spec_abi_size_fits, spec_abi_views, ABIFloatKind, ABIType};
use vstd::prelude::*;
use vstd::string::StringExecFns;
use crate::abi::targets::x86_64::target_abi::X86_64;

verus! {

broadcast use crate::abi::types::lemma_abi_views_index;

#[derive(Debug, Clone, Copy, PartialEq, Eq, Structural)]
pub enum ABITargetArch {
    X86_64,
    Aarch64,
    RiscV64,
    Wasm32,
}

#[derive(Debug, Clone, Copy, PartialEq, Eq, Structural)]
pub enum ABITargetOS {
    Linux,
    Windows,
    MacOS,
    Unknown,
}

#[derive(Debug, Clone, Copy, PartialEq, Eq, Structural)]
pub enum ABITargetObjectFormat {
    Elf,
    MachO,
    Coff,
}

/// The architecture, operating system and object format a compilation targets.
#[derive(Debug, Clone, Copy, PartialEq, Eq, Structural)]
pub struct ABITargetInfo {
    pub arch: ABITargetArch,
    pub os: ABITargetOS,
    pub format: ABITargetObjectFormat,
}

/// The System V register classes of an eightbyte.
#[derive(Debug, Clone, Copy, PartialEq, Eq, Structural, Hash)]
pub enum RegisterClass {
    NoClass,
    Memory,
    Integer,
    SSE,
    SSEUP,
}

/// Architecture component of a target triple.
pub open spec fn spec_arch_name(arch: ABITargetArch) -> Seq<char> {
    match arch {
        ABITargetArch::X86_64 => "x86_64"@,
        ABITargetArch::Aarch64 => "aarch64"@,
        ABITargetArch::RiscV64 => "riscv64"@,
        ABITargetArch::Wasm32 => "wasm32"@,
    }
}

/// Vendor/OS/environment component of a target triple.
pub open spec fn spec_os_name(os: ABITargetOS) -> Seq<char> {
    match os {
        ABITargetOS::Linux => "unknown-linux-gnu"@,
        ABITargetOS::Windows => "pc-windows-msvc"@,
        ABITargetOS::MacOS => "apple-darwin"@,
        ABITargetOS::Unknown => "unknown-unknown"@,
    }
}

/// The target triple: architecture, a dash, then vendor, OS and environment.
pub open spec fn spec_triple(info: ABITargetInfo) -> Seq<char> {
    spec_arch_name(info.arch) + "-"@ + spec_os_name(info.os)
}

/// Whether a data layout string is known for this architecture and OS.
pub open spec fn spec_data_layout_supported(arch: ABITargetArch, os: ABITargetOS) -> bool {
    match (arch, os) {
        (ABITargetArch::X86_64, _) => true,
        (ABITargetArch::Aarch64, ABITargetOS::MacOS) => true,
        (ABITargetArch::Aarch64, ABITargetOS::Windows) => true,
        (ABITargetArch::Wasm32, _) => true,
        _ => false,
    }
}

/// The LLVM data layout string of a supported architecture and OS.
pub open spec fn spec_data_layout(arch: ABITargetArch, os: ABITargetOS) -> Seq<char> {
    match (arch, os) {
        (ABITargetArch::X86_64, ABITargetOS::Windows) =>
            "e-m:w-p270:32:32-p271:32:32-p272:64:64-i64:64-i128:128-f80:128-n8:16:32:64-S128"@,
        (ABITargetArch::X86_64, ABITargetOS::MacOS) =>
            "e-m:o-p270:32:32-p271:32:32-p272:64:64-i64:64-i128:128-f80:128-n8:16:32:64-S128"@,
        (ABITargetArch::X86_64, _) =>
            "e-m:e-p270:32:32-p271:32:32-p272:64:64-i64:64-i128:128-f80:128-n8:16:32:64-S128"@,
        (ABITargetArch::Aarch64, ABITargetOS::MacOS) =>
            "e-m:o-p270:32:32-p271:32:32-p272:64:64-i64:64-i128:128-n32:64-S128-Fn32"@,
        (ABITargetArch::Aarch64, ABITargetOS::Windows) =>
            "e-m:w-p270:32:32-p271:32:32-p272:64:64-p:64:64-i32:32-i64:64-i128:128-n32:64-S128-Fn32"@,
        _ => "e-m:e-p:32:32-p10:8:8-p20:8:8-i64:64-n32:64-S128-ni:1:10:20"@,
    }
}

/// Native integer width in bits.
pub open spec fn spec_int_bit_width(arch: ABITargetArch) -> u32 {
    match arch {
        ABITargetArch::Wasm32 => 32,
        _ => 64,
    }
}

/// Pointer size in bytes.
pub open spec fn spec_pointer_size(arch: ABITargetArch) -> u32 {
    match arch {
        ABITargetArch::Wasm32 => 4,
        _ => 8,
    }
}

/// Pointer alignment in bytes.
pub open spec fn spec_pointer_align(arch: ABITargetArch) -> u32 {
    match arch {
        ABITargetArch::Wasm32 => 4,
        _ => 8,
    }
}

impl ABITargetInfo {
    /// Generates the triple string used by LLVM.
    pub fn triple(&self) -> (r: String)
        ensures
            r@ == spec_triple(*self),
    {
        let arch_str = match self.arch {
            ABITargetArch::X86_64 => "x86_64",
            ABITargetArch::Aarch64 => "aarch64",
            ABITargetArch::RiscV64 => "riscv64",
            ABITargetArch::Wasm32 => "wasm32",
        };
        let os_str = match self.os {
            ABITargetOS::Linux => "unknown-linux-gnu",
            ABITargetOS::Windows => "pc-windows-msvc",
            ABITargetOS::MacOS => "apple-darwin",
            ABITargetOS::Unknown => "unknown-unknown",
        };
        let mut s = String::from_str(arch_str);
        s.append("-");
        s.append(os_str);
        s
    }

    /// The LLVM data layout string of this target.
    pub fn emit_target_data_layout(&self) -> (r: &'static str)
        requires
            spec_data_layout_supported(self.arch, self.os),
        ensures
            r@ == spec_data_layout(self.arch, self.os),
    {
        match (self.arch, self.os) {
            (ABITargetArch::X86_64, ABITargetOS::Windows) =>
                "e-m:w-p270:32:32-p271:32:32-p272:64:64-i64:64-i128:128-f80:128-n8:16:32:64-S128",
            (ABITargetArch::X86_64, ABITargetOS::MacOS) =>
                "e-m:o-p270:32:32-p271:32:32-p272:64:64-i64:64-i128:128-f80:128-n8:16:32:64-S128",
            (ABITargetArch::X86_64, _) =>
                "e-m:e-p270:32:32-p271:32:32-p272:64:64-i64:64-i128:128-f80:128-n8:16:32:64-S128",
            (ABITargetArch::Aarch64, ABITargetOS::MacOS) =>
                "e-m:o-p270:32:32-p271:32:32-p272:64:64-i64:64-i128:128-n32:64-S128-Fn32",
            (ABITargetArch::Aarch64, ABITargetOS::Windows) =>
                "e-m:w-p270:32:32-p271:32:32-p272:64:64-p:64:64-i32:32-i64:64-i128:128-n32:64-S128-Fn32",
            _ => "e-m:e-p:32:32-p10:8:8-p20:8:8-i64:64-n32:64-S128-ni:1:10:20",
        }
    }

    /// The size in bytes of an ABI type on this target.
    pub fn abi_size_of(&self, abi_type: &ABIType) -> (r: u64)
        requires
            spec_abi_size_fits(*self, abi_type@),
        ensures
            r == spec_abi_size(*self, abi_type@),
        decreases abi_type,
    {
        match abi_type {
            ABIType::Integer(bits) => (*bits as u64 + 7) / 8,
            ABIType::Float(kind) => match kind {
                ABIFloatKind::F16 => 2,
                ABIFloatKind::F32 => 4,
                ABIFloatKind::F64 => 8,
                ABIFloatKind::F128 => 16,
            },
            ABIType::Pointer => 8,
            ABIType::Vector { element_ty, lanes } => {
                let e = self.abi_size_of(element_ty);
                e * (*lanes as u64)
            },
            ABIType::Array { element_ty, count } => {
                let e = self.abi_size_of(element_ty);
                e * (*count as u64)
            },
            ABIType::Struct(fields, _) => {
                let mut sum: u64 = 0;
                let mut i: usize = 0;
                #[verifier::loop_isolation(false)]
                while i < fields.len()
                    invariant
                        i <= fields.len(),
                        crate::abi::types::spec_all_sizes_fit(*self, spec_abi_views(fields@)),
                        crate::abi::types::spec_sum_sizes(*self, spec_abi_views(fields@)) <= u64::MAX,
                        sum == crate::abi::types::spec_sum_sizes(*self, spec_abi_views(fields@).take(i as int)),
                    decreases fields.len() - i,
                {
                    proof {
                        crate::abi::types::lemma_sum_sizes_prefix(*self, spec_abi_views(fields@), i as int + 1);
                        crate::abi::types::lemma_all_sizes_fit_index(*self, spec_abi_views(fields@), i as int);
                        assert(spec_abi_views(fields@).take(i as int + 1).drop_last() =~= spec_abi_views(fields@).take(i as int));
                    }
                    proof {
                        assert(decreases_to!(*fields => fields@[i as int]));
                    }
                    let s = self.abi_size_of(&fields[i]);
                    sum = sum + s;
                    i = i + 1;
                }
                proof { assert(spec_abi_views(fields@).take(fields@.len() as int) =~= spec_abi_views(fields@)); }
                sum
            },
            ABIType::Union(fields) => {
                let mut best: Option<u64> = None;
                let mut i: usize = 0;
                #[verifier::loop_isolation(false)]
                while i < fields.len()
                    invariant
                        i <= fields.len(),
                        crate::abi::types::spec_all_sizes_fit(*self, spec_abi_views(fields@)),
                        crate::abi::types::spec_max_size(*self, spec_abi_views(fields@)) matches Some(m) ==> m <= u64::MAX,
                        crate::abi::types::spec_max_size(*self, spec_abi_views(fields@).take(i as int)) == match best {
                            Some(b) => Some(b as nat),
                            None => None,
                        },
                    decreases fields.len() - i,
                {
                    proof {
                        crate::abi::types::lemma_max_size_prefix(*self, spec_abi_views(fields@), i as int + 1);
                        crate::abi::types::lemma_all_sizes_fit_index(*self, spec_abi_views(fields@), i as int);
                        assert(spec_abi_views(fields@).take(i as int + 1).drop_last() =~= spec_abi_views(fields@).take(i as int));
                    }
                    proof {
                        assert(decreases_to!(*fields => fields@[i as int]));
                    }
                    let s = self.abi_size_of(&fields[i]);
                    best = match best {
                        None => Some(s),
                        Some(b) => if s >= b { Some(s) } else { Some(b) },
                    };
                    i = i + 1;
                }
                proof { assert(spec_abi_views(fields@).take(fields@.len() as int) =~= spec_abi_views(fields@)); }
                match best {
                    Some(b) => b,
                    None => 1,
                }
            },
            ABIType::TargetIntegerType(target_int) => target_int.size(self) as u64,
            ABIType::Void => 0,
        }
    }

    /// Returns the bit width of C `int` for this target.
    pub fn c_int_bit_width(&self) -> (r: u32)
        ensures
            r == 32,
    {
        match self.arch {
            ABITargetArch::X86_64 | ABITargetArch::Aarch64 | ABITargetArch::RiscV64 => 32,
            ABITargetArch::Wasm32 => 32,
        }
    }

    pub fn is_64bit(&self) -> (r: bool)
        ensures
            r == (spec_int_bit_width(self.arch) == 64),
    {
        self.int_bit_width() == 64
    }

    pub fn int_bit_width(&self) -> (r: u32)
        ensures
            r == spec_int_bit_width(self.arch),
    {
        match self.arch {
            ABITargetArch::X86_64 | ABITargetArch::Aarch64 | ABITargetArch::RiscV64 => 64,
            ABITargetArch::Wasm32 => 32,
        }
    }

    pub fn pointer_bit_width(&self) -> (r: u32)
        ensures
            r == spec_pointer_size(self.arch) * 8,
    {
        match self.arch {
            ABITargetArch::X86_64 | ABITargetArch::Aarch64 | ABITargetArch::RiscV64 => 64,
            ABITargetArch::Wasm32 => 32,
        }
    }

    pub fn pointer_size(&self) -> (r: u32)
        ensures
            r == spec_pointer_size(self.arch),
    {
        match self.arch {
            ABITargetArch::X86_64 | ABITargetArch::Aarch64 | ABITargetArch::RiscV64 => 8,
            ABITargetArch::Wasm32 => 4,
        }
    }

    pub fn pointer_align(&self) -> (r: u32)
        ensures
            r == spec_pointer_align(self.arch),
    {
        match self.arch {
            ABITargetArch::X86_64 | ABITargetArch::Aarch64 | ABITargetArch::RiscV64 => 8,
            ABITargetArch::Wasm32 => 4,
        }
    }
}


/// The message for a target no ABI is provided for.
pub open spec fn spec_unsupported_target_message(info: ABITargetInfo) -> Seq<char> {
    "Unsupported target: "@ + spec_triple(info) + "."@
}

/// The ABI lowering for a target: System V for x86-64 Linux ELF, an error
/// naming the triple for targets without one (AArch64 Linux ELF is not
/// implemented yet and is left out).
pub fn create_target_abi(target_info: ABITargetInfo) -> (r: Result<X86_64, String>)
    requires
        !(target_info.arch == ABITargetArch::Aarch64 && target_info.os == ABITargetOS::Linux && target_info.format
            == ABITargetObjectFormat::Elf),
    ensures
        match r {
            Ok(abi) => target_info.arch == ABITargetArch::X86_64 && target_info.os == ABITargetOS::Linux
                && target_info.format == ABITargetObjectFormat::Elf && abi.spec_info() == target_info,
            Err(e) => !(target_info.arch == ABITargetArch::X86_64 && target_info.os == ABITargetOS::Linux
                && target_info.format == ABITargetObjectFormat::Elf) && e@ == spec_unsupported_target_message(target_info),
        },
{
    match (target_info.arch, target_info.os, target_info.format) {
        (ABITargetArch::X86_64, ABITargetOS::Linux, ABITargetObjectFormat::Elf) => Ok(X86_64::new(target_info)),
        _ => {
            let triple = target_info.triple();
            let mut message = String::from_str("Unsupported target: ");
            message.append(triple.as_str());
            message.append(".");
            Err(message)
        },
    }
}

/// A target with its data layout string and its ABI lowering.
pub struct ABITarget {
    pub info: ABITargetInfo,
    pub data_layout: String,
    pub target_abi: X86_64,
}

impl ABITarget {
    pub fn new(info: ABITargetInfo, target_abi: X86_64) -> (r: Self)
        requires
            spec_data_layout_supported(info.arch, info.os),
        ensures
            r.info == info,
            r.data_layout@ == spec_data_layout(info.arch, info.os),
            r.target_abi == target_abi,
    {
        ABITarget { data_layout: String::from_str(info.emit_target_data_layout()), info, target_abi }
    }
}

/// A triple names the architecture and the operating system and nothing
/// else: two targets have the same triple exactly when they agree on both
/// (the object format plays no part).
pub proof fn lemma_triple_determines_arch_and_os(a: ABITargetInfo, b: ABITargetInfo)
    ensures
        spec_triple(a) == spec_triple(b) <==> (a.arch == b.arch && a.os == b.os),
{
    reveal_strlit("x86_64");
    reveal_strlit("aarch64");
    reveal_strlit("riscv64");
    reveal_strlit("wasm32");
    reveal_strlit("-");
    reveal_strlit("unknown-linux-gnu");
    reveal_strlit("pc-windows-msvc");
    reveal_strlit("apple-darwin");
    reveal_strlit("unknown-unknown");
    if spec_triple(a) == spec_triple(b) {
        let an = spec_arch_name(a.arch);
        let bn = spec_arch_name(b.arch);
        assert(spec_triple(a)[0] == an[0]);
        assert(spec_triple(b)[0] == bn[0]);
        assert(a.arch == b.arch);
        let k = (an.len() + 1) as int;
        assert(spec_triple(a).skip(k) =~= spec_os_name(a.os));
        assert(spec_triple(b).skip(k) =~= spec_os_name(b.os));
        let ao = spec_os_name(a.os);
        let bo = spec_os_name(b.os);
        assert(ao == bo);
        if a.os != b.os {
            assert(ao.len() != bo.len() || ao[0] != bo[0] || ao[ao.len() - 1] != bo[bo.len() - 1]);
        }
    }
}

} // verus!
