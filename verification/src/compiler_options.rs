//! The options a compilation runs with, and their defaults and spellings.
use vstd::prelude::*;
use vstd::string::StringExecFns;

verus! {

/// Every option of a compilation.
#[derive(Debug, Clone)]
pub struct CompilerOptions {
    pub profile: CompilerOption_Profile,
    pub project_type: Option<CompilerOption_ProjectType>,
    pub module_kind: Option<CompilerOption_ModuleKind>,
    pub sanitizer: Vec<CompilerOption_Sanitizer>,
    pub build_dir: CompilerOption_BuildDir,
    pub reloc_mode: CompilerOption_RelocMode,
    pub code_model: CompilerOption_CodeModel,
    pub abi: Option<CompilerOption_CodeGenABI>,
    pub linker: Option<String>,
    pub linker_options: CompilerOption_Linker,
    pub linker_flags: Vec<String>,
    pub base_path: Option<String>,
    pub stdlib_path: Option<String>,
    pub project_name: Option<String>,
    pub project_version: Option<String>,
    pub cyrus_version: Option<String>,
    pub target: Option<String>,
    pub cpu: Option<String>,
    pub libraries: Vec<String>,
    pub library_paths: Vec<String>,
    pub source_dirs: Vec<String>,
    pub opt_level: Option<CompilerOption_Optimize>,
    pub jobs: Option<usize>,
    pub display_target_machine: bool,
    pub disable_modulefs_cache: bool,
    pub disable_warnings: bool,
    pub debuginfo_enabled: bool,
    pub quiet: bool,
    pub verbose: bool,
}

#[derive(Debug, Clone, Copy, PartialEq, Eq, Structural)]
pub enum CompilerOption_ProjectType {
    Library,
    Executable,
}

#[derive(Debug, Clone, Copy, PartialEq, Eq, Structural)]
pub enum CompilerOption_CodeGenABI {
    Cyrus,
    C,
}

#[derive(Debug, Clone, Copy, PartialEq, Eq, Structural)]
pub enum CompilerOption_ModuleKind {
    Separate,
    Unified,
}

#[derive(Debug, Clone, Copy, PartialEq, Eq, Structural)]
pub enum CompilerOption_LinkerOutputKind {
    Executable,
    SharedLib,
    StaticLib,
    ObjectFile,
}

#[derive(Debug, Clone, Copy, PartialEq, Eq, Structural)]
pub enum CompilerOption_Optimize {
    O0,
    O1,
    O2,
    O3,
    Os,
    Oz,
}

#[derive(Debug, Clone, PartialEq)]
pub enum CompilerOption_BuildDir {
    Default,
    Provided(String),
}

#[derive(Debug, Clone, Copy, PartialEq, Eq, Structural)]
pub enum CompilerOption_Endianness {
    Little,
    Big,
}

#[derive(Debug, Clone, Copy, PartialEq, Eq, Structural)]
pub enum CompilerOption_RelocMode {
    Default,
    Static,
    PIC,
    DynamicNoPic,
}

#[derive(Debug, Clone, Copy, PartialEq, Eq, Structural)]
pub enum CompilerOption_CodeModel {
    Default,
    Tiny,
    Small,
    Kernel,
    Medium,
    Large,
}

#[derive(Debug, Clone, Copy, PartialEq, Eq, Structural)]
pub enum CompilerOption_Profile {
    Debug,
    Release,
}

#[derive(Debug, Clone, Copy, PartialEq, Eq, Structural)]
pub struct CompilerOption_Linker {
    pub link_static: bool,
    pub pie: bool,
    pub no_pie: bool,
}

#[derive(Debug, Clone, Copy, PartialEq, Eq, Structural)]
pub enum CompilerOption_Sanitizer {
    Address,
    Memory,
    Thread,
    HWAddress,
}

impl Default for CompilerOptions {
    /// A debug build with default relocation, code model and build
    /// directory, default linker options, and every other option unset,
    /// empty or off.
    fn default() -> (r: Self)
        ensures
            r.profile == CompilerOption_Profile::Debug,
            r.project_type is None,
            r.module_kind is None,
            r.sanitizer@.len() == 0,
            r.build_dir is Default,
            r.reloc_mode == CompilerOption_RelocMode::Default,
            r.code_model == CompilerOption_CodeModel::Default,
            r.abi is None,
            r.linker is None,
            r.linker_options == (CompilerOption_Linker { link_static: false, pie: true, no_pie: false }),
            r.linker_flags@.len() == 0,
            r.base_path is None,
            r.stdlib_path is None,
            r.project_name is None,
            r.project_version is None,
            r.cyrus_version is None,
            r.target is None,
            r.cpu is None,
            r.libraries@.len() == 0,
            r.library_paths@.len() == 0,
            r.source_dirs@.len() == 0,
            r.opt_level is None,
            r.jobs is None,
            !r.display_target_machine,
            !r.disable_modulefs_cache,
            !r.disable_warnings,
            !r.debuginfo_enabled,
            !r.quiet,
            !r.verbose,
    {
        CompilerOptions {
            reloc_mode: CompilerOption_RelocMode::Default,
            code_model: CompilerOption_CodeModel::Default,
            build_dir: CompilerOption_BuildDir::Default,
            profile: CompilerOption_Profile::default(),
            linker_options: CompilerOption_Linker::default(),
            stdlib_path: None,
            target: None,
            cpu: None,
            module_kind: None,
            jobs: None,
            linker: None,
            base_path: None,
            project_type: None,
            project_name: None,
            opt_level: None,
            cyrus_version: None,
            project_version: None,
            abi: None,
            library_paths: Vec::new(),
            libraries: Vec::new(),
            source_dirs: Vec::new(),
            linker_flags: Vec::new(),
            sanitizer: Vec::new(),
            display_target_machine: false,
            disable_modulefs_cache: false,
            disable_warnings: false,
            debuginfo_enabled: false,
            quiet: false,
            verbose: false,
        }
    }
}

impl CompilerOption_BuildDir {
    /// Whether a build directory was given.
    pub fn build_dir_provided(&self) -> (r: bool)
        ensures
            r == (*self is Provided),
    {
        match self {
            CompilerOption_BuildDir::Provided(_) => true,
            CompilerOption_BuildDir::Default => false,
        }
    }
}

impl CompilerOption_ModuleKind {
    /// Whether all modules are compiled as one unit.
    pub fn is_unified(&self) -> (r: bool)
        ensures
            r == (*self == CompilerOption_ModuleKind::Unified),
    {
        match self {
            CompilerOption_ModuleKind::Unified => true,
            CompilerOption_ModuleKind::Separate => false,
        }
    }
}

impl CompilerOption_Profile {
    pub fn is_debug(&self) -> (r: bool)
        ensures
            r == (*self == CompilerOption_Profile::Debug),
    {
        match self {
            CompilerOption_Profile::Debug => true,
            CompilerOption_Profile::Release => false,
        }
    }

    pub fn is_release(&self) -> (r: bool)
        ensures
            r == (*self == CompilerOption_Profile::Release),
    {
        match self {
            CompilerOption_Profile::Release => true,
            CompilerOption_Profile::Debug => false,
        }
    }
}

impl Default for CompilerOption_Linker {
    /// Dynamic linking of a position-independent executable.
    fn default() -> (r: Self)
        ensures
            r == (CompilerOption_Linker { link_static: false, pie: true, no_pie: false }),
    {
        CompilerOption_Linker { link_static: false, pie: true, no_pie: false }
    }
}

impl Default for CompilerOption_Optimize {
    fn default() -> (r: Self)
        ensures
            r == CompilerOption_Optimize::O1,
    {
        CompilerOption_Optimize::O1
    }
}

impl Default for CompilerOption_CodeGenABI {
    fn default() -> (r: Self)
        ensures
            r == CompilerOption_CodeGenABI::Cyrus,
    {
        CompilerOption_CodeGenABI::Cyrus
    }
}

impl Default for CompilerOption_ProjectType {
    fn default() -> (r: Self)
        ensures
            r == CompilerOption_ProjectType::Executable,
    {
        CompilerOption_ProjectType::Executable
    }
}

impl Default for CompilerOption_Profile {
    fn default() -> (r: Self)
        ensures
            r == CompilerOption_Profile::Debug,
    {
        CompilerOption_Profile::Debug
    }
}

pub open spec fn spec_reloc_mode_name(m: CompilerOption_RelocMode) -> Seq<char> {
    match m {
        CompilerOption_RelocMode::Default => "Default"@,
        CompilerOption_RelocMode::Static => "Static"@,
        CompilerOption_RelocMode::PIC => "PIE"@,
        CompilerOption_RelocMode::DynamicNoPic => "DynamicNoPIC"@,
    }
}

pub open spec fn spec_code_model_name(m: CompilerOption_CodeModel) -> Seq<char> {
    match m {
        CompilerOption_CodeModel::Default => "Default"@,
        CompilerOption_CodeModel::Tiny => "Tiny"@,
        CompilerOption_CodeModel::Small => "Small"@,
        CompilerOption_CodeModel::Kernel => "Kernel"@,
        CompilerOption_CodeModel::Medium => "Medium"@,
        CompilerOption_CodeModel::Large => "Large"@,
    }
}

pub open spec fn spec_sanitizer_name(s: CompilerOption_Sanitizer) -> Seq<char> {
    match s {
        CompilerOption_Sanitizer::Address => "address"@,
        CompilerOption_Sanitizer::Memory => "memory"@,
        CompilerOption_Sanitizer::Thread => "thread"@,
        CompilerOption_Sanitizer::HWAddress => "hwaddress"@,
    }
}

pub open spec fn spec_optimize_name(o: CompilerOption_Optimize) -> Seq<char> {
    match o {
        CompilerOption_Optimize::O0 => "O0"@,
        CompilerOption_Optimize::O1 => "O1"@,
        CompilerOption_Optimize::O2 => "O2"@,
        CompilerOption_Optimize::O3 => "O3"@,
        CompilerOption_Optimize::Os => "Os"@,
        CompilerOption_Optimize::Oz => "Oz"@,
    }
}

impl CompilerOption_RelocMode {
    /// The name the relocation mode is shown with.
    pub fn to_string(&self) -> (r: String)
        ensures
            r@ == spec_reloc_mode_name(*self),
    {
        String::from_str(
            match self {
                CompilerOption_RelocMode::Default => "Default",
                CompilerOption_RelocMode::Static => "Static",
                CompilerOption_RelocMode::PIC => "PIE",
                CompilerOption_RelocMode::DynamicNoPic => "DynamicNoPIC",
            },
        )
    }
}

impl CompilerOption_CodeModel {
    /// The name the code model is shown with.
    pub fn to_string(&self) -> (r: String)
        ensures
            r@ == spec_code_model_name(*self),
    {
        String::from_str(
            match self {
                CompilerOption_CodeModel::Default => "Default",
                CompilerOption_CodeModel::Tiny => "Tiny",
                CompilerOption_CodeModel::Small => "Small",
                CompilerOption_CodeModel::Kernel => "Kernel",
                CompilerOption_CodeModel::Medium => "Medium",
                CompilerOption_CodeModel::Large => "Large",
            },
        )
    }
}

impl CompilerOption_Sanitizer {
    /// The name the sanitizer is requested with.
    pub fn to_string(&self) -> (r: String)
        ensures
            r@ == spec_sanitizer_name(*self),
    {
        String::from_str(
            match self {
                CompilerOption_Sanitizer::Address => "address",
                CompilerOption_Sanitizer::Memory => "memory",
                CompilerOption_Sanitizer::Thread => "thread",
                CompilerOption_Sanitizer::HWAddress => "hwaddress",
            },
        )
    }
}

impl CompilerOption_Optimize {
    /// The name the optimization level is shown with.
    pub fn to_string(&self) -> (r: String)
        ensures
            r@ == spec_optimize_name(*self),
    {
        String::from_str(
            match self {
                CompilerOption_Optimize::O0 => "O0",
                CompilerOption_Optimize::O1 => "O1",
                CompilerOption_Optimize::O2 => "O2",
                CompilerOption_Optimize::O3 => "O3",
                CompilerOption_Optimize::Os => "Os",
                CompilerOption_Optimize::Oz => "Oz",
            },
        )
    }
}

} // verus!
