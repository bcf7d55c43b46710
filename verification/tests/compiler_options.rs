use cyrusc_internal::compiler_options::{
    CompilerOption_BuildDir, CompilerOption_CodeGenABI, CompilerOption_CodeModel, CompilerOption_Linker,
    CompilerOption_ModuleKind, CompilerOption_Optimize, CompilerOption_Profile, CompilerOption_ProjectType,
    CompilerOption_RelocMode, CompilerOption_Sanitizer, CompilerOptions,
};

#[test]
fn default_options_are_a_plain_debug_build() {
    let o = CompilerOptions::default();
    assert!(o.profile.is_debug());
    assert!(!o.profile.is_release());
    assert!(o.project_type.is_none());
    assert!(o.module_kind.is_none());
    assert!(o.sanitizer.is_empty());
    assert!(!o.build_dir.build_dir_provided());
    assert!(o.reloc_mode == CompilerOption_RelocMode::Default);
    assert!(o.code_model == CompilerOption_CodeModel::Default);
    assert!(o.linker_options == CompilerOption_Linker { link_static: false, pie: true, no_pie: false });
    assert!(o.target.is_none());
    assert!(o.opt_level.is_none());
    assert!(o.jobs.is_none());
    assert!(o.source_dirs.is_empty());
    assert!(!o.quiet && !o.verbose && !o.debuginfo_enabled);
}

#[test]
fn option_defaults() {
    assert!(CompilerOption_Optimize::default() == CompilerOption_Optimize::O1);
    assert!(CompilerOption_CodeGenABI::default() == CompilerOption_CodeGenABI::Cyrus);
    assert!(CompilerOption_ProjectType::default() == CompilerOption_ProjectType::Executable);
    assert!(CompilerOption_Profile::default() == CompilerOption_Profile::Debug);
    assert!(CompilerOption_Linker::default().pie);
}

#[test]
fn predicates() {
    assert!(CompilerOption_BuildDir::Provided("out".to_string()).build_dir_provided());
    assert!(CompilerOption_ModuleKind::Unified.is_unified());
    assert!(!CompilerOption_ModuleKind::Separate.is_unified());
    assert!(CompilerOption_Profile::Release.is_release());
}

#[test]
fn option_spellings() {
    assert_eq!(CompilerOption_RelocMode::Default.to_string(), "Default");
    assert_eq!(CompilerOption_RelocMode::Static.to_string(), "Static");
    assert_eq!(CompilerOption_RelocMode::PIC.to_string(), "PIE");
    assert_eq!(CompilerOption_RelocMode::DynamicNoPic.to_string(), "DynamicNoPIC");
    assert_eq!(CompilerOption_CodeModel::Kernel.to_string(), "Kernel");
    assert_eq!(CompilerOption_CodeModel::Large.to_string(), "Large");
    assert_eq!(CompilerOption_Sanitizer::Address.to_string(), "address");
    assert_eq!(CompilerOption_Sanitizer::HWAddress.to_string(), "hwaddress");
    assert_eq!(CompilerOption_Optimize::O3.to_string(), "O3");
    assert_eq!(CompilerOption_Optimize::Oz.to_string(), "Oz");
}
