use cyrusc_internal::abi::target::{ABITargetArch, ABITargetInfo, ABITargetObjectFormat, ABITargetOS};
use cyrusc_internal::compiler_options::CompilerOption_ProjectType;
use cyrusc_internal::driver::{choose_entry_file, entry_files, entry_source_dirs, resolve_target_info, EntryChoice};

fn target(s: &str) -> Option<String> {
    Some(s.to_string())
}

fn expect_info(r: Result<ABITargetInfo, String>) -> ABITargetInfo {
    match r {
        Ok(info) => info,
        Err(e) => panic!("unexpected error: {}", e),
    }
}

#[test]
fn no_triple_means_the_host() {
    let info = expect_info(resolve_target_info(&None, "x86_64", "linux"));
    assert!(info.arch == ABITargetArch::X86_64);
    assert!(info.os == ABITargetOS::Linux);
    assert!(info.format == ABITargetObjectFormat::Elf);
    let info = expect_info(resolve_target_info(&target(""), "aarch64", "macos"));
    assert!(info.arch == ABITargetArch::Aarch64);
    assert!(info.os == ABITargetOS::MacOS);
    assert!(info.format == ABITargetObjectFormat::MachO);
    let info = expect_info(resolve_target_info(&None, "riscv64", "freebsd"));
    assert!(info.os == ABITargetOS::Unknown);
    assert!(info.format == ABITargetObjectFormat::Elf);
}

#[test]
fn triple_names_arch_and_os() {
    let info = expect_info(resolve_target_info(&target("x86_64-windows-msvc"), "aarch64", "linux"));
    assert!(info.arch == ABITargetArch::X86_64);
    assert!(info.os == ABITargetOS::Windows);
    assert!(info.format == ABITargetObjectFormat::Coff);
    let info = expect_info(resolve_target_info(&target("aarch64-darwin"), "x86_64", "linux"));
    assert!(info.arch == ABITargetArch::Aarch64);
    assert!(info.os == ABITargetOS::MacOS);
    let info = expect_info(resolve_target_info(&target("wasm32-linux"), "x86_64", "windows"));
    assert!(info.arch == ABITargetArch::Wasm32);
    assert!(info.os == ABITargetOS::Linux);
}

#[test]
fn unknown_or_missing_os_is_the_hosts() {
    let info = expect_info(resolve_target_info(&target("x86_64"), "aarch64", "windows"));
    assert!(info.arch == ABITargetArch::X86_64);
    assert!(info.os == ABITargetOS::Windows);
    let info = expect_info(resolve_target_info(&target("x86_64-unknown-linux-gnu"), "x86_64", "macos"));
    assert!(info.os == ABITargetOS::MacOS);
    assert!(info.format == ABITargetObjectFormat::MachO);
    let info = expect_info(resolve_target_info(&target("riscv64-"), "x86_64", "linux"));
    assert!(info.arch == ABITargetArch::RiscV64);
    assert!(info.os == ABITargetOS::Linux);
}

#[test]
fn unsupported_names_are_errors() {
    match resolve_target_info(&target("mips-linux"), "x86_64", "linux") {
        Err(e) => assert_eq!(e, "Unsupported target architecture: mips"),
        Ok(_) => panic!("mips accepted"),
    }
    match resolve_target_info(&target("x86_64-haiku-gnu"), "x86_64", "linux") {
        Err(e) => assert_eq!(e, "Unsupported target OS: haiku"),
        Ok(_) => panic!("haiku accepted"),
    }
    match resolve_target_info(&None, "sparc", "linux") {
        Err(e) => assert_eq!(e, "Unsupported host architecture: sparc"),
        Ok(_) => panic!("sparc accepted"),
    }
}

#[test]
fn entry_files_per_project_type() {
    let lib = entry_files(Some(CompilerOption_ProjectType::Library));
    assert_eq!(lib.expected, "lib.cyrus");
    assert_eq!(lib.unexpected, "main.cyrus");
    assert_eq!(lib.kind_name, "library");
    let exe = entry_files(Some(CompilerOption_ProjectType::Executable));
    assert_eq!(exe.expected, "main.cyrus");
    assert_eq!(exe.unexpected, "lib.cyrus");
    assert_eq!(exe.kind_name, "executable");
    let default = entry_files(None);
    assert_eq!(default.expected, "main.cyrus");
}

#[test]
fn source_dirs_default_to_src() {
    assert_eq!(entry_source_dirs(&vec![]), vec!["src".to_string()]);
    let dirs = vec!["a".to_string(), "b/c".to_string()];
    assert_eq!(entry_source_dirs(&dirs), dirs);
}

#[test]
fn entry_choice_prefers_the_expected_file() {
    let files = entry_files(Some(CompilerOption_ProjectType::Library));
    match choose_entry_file(&files, Some("src/lib.cyrus".to_string()), Some("src/main.cyrus".to_string())) {
        EntryChoice::Found(p) => assert_eq!(p, "src/lib.cyrus"),
        _ => panic!("expected file not chosen"),
    }
    match choose_entry_file(&files, None, None) {
        EntryChoice::NotFound => {}
        _ => panic!("nothing found yet a file chosen"),
    }
}

#[test]
fn entry_of_the_other_kind_is_a_mismatch() {
    let files = entry_files(None);
    match choose_entry_file(&files, None, Some("src/lib.cyrus".to_string())) {
        EntryChoice::Mismatch(m) => assert_eq!(
            m,
            "Project type mismatch: Found 'lib.cyrus' but expected 'main.cyrus' for a executable project.\n\n\
             Solutions:\n1. Change project type in 'Project.toml'\n2. Rename the file to 'main.cyrus'\n\
             3. Specify an input file with --input"
        ),
        _ => panic!("mismatch not reported"),
    }
}
