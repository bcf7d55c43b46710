//! Decisions of the compiler driver: the target a triple names, and which
//! entry file a project is built from.
use crate::abi::target::{ABITargetArch, ABITargetInfo, ABITargetOS, ABITargetObjectFormat};
use crate::compiler_options::CompilerOption_ProjectType;
use crate::strings::{chars_of, str_eq, string_from_chars};
use vstd::prelude::*;
use vstd::string::{StrSliceExecFns, StringExecFns};

verus! {

broadcast use vstd::std_specs::vec::group_vec_axioms;

/// The text before the first `-` (all of it when there is none).
pub open spec fn spec_before_dash(s: Seq<char>) -> Seq<char>
    decreases s.len(),
{
    if s.len() == 0 {
        s
    } else if s[0] == '-' {
        Seq::empty()
    } else {
        seq![s[0]] + spec_before_dash(s.drop_first())
    }
}

/// The text after the first `-`, `None` when there is none.
pub open spec fn spec_after_dash(s: Seq<char>) -> Option<Seq<char>>
    decreases s.len(),
{
    if s.len() == 0 {
        None
    } else if s[0] == '-' {
        Some(s.drop_first())
    } else {
        spec_after_dash(s.drop_first())
    }
}

/// The second `-`-separated component, `None` when there is no `-`.
pub open spec fn spec_second_component(s: Seq<char>) -> Option<Seq<char>> {
    match spec_after_dash(s) {
        None => None,
        Some(rest) => Some(spec_before_dash(rest)),
    }
}

/// The architecture a triple component names.
pub open spec fn spec_arch_named(name: Seq<char>) -> Option<ABITargetArch> {
    if name == "x86_64"@ {
        Some(ABITargetArch::X86_64)
    } else if name == "aarch64"@ {
        Some(ABITargetArch::Aarch64)
    } else if name == "riscv64"@ {
        Some(ABITargetArch::RiscV64)
    } else if name == "wasm32"@ {
        Some(ABITargetArch::Wasm32)
    } else {
        None
    }
}

/// The operating system the host reports.
pub open spec fn spec_host_os(name: Seq<char>) -> ABITargetOS {
    if name == "linux"@ {
        ABITargetOS::Linux
    } else if name == "windows"@ {
        ABITargetOS::Windows
    } else if name == "macos"@ {
        ABITargetOS::MacOS
    } else {
        ABITargetOS::Unknown
    }
}

/// The operating system a triple's second component names; a missing,
/// empty or `unknown` component stands for the host's.
pub open spec fn spec_target_os(component: Option<Seq<char>>, host_os: Seq<char>) -> Option<ABITargetOS> {
    match component {
        None => Some(spec_host_os(host_os)),
        Some(c) => if c == "linux"@ {
            Some(ABITargetOS::Linux)
        } else if c == "windows"@ {
            Some(ABITargetOS::Windows)
        } else if c == "darwin"@ {
            Some(ABITargetOS::MacOS)
        } else if c == "unknown"@ || c.len() == 0 {
            Some(spec_host_os(host_os))
        } else {
            None
        },
    }
}

/// The object format an operating system uses.
pub open spec fn spec_format_for(os: ABITargetOS) -> ABITargetObjectFormat {
    match os {
        ABITargetOS::Linux | ABITargetOS::Unknown => ABITargetObjectFormat::Elf,
        ABITargetOS::MacOS => ABITargetObjectFormat::MachO,
        ABITargetOS::Windows => ABITargetObjectFormat::Coff,
    }
}

/// The target of a compilation: the architecture and operating system the
/// triple's first two components name, or the host's where there is no
/// triple; the object format follows the operating system. An unknown
/// architecture or operating system is an error naming it.
pub open spec fn spec_resolve_target(triple: Seq<char>, host_arch: Seq<char>, host_os: Seq<char>) -> Result<ABITargetInfo, Seq<char>> {
    if triple.len() == 0 {
        match spec_arch_named(host_arch) {
            None => Err("Unsupported host architecture: "@ + host_arch),
            Some(arch) => {
                let os = spec_host_os(host_os);
                Ok(ABITargetInfo { arch, os, format: spec_format_for(os) })
            },
        }
    } else {
        match spec_arch_named(spec_before_dash(triple)) {
            None => Err("Unsupported target architecture: "@ + spec_before_dash(triple)),
            Some(arch) => match spec_target_os(spec_second_component(triple), host_os) {
                None => Err("Unsupported target OS: "@ + spec_second_component(triple).unwrap()),
                Some(os) => Ok(ABITargetInfo { arch, os, format: spec_format_for(os) }),
            },
        }
    }
}

proof fn lemma_dash_prefix(s: Seq<char>, i: int)
    requires
        0 <= i <= s.len(),
        forall|j: int| 0 <= j < i ==> s[j] != '-',
    ensures
        spec_before_dash(s) == s.take(i) + spec_before_dash(s.skip(i)),
        spec_after_dash(s) == spec_after_dash(s.skip(i)),
    decreases i,
{
    if i == 0 {
        assert(s.skip(0) =~= s);
        assert(s.take(0) + spec_before_dash(s) =~= spec_before_dash(s));
    } else {
        lemma_dash_prefix(s.drop_first(), i - 1);
        assert(s.drop_first().skip(i - 1) =~= s.skip(i));
        assert(s.take(i) =~= seq![s[0]] + s.drop_first().take(i - 1));
    }
}

/// Splits `cs[start..]` at its first `-`: the component before it, and
/// where the text after it starts (`None` when there is no `-`).
fn split_at_dash(cs: &Vec<char>, start: usize) -> (r: (Vec<char>, Option<usize>))
    requires
        start <= cs.len(),
    ensures
        r.0@ == spec_before_dash(cs@.skip(start as int)),
        match r.1 {
            None => spec_after_dash(cs@.skip(start as int)) is None,
            Some(next) => next <= cs.len() && spec_after_dash(cs@.skip(start as int)) == Some(cs@.skip(next as int)),
        },
{
    let ghost s = cs@.skip(start as int);
    let mut out: Vec<char> = Vec::new();
    let mut i: usize = start;
    while i < cs.len() && cs[i] != '-'
        invariant
            start <= i <= cs.len(),
            s == cs@.skip(start as int),
            out@ == s.take(i - start),
            forall|j: int| 0 <= j < i - start ==> s[j] != '-',
        decreases cs.len() - i,
    {
        out.push(cs[i]);
        proof {
            assert(s.take(i - start + 1) =~= s.take(i - start).push(s[i - start]));
        }
        i = i + 1;
    }
    proof {
        lemma_dash_prefix(s, i - start);
        assert(s.skip(i - start) =~= cs@.skip(i as int));
    }
    if i < cs.len() {
        proof {
            assert(cs@.skip(i as int)[0] == '-');
            assert(cs@.skip(i as int).drop_first() =~= cs@.skip(i + 1));
            assert(out@ + spec_before_dash(cs@.skip(i as int)) =~= out@);
        }
        (out, Some(i + 1))
    } else {
        proof {
            assert(cs@.skip(i as int).len() == 0);
            assert(out@ + spec_before_dash(cs@.skip(i as int)) =~= out@);
        }
        (out, None)
    }
}

fn arch_named(name: &str) -> (r: Option<ABITargetArch>)
    ensures
        r == spec_arch_named(name@),
{
    if str_eq(name, "x86_64") {
        Some(ABITargetArch::X86_64)
    } else if str_eq(name, "aarch64") {
        Some(ABITargetArch::Aarch64)
    } else if str_eq(name, "riscv64") {
        Some(ABITargetArch::RiscV64)
    } else if str_eq(name, "wasm32") {
        Some(ABITargetArch::Wasm32)
    } else {
        None
    }
}

fn host_os_named(name: &str) -> (r: ABITargetOS)
    ensures
        r == spec_host_os(name@),
{
    if str_eq(name, "linux") {
        ABITargetOS::Linux
    } else if str_eq(name, "windows") {
        ABITargetOS::Windows
    } else if str_eq(name, "macos") {
        ABITargetOS::MacOS
    } else {
        ABITargetOS::Unknown
    }
}

fn format_for(os: ABITargetOS) -> (r: ABITargetObjectFormat)
    ensures
        r == spec_format_for(os),
{
    match os {
        ABITargetOS::Linux | ABITargetOS::Unknown => ABITargetObjectFormat::Elf,
        ABITargetOS::MacOS => ABITargetObjectFormat::MachO,
        ABITargetOS::Windows => ABITargetObjectFormat::Coff,
    }
}

/// `prefix` followed by `rest`.
fn message(prefix: &str, rest: &str) -> (r: String)
    ensures
        r@ == prefix@ + rest@,
{
    let mut s = String::from_str(prefix);
    s.append(rest);
    s
}

/// The target a compilation is for, from the requested triple (none or
/// empty for the host) and the host's architecture and operating system
/// names; the error is the message naming what is not supported.
pub fn resolve_target_info(target: &Option<String>, host_arch: &str, host_os: &str) -> (r: Result<ABITargetInfo, String>)
    ensures
        match r {
            Ok(info) => spec_resolve_target(
                match target {
                    Some(t) => t@,
                    None => Seq::empty(),
                },
                host_arch@,
                host_os@,
            ) == Ok::<ABITargetInfo, Seq<char>>(info),
            Err(e) => spec_resolve_target(
                match target {
                    Some(t) => t@,
                    None => Seq::empty(),
                },
                host_arch@,
                host_os@,
            ) == Err::<ABITargetInfo, Seq<char>>(e@),
        },
{
    let triple: Vec<char> = match target {
        Some(t) => chars_of(t.as_str()),
        None => Vec::new(),
    };
    if triple.len() == 0 {
        let arch = match arch_named(host_arch) {
            Some(a) => a,
            None => return Err(message("Unsupported host architecture: ", host_arch)),
        };
        let os = host_os_named(host_os);
        return Ok(ABITargetInfo { arch, os, format: format_for(os) });
    }
    proof { assert(triple@.skip(0) =~= triple@); }
    let (first, next) = split_at_dash(&triple, 0);
    let first_str = string_from_chars(&first);
    let arch = match arch_named(first_str.as_str()) {
        Some(a) => a,
        None => return Err(message("Unsupported target architecture: ", first_str.as_str())),
    };
    let os = match next {
        None => host_os_named(host_os),
        Some(n) => {
            let (second, _) = split_at_dash(&triple, n);
            let second_str = string_from_chars(&second);
            let c = second_str.as_str();
            if str_eq(c, "linux") {
                ABITargetOS::Linux
            } else if str_eq(c, "windows") {
                ABITargetOS::Windows
            } else if str_eq(c, "darwin") {
                ABITargetOS::MacOS
            } else if str_eq(c, "unknown") || second.len() == 0 {
                host_os_named(host_os)
            } else {
                return Err(message("Unsupported target OS: ", c));
            }
        },
    };
    Ok(ABITargetInfo { arch, os, format: format_for(os) })
}

/// The entry file a project of a kind is built from, the one of the other
/// kind, and the kind's name.
pub struct EntryFiles {
    pub expected: &'static str,
    pub unexpected: &'static str,
    pub kind_name: &'static str,
}

/// `lib.cyrus` for a library, `main.cyrus` for an executable (the default).
pub fn entry_files(project_type: Option<CompilerOption_ProjectType>) -> (r: EntryFiles)
    ensures
        match project_type {
            Some(CompilerOption_ProjectType::Library) => r.expected@ == "lib.cyrus"@ && r.unexpected@ == "main.cyrus"@
                && r.kind_name@ == "library"@,
            _ => r.expected@ == "main.cyrus"@ && r.unexpected@ == "lib.cyrus"@ && r.kind_name@ == "executable"@,
        },
{
    match project_type {
        Some(CompilerOption_ProjectType::Library) => EntryFiles {
            expected: "lib.cyrus",
            unexpected: "main.cyrus",
            kind_name: "library",
        },
        _ => EntryFiles { expected: "main.cyrus", unexpected: "lib.cyrus", kind_name: "executable" },
    }
}

/// The source directories searched: the given ones, or `src` when none are.
pub fn entry_source_dirs(source_dirs: &Vec<String>) -> (r: Vec<String>)
    ensures
        source_dirs.len() == 0 ==> r.len() == 1 && r[0]@ == "src"@,
        source_dirs.len() > 0 ==> r.len() == source_dirs.len() && forall|i: int| 0 <= i < r.len() ==> #[trigger] r[i]@ == source_dirs[i]@,
{
    let mut dirs: Vec<String> = Vec::new();
    if source_dirs.len() == 0 {
        dirs.push(String::from_str("src"));
        return dirs;
    }
    let mut i: usize = 0;
    while i < source_dirs.len()
        invariant
            i <= source_dirs.len(),
            dirs.len() == i,
            forall|j: int| 0 <= j < i ==> #[trigger] dirs[j]@ == source_dirs[j]@,
        decreases source_dirs.len() - i,
    {
        dirs.push(String::from_str(source_dirs[i].as_str()));
        i = i + 1;
    }
    dirs
}

/// The message for a project whose entry file is of the other kind.
pub open spec fn spec_mismatch_message(expected: Seq<char>, unexpected: Seq<char>, kind_name: Seq<char>) -> Seq<char> {
    "Project type mismatch: Found '"@ + unexpected + "' but expected '"@ + expected + "' for a "@ + kind_name
        + " project.\n\nSolutions:\n1. Change project type in 'Project.toml'\n2. Rename the file to '"@ + expected
        + "'\n3. Specify an input file with --input"@
}

/// Where the entry file search ended.
pub enum EntryChoice {
    /// The expected file, found at this path.
    Found(String),
    /// Only a file of the other kind was found; the message explains.
    Mismatch(String),
    /// Neither file was found.
    NotFound,
}

/// The outcome of the entry file search from what it found: a file of the
/// other kind alone is a mismatch; the expected file wins otherwise.
pub fn choose_entry_file(files: &EntryFiles, found_expected: Option<String>, found_unexpected: Option<String>) -> (r: EntryChoice)
    ensures
        match r {
            EntryChoice::Found(p) => found_expected matches Some(e) && p@ == e@,
            EntryChoice::Mismatch(m) => found_expected is None && found_unexpected is Some && m@ == spec_mismatch_message(
                files.expected@,
                files.unexpected@,
                files.kind_name@,
            ),
            EntryChoice::NotFound => found_expected is None && found_unexpected is None,
        },
{
    if found_unexpected.is_some() && found_expected.is_none() {
        let mut m = String::from_str("Project type mismatch: Found '");
        m.append(files.unexpected);
        m.append("' but expected '");
        m.append(files.expected);
        m.append("' for a ");
        m.append(files.kind_name);
        m.append(" project.\n\nSolutions:\n1. Change project type in 'Project.toml'\n2. Rename the file to '");
        m.append(files.expected);
        m.append("'\n3. Specify an input file with --input");
        return EntryChoice::Mismatch(m);
    }
    match found_expected {
        Some(p) => EntryChoice::Found(p),
        None => EntryChoice::NotFound,
    }
}

} // verus!
