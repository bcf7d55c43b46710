//! Symbol names for functions, methods, globals and vtables under the Cyrus
//! and the C naming rules.
use crate::abi::callconv::{CallConv, Linkage};
use crate::strings::{push_char, str_eq};
use vstd::prelude::*;
use vstd::string::{StrSliceExecFns, StringExecFns};

verus! {

/// ASCII letters and digits.
pub open spec fn spec_is_ascii_alnum(c: char) -> bool {
    ('0' <= c && c <= '9') || ('a' <= c && c <= 'z') || ('A' <= c && c <= 'Z')
}

/// A character kept by sanitizing, or `_` in its place.
pub open spec fn spec_sanitize_char(c: char) -> char {
    if spec_is_ascii_alnum(c) || c == '_' {
        c
    } else {
        '_'
    }
}

/// The string without its leading underscores.
pub open spec fn spec_trim_leading_underscores(s: Seq<char>) -> Seq<char>
    decreases s.len(),
{
    if s.len() > 0 && s[0] == '_' {
        spec_trim_leading_underscores(s.drop_first())
    } else {
        s
    }
}

/// A name made safe for a symbol: leading underscores dropped, and every
/// character other than an ASCII letter, digit or underscore replaced by `_`.
pub open spec fn spec_sanitize(s: Seq<char>) -> Seq<char> {
    spec_trim_leading_underscores(s).map_values(|c: char| spec_sanitize_char(c))
}

fn is_ascii_alnum(c: char) -> (r: bool)
    ensures
        r == spec_is_ascii_alnum(c),
{
    ('0' <= c && c <= '9') || ('a' <= c && c <= 'z') || ('A' <= c && c <= 'Z')
}

proof fn lemma_trim_skip(s: Seq<char>, k: int)
    requires
        0 <= k <= s.len(),
        forall|j: int| 0 <= j < k ==> s[j] == '_',
    ensures
        spec_trim_leading_underscores(s) == spec_trim_leading_underscores(s.skip(k)),
    decreases k,
{
    if k > 0 {
        assert(s.skip(1) =~= s.drop_first());
        lemma_trim_skip(s.drop_first(), k - 1);
        assert(s.drop_first().skip(k - 1) =~= s.skip(k));
    } else {
        assert(s.skip(0) =~= s);
    }
}

/// `name` with leading underscores dropped and other characters that are not
/// ASCII letters, digits or underscores replaced by `_`.
pub fn sanitize(name: &str) -> (r: String)
    ensures
        r@ == spec_sanitize(name@),
{
    let n = name.unicode_len();
    let mut start: usize = 0;
    while start < n && name.get_char(start) == '_'
        invariant
            n == name@.len(),
            start <= n,
            forall|j: int| 0 <= j < start ==> name@[j] == '_',
        decreases n - start,
    {
        start = start + 1;
    }
    proof {
        lemma_trim_skip(name@, start as int);
        if start < n {
            assert(name@.skip(start as int)[0] == name@[start as int]);
        }
    }
    let ghost rest = name@.skip(start as int);
    assert(spec_trim_leading_underscores(name@) == rest);
    let mut out = String::new();
    let mut i: usize = start;
    while i < n
        invariant
            n == name@.len(),
            start <= i <= n,
            rest == name@.skip(start as int),
            out@ =~= rest.take(i - start).map_values(|c: char| spec_sanitize_char(c)),
        decreases n - i,
    {
        let c = name.get_char(i);
        let kept = if is_ascii_alnum(c) || c == '_' {
            c
        } else {
            '_'
        };
        push_char(&mut out, kept);
        proof {
            assert(rest.take(i - start + 1) =~= rest.take(i - start).push(c));
        }
        i = i + 1;
    }
    proof {
        assert(rest.take(i - start) =~= rest);
    }
    out
}

/// A sanitized name holds only ASCII letters, digits and underscores, and is
/// no longer than the name it came from.
pub proof fn lemma_sanitize_charset(s: Seq<char>)
    ensures
        forall|i: int| 0 <= i < spec_sanitize(s).len() ==> spec_is_ascii_alnum(#[trigger] spec_sanitize(s)[i]) || spec_sanitize(s)[i] == '_',
        spec_sanitize(s).len() <= s.len(),
{
    lemma_trim_len(s);
}

proof fn lemma_trim_len(s: Seq<char>)
    ensures
        spec_trim_leading_underscores(s).len() <= s.len(),
        spec_trim_leading_underscores(s).len() > 0 ==> spec_trim_leading_underscores(s)[0] != '_',
    decreases s.len(),
{
    if s.len() > 0 && s[0] == '_' {
        lemma_trim_len(s.drop_first());
    }
}

/// A name that already holds only ASCII letters, digits and underscores and
/// does not start with an underscore is left as it is by sanitizing.
pub proof fn lemma_sanitize_keeps_clean_names(s: Seq<char>)
    requires
        s.len() > 0 ==> s[0] != '_',
        forall|i: int| 0 <= i < s.len() ==> spec_is_ascii_alnum(#[trigger] s[i]) || s[i] == '_',
    ensures
        spec_sanitize(s) == s,
{
    assert(spec_trim_leading_underscores(s) == s);
    assert(spec_sanitize(s) =~= s);
}

/// How a naming scheme spells the symbols of a module.
pub trait ABINameMangler {
    spec fn spec_func_name(&self, module_name: Seq<char>, func_name: Seq<char>) -> Seq<char>;

    spec fn spec_method_name(&self, module_name: Seq<char>, object_name: Seq<char>, method_name: Seq<char>) -> Seq<char>;

    spec fn spec_global_var_name(&self, module_name: Seq<char>, var_name: Seq<char>) -> Seq<char>;

    spec fn spec_vtable_name(&self, interface_name: Seq<char>, vtable_id: Seq<char>) -> Seq<char>;

    /// The symbol of a function.
    fn func_name(&self, module_name: &str, func_name: &str) -> (r: String)
        ensures
            r@ == self.spec_func_name(module_name@, func_name@),
    ;

    /// The symbol of a method.
    fn method_name(&self, module_name: &str, object_name: &str, method_name: &str) -> (r: String)
        ensures
            r@ == self.spec_method_name(module_name@, object_name@, method_name@),
    ;

    /// The symbol of a global variable.
    fn global_var_name(&self, module_name: &str, var_name: &str) -> (r: String)
        ensures
            r@ == self.spec_global_var_name(module_name@, var_name@),
    ;

    /// The symbol of a vtable instance.
    fn vtable_name(&self, interface_name: &str, vtable_id: &str) -> (r: String)
        ensures
            r@ == self.spec_vtable_name(interface_name@, vtable_id@),
    ;
}

/// The default Cyrus naming: `module$name`, methods as `module$object.method`.
#[derive(Debug, Clone, Copy, PartialEq, Eq, Structural)]
pub struct Cyrus_ABI_Impl;

impl Cyrus_ABI_Impl {
    pub fn new() -> (r: Self)
        ensures
            r == Cyrus_ABI_Impl,
    {
        Cyrus_ABI_Impl
    }

    /// The sanitizing of names this scheme applies.
    pub fn sanitize(name: &str) -> (r: String)
        ensures
            r@ == spec_sanitize(name@),
    {
        sanitize(name)
    }
}

/// `a` followed by `b`.
fn joined(a: String, b: &str) -> (r: String)
    ensures
        r@ == a@ + b@,
{
    let mut s = a;
    s.append(b);
    s
}

impl ABINameMangler for Cyrus_ABI_Impl {
    open spec fn spec_func_name(&self, module_name: Seq<char>, func_name: Seq<char>) -> Seq<char> {
        if func_name == "main"@ {
            func_name
        } else {
            spec_sanitize(module_name) + "$"@ + spec_sanitize(func_name)
        }
    }

    open spec fn spec_method_name(&self, module_name: Seq<char>, object_name: Seq<char>, method_name: Seq<char>) -> Seq<char> {
        module_name + "$"@ + object_name + "."@ + method_name
    }

    open spec fn spec_global_var_name(&self, module_name: Seq<char>, var_name: Seq<char>) -> Seq<char> {
        spec_sanitize(module_name) + "$"@ + spec_sanitize(var_name)
    }

    open spec fn spec_vtable_name(&self, interface_name: Seq<char>, vtable_id: Seq<char>) -> Seq<char> {
        "__vtable$"@ + interface_name + "_"@ + vtable_id
    }

    fn func_name(&self, module_name: &str, func_name: &str) -> (r: String) {
        if str_eq(func_name, "main") {
            String::from_str(func_name)
        } else {
            let m = Self::sanitize(module_name);
            let f = Self::sanitize(func_name);
            joined(joined(m, "$"), f.as_str())
        }
    }

    fn method_name(&self, module_name: &str, object_name: &str, method_name: &str) -> (r: String) {
        let s = joined(String::from_str(module_name), "$");
        joined(joined(joined(s, object_name), "."), method_name)
    }

    fn global_var_name(&self, module_name: &str, var_name: &str) -> (r: String) {
        let m = Self::sanitize(module_name);
        let v = Self::sanitize(var_name);
        joined(joined(m, "$"), v.as_str())
    }

    fn vtable_name(&self, interface_name: &str, vtable_id: &str) -> (r: String) {
        let s = joined(String::from_str("__vtable$"), interface_name);
        joined(joined(s, "_"), vtable_id)
    }
}

/// The C naming: names as written (sanitized), methods as `object__method`.
#[derive(Debug, Clone, Copy, PartialEq, Eq, Structural)]
pub struct C_ABI_Impl;

impl C_ABI_Impl {
    pub fn new() -> (r: Self)
        ensures
            r == C_ABI_Impl,
    {
        C_ABI_Impl
    }

    /// The sanitizing of names this scheme applies.
    pub fn sanitize(name: &str) -> (r: String)
        ensures
            r@ == spec_sanitize(name@),
    {
        sanitize(name)
    }
}

impl ABINameMangler for C_ABI_Impl {
    open spec fn spec_func_name(&self, module_name: Seq<char>, func_name: Seq<char>) -> Seq<char> {
        spec_sanitize(func_name)
    }

    open spec fn spec_method_name(&self, module_name: Seq<char>, object_name: Seq<char>, method_name: Seq<char>) -> Seq<char> {
        spec_sanitize(object_name) + "__"@ + spec_sanitize(method_name)
    }

    open spec fn spec_global_var_name(&self, module_name: Seq<char>, var_name: Seq<char>) -> Seq<char> {
        spec_sanitize(var_name)
    }

    open spec fn spec_vtable_name(&self, interface_name: Seq<char>, vtable_id: Seq<char>) -> Seq<char> {
        "__vtable_"@ + interface_name + "_"@ + vtable_id
    }

    fn func_name(&self, module_name: &str, func_name: &str) -> (r: String) {
        Self::sanitize(func_name)
    }

    fn method_name(&self, module_name: &str, object_name: &str, method_name: &str) -> (r: String) {
        let o = Self::sanitize(object_name);
        let m = Self::sanitize(method_name);
        joined(joined(o, "__"), m.as_str())
    }

    fn global_var_name(&self, module_name: &str, var_name: &str) -> (r: String) {
        Self::sanitize(var_name)
    }

    fn vtable_name(&self, interface_name: &str, vtable_id: &str) -> (r: String) {
        let s = joined(String::from_str("__vtable_"), interface_name);
        joined(joined(s, "_"), vtable_id)
    }
}

/// One of the naming schemes.
#[derive(Debug, Clone, Copy, PartialEq, Eq, Structural)]
pub enum ABIMangler {
    Cyrus(Cyrus_ABI_Impl),
    C(C_ABI_Impl),
}

impl ABINameMangler for ABIMangler {
    open spec fn spec_func_name(&self, module_name: Seq<char>, func_name: Seq<char>) -> Seq<char> {
        match self {
            ABIMangler::Cyrus(m) => m.spec_func_name(module_name, func_name),
            ABIMangler::C(m) => m.spec_func_name(module_name, func_name),
        }
    }

    open spec fn spec_method_name(&self, module_name: Seq<char>, object_name: Seq<char>, method_name: Seq<char>) -> Seq<char> {
        match self {
            ABIMangler::Cyrus(m) => m.spec_method_name(module_name, object_name, method_name),
            ABIMangler::C(m) => m.spec_method_name(module_name, object_name, method_name),
        }
    }

    open spec fn spec_global_var_name(&self, module_name: Seq<char>, var_name: Seq<char>) -> Seq<char> {
        match self {
            ABIMangler::Cyrus(m) => m.spec_global_var_name(module_name, var_name),
            ABIMangler::C(m) => m.spec_global_var_name(module_name, var_name),
        }
    }

    open spec fn spec_vtable_name(&self, interface_name: Seq<char>, vtable_id: Seq<char>) -> Seq<char> {
        match self {
            ABIMangler::Cyrus(m) => m.spec_vtable_name(interface_name, vtable_id),
            ABIMangler::C(m) => m.spec_vtable_name(interface_name, vtable_id),
        }
    }

    fn func_name(&self, module_name: &str, func_name: &str) -> (r: String) {
        match self {
            ABIMangler::Cyrus(m) => m.func_name(module_name, func_name),
            ABIMangler::C(m) => m.func_name(module_name, func_name),
        }
    }

    fn method_name(&self, module_name: &str, object_name: &str, method_name: &str) -> (r: String) {
        match self {
            ABIMangler::Cyrus(m) => m.method_name(module_name, object_name, method_name),
            ABIMangler::C(m) => m.method_name(module_name, object_name, method_name),
        }
    }

    fn global_var_name(&self, module_name: &str, var_name: &str) -> (r: String) {
        match self {
            ABIMangler::Cyrus(m) => m.global_var_name(module_name, var_name),
            ABIMangler::C(m) => m.global_var_name(module_name, var_name),
        }
    }

    fn vtable_name(&self, interface_name: &str, vtable_id: &str) -> (r: String) {
        match self {
            ABIMangler::Cyrus(m) => m.vtable_name(interface_name, vtable_id),
            ABIMangler::C(m) => m.vtable_name(interface_name, vtable_id),
        }
    }
}

/// The naming scheme a linkage asks for: C names for `extern` with a
/// C-family convention or none, Cyrus names otherwise.
pub open spec fn spec_mangler_for(linkage: Linkage) -> ABIMangler {
    match linkage {
        Linkage::Extern(cc) => match cc {
            Some(CallConv::Naked) | Some(CallConv::Interrupt) | Some(CallConv::Fast) | Some(CallConv::Cold) | Some(
                CallConv::Aapcs,
            ) => ABIMangler::Cyrus(Cyrus_ABI_Impl),
            _ => ABIMangler::C(C_ABI_Impl),
        },
        Linkage::Weak | Linkage::LinkOnce => ABIMangler::Cyrus(Cyrus_ABI_Impl),
    }
}

/// The naming scheme for a declaration's linkage.
pub fn abi_mangler_from_linkage(linkage: &Linkage) -> (r: ABIMangler)
    ensures
        r == spec_mangler_for(*linkage),
{
    match linkage {
        Linkage::Extern(call_conv_opt) => match call_conv_opt {
            Some(call_conv) => match call_conv {
                CallConv::C | CallConv::Stdcall | CallConv::Fastcall | CallConv::Thiscall | CallConv::Vectorcall
                | CallConv::SysV64 | CallConv::Win64 | CallConv::System => ABIMangler::C(C_ABI_Impl::new()),
                CallConv::Naked | CallConv::Interrupt | CallConv::Fast | CallConv::Cold | CallConv::Aapcs => ABIMangler::Cyrus(
                    Cyrus_ABI_Impl::new(),
                ),
            },
            None => ABIMangler::C(C_ABI_Impl::new()),
        },
        Linkage::Weak => ABIMangler::Cyrus(Cyrus_ABI_Impl::new()),
        Linkage::LinkOnce => ABIMangler::Cyrus(Cyrus_ABI_Impl::new()),
    }
}

/// The naming scheme of a declaration with an optional linkage: Cyrus names
/// when it has none.
pub open spec fn spec_mangler_for_opt(linkage: Option<Linkage>) -> ABIMangler {
    match linkage {
        Some(l) => spec_mangler_for(l),
        None => ABIMangler::Cyrus(Cyrus_ABI_Impl),
    }
}

/// The symbol of a global variable declared with the given linkage.
pub fn mangle_global_var(linkage: &Option<Linkage>, module_name: &str, var_name: &str) -> (r: String)
    ensures
        r@ == spec_mangler_for_opt(*linkage).spec_global_var_name(module_name@, var_name@),
{
    match linkage {
        Some(linkage) => abi_mangler_from_linkage(linkage).global_var_name(module_name, var_name),
        None => Cyrus_ABI_Impl::new().global_var_name(module_name, var_name),
    }
}

/// The symbol of a function declared with the given linkage.
pub fn mangle_func(linkage: &Option<Linkage>, module_name: &str, name: &str) -> (r: String)
    ensures
        r@ == spec_mangler_for_opt(*linkage).spec_func_name(module_name@, name@),
{
    match linkage {
        Some(linkage) => abi_mangler_from_linkage(linkage).func_name(module_name, name),
        None => Cyrus_ABI_Impl::new().func_name(module_name, name),
    }
}

/// The symbol of a method, always under the Cyrus naming.
pub fn mangle_method(module_name: &str, id: &str, name: &str) -> (r: String)
    ensures
        r@ == module_name@ + "$"@ + id@ + "."@ + name@,
{
    Cyrus_ABI_Impl::new().method_name(module_name, id, name)
}

/// An `extern` declaration with a C-family calling convention (C, System,
/// SysV64, Win64, Stdcall, Fastcall, Thiscall, Vectorcall) or with none keeps
/// its C name: the sanitized name alone, whatever its module; any other
/// linkage, and no linkage, puts the sanitized module name before it
/// (`main` aside).
pub proof fn lemma_extern_c_names(linkage: Option<Linkage>, module_name: Seq<char>, name: Seq<char>)
    ensures
        (linkage matches Some(Linkage::Extern(cc)) && (cc is None || cc == Some(CallConv::C) || cc == Some(CallConv::System)
            || cc == Some(CallConv::SysV64) || cc == Some(CallConv::Win64) || cc == Some(CallConv::Stdcall) || cc == Some(
            CallConv::Fastcall,
        ) || cc == Some(CallConv::Thiscall) || cc == Some(CallConv::Vectorcall))) ==> spec_mangler_for_opt(linkage).spec_func_name(
            module_name,
            name,
        ) == spec_sanitize(name) && spec_mangler_for_opt(linkage).spec_global_var_name(module_name, name) == spec_sanitize(name),
        (linkage is None || linkage == Some(Linkage::Weak) || linkage == Some(Linkage::LinkOnce) || linkage == Some(
            Linkage::Extern(Some(CallConv::Naked)),
        ) || linkage == Some(Linkage::Extern(Some(CallConv::Interrupt))) || linkage == Some(Linkage::Extern(Some(CallConv::Fast)))
            || linkage == Some(Linkage::Extern(Some(CallConv::Cold))) || linkage == Some(Linkage::Extern(Some(CallConv::Aapcs))))
            ==> spec_mangler_for_opt(linkage).spec_global_var_name(module_name, name) == spec_sanitize(module_name) + "$"@
            + spec_sanitize(name) && (name != "main"@ ==> spec_mangler_for_opt(linkage).spec_func_name(module_name, name)
            == spec_sanitize(module_name) + "$"@ + spec_sanitize(name)),
{
}

} // verus!
