use cyrusc_internal::abi::callconv::{CallConv, Linkage};
use cyrusc_internal::abi::mangler::{
    mangle_func, mangle_global_var, mangle_method, sanitize, ABINameMangler, C_ABI_Impl, Cyrus_ABI_Impl,
};

#[test]
fn sanitize_drops_leading_underscores_and_replaces_symbols() {
    assert_eq!(sanitize("__my-mod.name"), "my_mod_name");
    assert_eq!(sanitize("plain_name9"), "plain_name9");
    assert_eq!(sanitize("___"), "");
    assert_eq!(sanitize("-x"), "_x");
}

#[test]
fn cyrus_func_name_keeps_main() {
    let m = Cyrus_ABI_Impl::new();
    assert_eq!(m.func_name("app", "main"), "main");
    assert_eq!(m.func_name("my-app", "run"), "my_app$run");
}

#[test]
fn cyrus_method_and_vtable_names() {
    let m = Cyrus_ABI_Impl::new();
    assert_eq!(m.method_name("app", "Point", "len"), "app$Point.len");
    assert_eq!(m.vtable_name("Shape", "3"), "__vtable$Shape_3");
    assert_eq!(m.global_var_name("app", "_count"), "app$count");
}

#[test]
fn c_names_are_sanitized_without_module() {
    let m = C_ABI_Impl::new();
    assert_eq!(m.func_name("app", "printf"), "printf");
    assert_eq!(m.method_name("app", "Point", "len"), "Point__len");
    assert_eq!(m.global_var_name("app", "errno"), "errno");
    assert_eq!(m.vtable_name("Shape", "3"), "__vtable_Shape_3");
}

#[test]
fn linkage_selects_naming_scheme() {
    assert_eq!(mangle_func(&None, "app", "run"), "app$run");
    assert_eq!(mangle_func(&Some(Linkage::Extern(None)), "app", "run"), "run");
    assert_eq!(mangle_func(&Some(Linkage::Extern(Some(CallConv::C))), "app", "run"), "run");
    assert_eq!(mangle_func(&Some(Linkage::Extern(Some(CallConv::Naked))), "app", "run"), "app$run");
    assert_eq!(mangle_func(&Some(Linkage::Weak), "app", "run"), "app$run");
    assert_eq!(mangle_global_var(&Some(Linkage::Extern(None)), "app", "x"), "x");
    assert_eq!(mangle_method("app", "7", "area"), "app$7.area");
}
