use bindgen_ir::comp::CompInfo;
use bindgen_ir::context::BuildContext;
use bindgen_ir::enum_ty::Enum;
use bindgen_ir::function::FunctionSig;
use bindgen_ir::int_kind::IntKind;
use bindgen_ir::layout::Layout;
use bindgen_ir::ty::{FloatKind, Type, TypeKind};

#[test]
fn opaque_type_derives_nothing() {
    let mut ctx = BuildContext::new();
    let mut t = Type::new(None, None, TypeKind::Int(IntKind::Int));
    t.set_opaque();
    let id = ctx.register_builtin(1, t);
    let resolver = ctx.type_resolver();
    let t = resolver.resolve_type(id);
    assert!(t.is_opaque(resolver));
    assert!(!t.can_derive_debug(resolver));
    assert!(!t.can_derive_copy(resolver));
    assert!(t.has_destructor(resolver));
}

#[test]
fn copy_in_array_matches_copy_on_base_kinds() {
    let mut ctx = BuildContext::new();
    let int_id = ctx.register_builtin(1, Type::new(None, None, TypeKind::Int(IntKind::Int)));
    let kinds = vec![
        TypeKind::Void,
        TypeKind::NullPtr,
        TypeKind::Int(IntKind::Bool),
        TypeKind::Float(FloatKind::Double),
        TypeKind::Function(FunctionSig::new()),
        TypeKind::Enum(Enum::new()),
        TypeKind::Pointer(int_id),
        TypeKind::Reference(int_id),
        TypeKind::Comp(CompInfo::new(None, true, false, false)),
        TypeKind::Comp(CompInfo::new(None, false, true, true)),
    ];
    let mut uid = 100;
    for kind in kinds {
        let id = ctx.register_builtin(uid, Type::new(None, None, kind));
        uid += 1;
        let resolver = ctx.type_resolver();
        let t = resolver.resolve_type(id);
        assert_eq!(t.can_derive_copy_in_array(resolver), t.can_derive_copy(resolver));
    }
}

#[test]
fn array_within_threshold_derives() {
    let mut ctx = BuildContext::new();
    let int_id = ctx.register_builtin(1, Type::new(None, None, TypeKind::Int(IntKind::Int)));
    let arr_id = ctx.register_builtin(2, Type::new(None, None, TypeKind::Array(int_id, 32)));
    let resolver = ctx.type_resolver();
    let arr = resolver.resolve_type(arr_id);
    assert!(arr.can_derive_debug(resolver));
    assert!(arr.can_derive_copy(resolver));
    assert!(arr.can_derive_copy_in_array(resolver));
    assert!(!arr.has_destructor(resolver));
}

#[test]
fn array_above_threshold_derives_neither() {
    let mut ctx = BuildContext::new();
    let int_id = ctx.register_builtin(1, Type::new(None, None, TypeKind::Int(IntKind::Int)));
    let arr_id = ctx.register_builtin(2, Type::new(None, None, TypeKind::Array(int_id, 33)));
    let resolver = ctx.type_resolver();
    let arr = resolver.resolve_type(arr_id);
    assert!(!arr.can_derive_debug(resolver));
    assert!(!arr.can_derive_copy(resolver));
}

#[test]
fn alias_chain_follows_target() {
    let mut ctx = BuildContext::new();
    let int_id = ctx.register_builtin(1, Type::new(None, None, TypeKind::Int(IntKind::Int)));
    let a1 = ctx.register_builtin(
        2,
        Type::new(Some("word".to_string()), None, TypeKind::Alias("word".to_string(), int_id)),
    );
    let a2 = ctx.register_builtin(
        3,
        Type::new(Some("token".to_string()), None, TypeKind::Alias("token".to_string(), a1)),
    );
    let resolver = ctx.type_resolver();
    let alias = resolver.resolve_type(a2);
    assert!(alias.can_derive_debug(resolver));
    assert!(alias.can_derive_copy(resolver));
    assert!(alias.can_derive_copy_in_array(resolver));
    assert!(!alias.has_destructor(resolver));
}

#[test]
fn alias_to_opaque_derives_nothing() {
    let mut ctx = BuildContext::new();
    let mut blob = Type::new(None, None, TypeKind::Int(IntKind::Int));
    blob.set_opaque();
    let blob_id = ctx.register_builtin(1, blob);
    let alias_id = ctx.register_builtin(
        2,
        Type::new(None, None, TypeKind::Alias("blob".to_string(), blob_id)),
    );
    let resolver = ctx.type_resolver();
    let alias = resolver.resolve_type(alias_id);
    assert!(!alias.can_derive_debug(resolver));
    assert!(!alias.can_derive_copy(resolver));
    assert!(alias.has_destructor(resolver));
}

#[test]
fn named_copies_but_never_in_array() {
    let mut ctx = BuildContext::new();
    let named_id =
        ctx.register_builtin(1, Type::new(None, None, TypeKind::Named("T".to_string())));
    let resolver = ctx.type_resolver();
    let named = resolver.resolve_type(named_id);
    assert!(named.can_derive_copy(resolver));
    assert!(!named.can_derive_copy_in_array(resolver));
}

#[test]
fn array_of_named_never_copies_in_array() {
    let mut ctx = BuildContext::new();
    let named_id =
        ctx.register_builtin(1, Type::new(None, None, TypeKind::Named("T".to_string())));
    let arr_id = ctx.register_builtin(2, Type::new(None, None, TypeKind::Array(named_id, 1)));
    let resolver = ctx.type_resolver();
    let arr = resolver.resolve_type(arr_id);
    assert!(!arr.can_derive_copy_in_array(resolver));
    assert!(arr.can_derive_copy(resolver));
}

#[test]
fn compound_delegates_to_its_own_rule() {
    let mut ctx = BuildContext::new();
    let c_id = ctx.register_builtin(
        1,
        Type::new(None, None, TypeKind::Comp(CompInfo::new(None, false, true, true))),
    );
    let resolver = ctx.type_resolver();
    let c = resolver.resolve_type(c_id);
    assert!(!c.can_derive_debug(resolver));
    assert!(c.can_derive_copy(resolver));
    assert!(c.has_destructor(resolver));
}

#[test]
fn destructor_follows_alias_and_array() {
    let mut ctx = BuildContext::new();
    let c_id = ctx.register_builtin(
        1,
        Type::new(None, None, TypeKind::Comp(CompInfo::new(None, true, false, true))),
    );
    let arr_id = ctx.register_builtin(2, Type::new(None, None, TypeKind::Array(c_id, 4)));
    let alias_id = ctx.register_builtin(
        3,
        Type::new(None, None, TypeKind::Alias("quad".to_string(), arr_id)),
    );
    let resolver = ctx.type_resolver();
    assert!(resolver.resolve_type(arr_id).has_destructor(resolver));
    assert!(resolver.resolve_type(alias_id).has_destructor(resolver));
}

#[test]
fn pointer_ignores_pointee() {
    let mut ctx = BuildContext::new();
    let mut blob = Type::new(None, None, TypeKind::Comp(CompInfo::new(None, false, false, true)));
    blob.set_opaque();
    let blob_id = ctx.register_builtin(1, blob);
    let ptr_id = ctx.register_builtin(2, Type::new(None, None, TypeKind::Pointer(blob_id)));
    let ref_id = ctx.register_builtin(3, Type::new(None, None, TypeKind::Reference(blob_id)));
    let resolver = ctx.type_resolver();
    for id in [ptr_id, ref_id] {
        let t = resolver.resolve_type(id);
        assert!(t.can_derive_debug(resolver));
        assert!(t.can_derive_copy(resolver));
        assert!(t.can_derive_copy_in_array(resolver));
        assert!(!t.has_destructor(resolver));
    }
}

#[test]
fn layout_prefers_explicit_then_compound() {
    let mut ctx = BuildContext::new();
    let with_own = ctx.register_builtin(
        1,
        Type::new(None, Some(Layout::new(4, 4)), TypeKind::Int(IntKind::Int)),
    );
    let comp_fallback = ctx.register_builtin(
        2,
        Type::new(
            None,
            None,
            TypeKind::Comp(CompInfo::new(Some(Layout::new(16, 8)), true, true, false)),
        ),
    );
    let unknown = ctx.register_builtin(3, Type::new(None, None, TypeKind::Void));
    let resolver = ctx.type_resolver();
    assert_eq!(resolver.resolve_type(with_own).layout(resolver), Some(Layout::new(4, 4)));
    assert_eq!(
        resolver.resolve_type(comp_fallback).layout(resolver),
        Some(Layout::new(16, 8))
    );
    assert_eq!(resolver.resolve_type(unknown).layout(resolver), None);
}

#[test]
fn name_reports_what_was_given() {
    let named = Type::new(Some("Foo".to_string()), None, TypeKind::Void);
    assert_eq!(named.name(), Some("Foo"));
    let anonymous = Type::new(None, None, TypeKind::Void);
    assert_eq!(anonymous.name(), None);
}
